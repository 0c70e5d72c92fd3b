use ruff_fixer::text::split_lines;

fn std_lines(text: &str) -> Vec<String> {
    text.lines().map(String::from).collect()
}

#[test]
fn split_lines_of_empty_text_is_empty() {
    assert_eq!(split_lines(""), Vec::<String>::new());
}

#[test]
fn split_lines_agrees_with_std_lines() {
    let samples = [
        "",
        "a",
        "a\n",
        "a\nb",
        "a\r\nb\r\n",
        "\n",
        "\n\n",
        "a\rb\n",
        "a\r",
        "a\r\r\n",
        "\r\n",
        "\r",
        "foo\nbar\n\r\nbaz\r",
        "x = 1\ny = 2\n\nz = 3",
        "h\u{e9}llo\nw\u{f6}rld\n",
    ];
    for sample in samples {
        assert_eq!(split_lines(sample), std_lines(sample), "text {:?}", sample);
    }
}

#[test]
fn split_lines_keeps_a_bare_carriage_return_at_the_end() {
    assert_eq!(split_lines("baz\r"), vec!["baz\r".to_string()]);
}

#[test]
fn split_lines_drops_carriage_return_before_line_feed() {
    assert_eq!(split_lines("a\r\nb"), vec!["a".to_string(), "b".to_string()]);
}

fn decimal(n: u64) -> String {
    let mut out = String::new();
    ruff_fixer::text::push_decimal(&mut out, n);
    out
}

fn signed_decimal(n: i64) -> String {
    let mut out = String::new();
    ruff_fixer::text::push_signed_decimal(&mut out, n);
    out
}

#[test]
fn push_decimal_writes_digits_without_leading_zeros() {
    assert_eq!(decimal(0), "0");
    assert_eq!(decimal(7), "7");
    assert_eq!(decimal(10), "10");
    assert_eq!(decimal(404), "404");
    assert_eq!(decimal(1234567890), "1234567890");
    assert_eq!(decimal(u64::MAX), "18446744073709551615");
}

#[test]
fn push_decimal_appends_to_what_is_there() {
    let mut out = String::from("code ");
    ruff_fixer::text::push_decimal(&mut out, 42);
    assert_eq!(out, "code 42");
}

#[test]
fn push_signed_decimal_writes_the_sign() {
    assert_eq!(signed_decimal(0), "0");
    assert_eq!(signed_decimal(-1), "-1");
    assert_eq!(signed_decimal(2), "2");
    assert_eq!(signed_decimal(-2147483648), "-2147483648");
    assert_eq!(signed_decimal(i64::MIN), "-9223372036854775808");
    assert_eq!(signed_decimal(i64::MAX), "9223372036854775807");
}

#[test]
fn decimal_agrees_with_std_formatting() {
    for n in [0u64, 1, 9, 10, 11, 99, 100, 101, 65535, 4294967295] {
        assert_eq!(decimal(n), format!("{}", n));
    }
    for n in [-100i64, -10, -9, -1, 0, 1, 9, 10, 100] {
        assert_eq!(signed_decimal(n), format!("{}", n));
    }
}
