use ruff_fixer::diff::{diff_lines, diff_report, DiffLine};

fn removed(line: &str) -> DiffLine {
    DiffLine::Removed(line.to_string())
}

fn added(line: &str) -> DiffLine {
    DiffLine::Added(line.to_string())
}

#[test]
fn diff_of_one_changed_line_shows_that_line_only() {
    assert_eq!(diff_lines("a\nb\nc", "a\nx\nc"), vec![removed("b"), added("x")]);
}

#[test]
fn diff_report_of_one_changed_line() {
    assert_eq!(
        diff_report("a\nb\nc", "a\nx\nc"),
        vec!["--- Original", "+++ Fixed", "- b", "+ x"]
    );
}

#[test]
fn diff_of_equal_texts_is_empty() {
    assert_eq!(diff_lines("a\nb\n", "a\nb\n"), Vec::<DiffLine>::new());
    assert_eq!(diff_lines("", ""), Vec::<DiffLine>::new());
    assert_eq!(diff_report("same", "same"), vec!["--- Original", "+++ Fixed"]);
}

#[test]
fn diff_ignores_how_lines_end() {
    assert_eq!(diff_lines("a\r\nb\r\n", "a\nb"), Vec::<DiffLine>::new());
}

#[test]
fn diff_of_a_longer_fixed_text_adds_the_rest() {
    assert_eq!(diff_lines("a", "a\nb\nc"), vec![added("b"), added("c")]);
}

#[test]
fn diff_of_a_shorter_fixed_text_removes_the_rest() {
    assert_eq!(diff_lines("a\nb\nc", "a"), vec![removed("b"), removed("c")]);
}

#[test]
fn diff_passes_over_empty_lines() {
    assert_eq!(diff_lines("a\n\nc", "a\nb\nc"), vec![added("b")]);
    assert_eq!(diff_lines("a\nb\nc", "a\n\nc"), vec![removed("b")]);
}

#[test]
fn diff_compares_by_position() {
    assert_eq!(
        diff_lines("a\nb\nc", "new\na\nb\nc"),
        vec![
            removed("a"),
            added("new"),
            removed("b"),
            added("a"),
            removed("c"),
            added("b"),
            added("c"),
        ]
    );
}

#[test]
fn diff_report_marks_each_side() {
    assert_eq!(
        diff_report("x = 1\ny = 2\n", "x = 1\ny = 3\nz = 4\n"),
        vec!["--- Original", "+++ Fixed", "- y = 2", "+ y = 3", "+ z = 4"]
    );
}
