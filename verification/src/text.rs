//! Text helpers: splitting a text into lines and writing integers in decimal.

use vstd::prelude::*;

verus! {

/// The outside function `String::push` of std appends one character to the
/// end of the string and leaves the characters before it as they were.
pub assume_specification[ String::push ](s: &mut String, ch: char)
    ensures
        final(s)@ == old(s)@.push(ch),
;

/// The outside function `eq` of std on string slices, which `==` calls,
/// tells whether the two hold the same characters.
pub assume_specification[ <str as PartialEq>::eq ](a: &str, b: &str) -> (same: bool)
    ensures
        same == (a@ == b@),
;

/// Index of the first line feed in `s`, or `s.len()` when it holds none.
pub open spec fn first_line_feed(s: Seq<char>) -> nat
    decreases s.len(),
{
    if s.len() == 0 || s[0] == '\n' {
        0
    } else {
        1 + first_line_feed(s.drop_first())
    }
}

/// A line as it is handed out once its line feed was found: a carriage
/// return directly before the line feed belongs to the terminator.
pub open spec fn without_carriage_return(line: Seq<char>) -> Seq<char> {
    if line.len() > 0 && line.last() == '\r' {
        line.drop_last()
    } else {
        line
    }
}

/// The lines of a text. A line ends at a line feed, or at a carriage
/// return followed by a line feed; the terminator is not part of the line.
/// The last line needs no terminator, and a text that ends in one has no
/// empty line after it. A last line without a terminator is kept as it is.
pub open spec fn lines_of(s: Seq<char>) -> Seq<Seq<char>>
    decreases s.len(),
{
    if s.len() == 0 {
        Seq::empty()
    } else {
        let k = first_line_feed(s) as int;
        if k >= s.len() {
            seq![s]
        } else {
            seq![without_carriage_return(s.subrange(0, k))] + lines_of(
                s.subrange(k + 1, s.len() as int),
            )
        }
    }
}

/// The views of a vector of strings, in order.
pub open spec fn texts(v: Seq<String>) -> Seq<Seq<char>> {
    v.map_values(|s: String| s@)
}

/// The first line feed lies within the text or at its end, holds a line
/// feed where it lies within, and has none before it.
pub proof fn lemma_first_line_feed_bounds(s: Seq<char>)
    ensures
        first_line_feed(s) <= s.len(),
        first_line_feed(s) < s.len() ==> s[first_line_feed(s) as int] == '\n',
        forall|j: int| 0 <= j < first_line_feed(s) ==> s[j] != '\n',
    decreases s.len(),
{
    if s.len() > 0 && s[0] != '\n' {
        let rest = s.drop_first();
        lemma_first_line_feed_bounds(rest);
        assert forall|j: int| 0 <= j < first_line_feed(s) implies s[j] != '\n' by {
            if j > 0 {
                assert(s[j] == rest[j - 1]);
            }
        }
    }
}

/// A position that holds a line feed, with none before it, is the first
/// line feed; so is the end of a text that holds none.
pub proof fn lemma_first_line_feed_is(s: Seq<char>, k: int)
    requires
        0 <= k <= s.len(),
        k < s.len() ==> s[k] == '\n',
        forall|j: int| 0 <= j < k ==> s[j] != '\n',
    ensures
        first_line_feed(s) == k,
{
    lemma_first_line_feed_bounds(s);
}

/// Where a line feed is found at `i` and none since `start`, the text from
/// `start` on begins with the line before `i`, and goes on behind `i`.
pub proof fn lemma_lines_at_line_feed(s: Seq<char>, start: int, i: int)
    requires
        0 <= start <= i < s.len(),
        s[i] == '\n',
        forall|j: int| start <= j < i ==> s[j] != '\n',
    ensures
        lines_of(s.subrange(start, s.len() as int)) == seq![
            without_carriage_return(s.subrange(start, i)),
        ] + lines_of(s.subrange(i + 1, s.len() as int)),
{
    let rest = s.subrange(start, s.len() as int);
    lemma_first_line_feed_is(rest, i - start);
    assert(rest.subrange(0, i - start) == s.subrange(start, i));
    assert(rest.subrange(i - start + 1, rest.len() as int) == s.subrange(i + 1, s.len() as int));
}

/// A text without a line feed is one line, or none when it is empty.
pub proof fn lemma_lines_without_line_feed(s: Seq<char>)
    requires
        forall|j: int| 0 <= j < s.len() ==> s[j] != '\n',
    ensures
        lines_of(s) == if s.len() == 0 {
            Seq::<Seq<char>>::empty()
        } else {
            seq![s]
        },
{
    lemma_first_line_feed_is(s, s.len() as int);
}

/// Splits a text into its lines.
pub fn split_lines(text: &str) -> (lines: Vec<String>)
    ensures
        texts(lines@) == lines_of(text@),
{
    let mut lines: Vec<String> = Vec::new();
    let mut current = String::new();
    let mut pending_cr = false;
    let ghost mut start: int = 0;
    let ghost s = text@;
    proof {
        assert(s.subrange(0, s.len() as int) == s);
    }
    for c in it: text.chars()
        invariant
            it.seq() == s,
            0 <= start <= it.index() <= s.len(),
            forall|j: int| start <= j < it.index() ==> s[j] != '\n',
            !pending_cr && current@.len() > 0 ==> current@.last() != '\r',
            current@ + (if pending_cr {
                seq!['\r']
            } else {
                Seq::<char>::empty()
            }) == s.subrange(start, it.index() as int),
            lines_of(s) == texts(lines@) + lines_of(s.subrange(start, s.len() as int)),
    {
        let ghost i = it.index() as int;
        if c == '\n' {
            proof {
                lemma_lines_at_line_feed(s, start, i);
                if pending_cr {
                    assert(s.subrange(start, i).drop_last() == current@);
                }
            }
            lines.push(current);
            current = String::new();
            pending_cr = false;
            proof {
                start = i + 1;
            }
        } else {
            if pending_cr {
                current.push('\r');
            }
            if c == '\r' {
                pending_cr = true;
            } else {
                pending_cr = false;
                current.push(c);
            }
            assert(current@ + (if pending_cr {
                seq!['\r']
            } else {
                Seq::<char>::empty()
            }) == s.subrange(start, i + 1)) by {
                assert(s.subrange(start, i + 1) == s.subrange(start, i).push(c));
            }
        }
    }
    if pending_cr {
        current.push('\r');
    }
    proof {
        let rest = s.subrange(start, s.len() as int);
        assert(current@ == rest);
        lemma_lines_without_line_feed(rest);
    }
    if !current.as_str().is_empty() {
        lines.push(current);
    }
    lines
}

/// The character that stands for a digit below ten.
pub open spec fn digit_char(d: int) -> char {
    if d == 0 {
        '0'
    } else if d == 1 {
        '1'
    } else if d == 2 {
        '2'
    } else if d == 3 {
        '3'
    } else if d == 4 {
        '4'
    } else if d == 5 {
        '5'
    } else if d == 6 {
        '6'
    } else if d == 7 {
        '7'
    } else if d == 8 {
        '8'
    } else {
        '9'
    }
}

/// A natural number in decimal, without leading zeros.
pub open spec fn decimal_of_nat(n: nat) -> Seq<char>
    decreases n,
{
    if n < 10 {
        seq![digit_char(n as int)]
    } else {
        decimal_of_nat(n / 10).push(digit_char((n % 10) as int))
    }
}

/// An integer in decimal, with a minus sign before a negative one.
pub open spec fn decimal_of(n: int) -> Seq<char> {
    if n < 0 {
        seq!['-'] + decimal_of_nat((-n) as nat)
    } else {
        decimal_of_nat(n as nat)
    }
}

fn digit(d: u64) -> (c: char)
    requires
        d < 10,
    ensures
        c == digit_char(d as int),
{
    if d == 0 {
        '0'
    } else if d == 1 {
        '1'
    } else if d == 2 {
        '2'
    } else if d == 3 {
        '3'
    } else if d == 4 {
        '4'
    } else if d == 5 {
        '5'
    } else if d == 6 {
        '6'
    } else if d == 7 {
        '7'
    } else if d == 8 {
        '8'
    } else {
        '9'
    }
}

/// Appends the decimal form of `n` to `out`.
pub fn push_decimal(out: &mut String, n: u64)
    ensures
        final(out)@ == old(out)@ + decimal_of_nat(n as nat),
    decreases n,
{
    if n >= 10 {
        push_decimal(out, n / 10);
    }
    out.push(digit(n % 10));
}

/// Appends the decimal form of a signed number to `out`.
pub fn push_signed_decimal(out: &mut String, n: i64)
    ensures
        final(out)@ == old(out)@ + decimal_of(n as int),
{
    if n < 0 {
        out.push('-');
        let magnitude: u64 = if n == i64::MIN {
            9223372036854775808u64
        } else {
            (-n) as u64
        };
        push_decimal(out, magnitude);
    } else {
        push_decimal(out, n as u64);
    }
}

} // verus!
