//! Comparison of two versions of a text, line by line and by position.

use crate::text::{lines_of, split_lines, texts};
use vstd::prelude::*;
use vstd::string::*;

verus! {

/// One line of a comparison: a line that the first text has at a position
/// and the second has not, or the other way round.
#[derive(Clone, Debug, PartialEq, Eq)]
pub enum DiffLine {
    Removed(String),
    Added(String),
}

/// A line of a comparison as plain values.
pub enum DiffLineView {
    Removed(Seq<char>),
    Added(Seq<char>),
}

impl View for DiffLine {
    type V = DiffLineView;

    open spec fn view(&self) -> DiffLineView {
        match self {
            DiffLine::Removed(line) => DiffLineView::Removed(line@),
            DiffLine::Added(line) => DiffLineView::Added(line@),
        }
    }
}

/// The views of a sequence of comparison lines, in order.
pub open spec fn diff_views(lines: Seq<DiffLine>) -> Seq<DiffLineView> {
    lines.map_values(|l: DiffLine| l@)
}

/// The line at `position`, or the empty line behind the last one.
pub open spec fn line_or_empty(lines: Seq<Seq<char>>, position: int) -> Seq<char> {
    if 0 <= position < lines.len() {
        lines[position]
    } else {
        Seq::empty()
    }
}

/// What the comparison says of one position: nothing where both texts
/// have the same line there; else the first text's line as removed and
/// the second's as added, an empty line being passed over.
pub open spec fn changes_at(original: Seq<Seq<char>>, fixed: Seq<Seq<char>>, position: int) -> Seq<
    DiffLineView,
> {
    let before = line_or_empty(original, position);
    let after = line_or_empty(fixed, position);
    if before == after {
        Seq::empty()
    } else {
        (if before.len() > 0 {
            seq![DiffLineView::Removed(before)]
        } else {
            Seq::empty()
        }) + (if after.len() > 0 {
            seq![DiffLineView::Added(after)]
        } else {
            Seq::empty()
        })
    }
}

/// What the comparison says of the positions before `end`, in order.
pub open spec fn changes_before(original: Seq<Seq<char>>, fixed: Seq<Seq<char>>, end: int) -> Seq<
    DiffLineView,
>
    decreases end,
{
    if end <= 0 {
        Seq::empty()
    } else {
        changes_before(original, fixed, end - 1) + changes_at(original, fixed, end - 1)
    }
}

/// The comparison of two lists of lines: every position that either has.
pub open spec fn line_changes(original: Seq<Seq<char>>, fixed: Seq<Seq<char>>) -> Seq<
    DiffLineView,
> {
    changes_before(
        original,
        fixed,
        if original.len() >= fixed.len() {
            original.len() as int
        } else {
            fixed.len() as int
        },
    )
}

/// A comparison line as it is shown.
pub open spec fn shown(line: DiffLineView) -> Seq<char> {
    match line {
        DiffLineView::Removed(text) => "- "@ + text,
        DiffLineView::Added(text) => "+ "@ + text,
    }
}

/// The report of a comparison: two header lines, then the changes.
pub open spec fn diff_report_lines(original: Seq<char>, fixed: Seq<char>) -> Seq<Seq<char>> {
    seq!["--- Original"@, "+++ Fixed"@] + line_changes(
        lines_of(original),
        lines_of(fixed),
    ).map_values(|l: DiffLineView| shown(l))
}

/// Positions at which the two texts have the same line show nothing.
pub proof fn lemma_equal_positions_are_silent(
    original: Seq<Seq<char>>,
    fixed: Seq<Seq<char>>,
    end: int,
)
    requires
        forall|i: int| 0 <= i < end ==> line_or_empty(original, i) == line_or_empty(fixed, i),
    ensures
        changes_before(original, fixed, end) == Seq::<DiffLineView>::empty(),
    decreases end,
{
    if end > 0 {
        lemma_equal_positions_are_silent(original, fixed, end - 1);
    }
}

/// A text compared with itself shows no change.
pub proof fn lemma_same_text_shows_no_change(lines: Seq<Seq<char>>)
    ensures
        line_changes(lines, lines) == Seq::<DiffLineView>::empty(),
{
    lemma_equal_positions_are_silent(lines, lines, lines.len() as int);
}

/// Two texts of as many lines that differ in one line show that line and
/// no other: once as removed, as the first text has it, and once as added,
/// as the second has it.
pub proof fn lemma_one_changed_line(
    original: Seq<Seq<char>>,
    fixed: Seq<Seq<char>>,
    position: int,
)
    requires
        original.len() == fixed.len(),
        0 <= position < original.len(),
        forall|i: int| 0 <= i < original.len() && i != position ==> original[i] == fixed[i],
        original[position] != fixed[position],
        original[position].len() > 0,
        fixed[position].len() > 0,
    ensures
        line_changes(original, fixed) == seq![
            DiffLineView::Removed(original[position]),
            DiffLineView::Added(fixed[position]),
        ],
{
    lemma_changes_behind_the_changed_line(original, fixed, position, original.len() as int);
}

proof fn lemma_changes_behind_the_changed_line(
    original: Seq<Seq<char>>,
    fixed: Seq<Seq<char>>,
    position: int,
    end: int,
)
    requires
        original.len() == fixed.len(),
        0 <= position < end <= original.len(),
        forall|i: int| 0 <= i < original.len() && i != position ==> original[i] == fixed[i],
        original[position] != fixed[position],
        original[position].len() > 0,
        fixed[position].len() > 0,
    ensures
        changes_before(original, fixed, end) == seq![
            DiffLineView::Removed(original[position]),
            DiffLineView::Added(fixed[position]),
        ],
    decreases end,
{
    if end == position + 1 {
        lemma_equal_positions_are_silent(original, fixed, position);
    } else {
        lemma_changes_behind_the_changed_line(original, fixed, position, end - 1);
    }
}

/// Compares two texts line by line. Lines are compared by position only:
/// a line that moved shows as changes at every position it passed.
pub fn diff_lines(original: &str, fixed: &str) -> (changes: Vec<DiffLine>)
    ensures
        diff_views(changes@) == line_changes(lines_of(original@), lines_of(fixed@)),
{
    let before = split_lines(original);
    let after = split_lines(fixed);
    let blank = String::new();
    let end = if before.len() >= after.len() {
        before.len()
    } else {
        after.len()
    };
    let ghost a = lines_of(original@);
    let ghost b = lines_of(fixed@);
    let mut changes: Vec<DiffLine> = Vec::new();
    let mut position: usize = 0;
    while position < end
        invariant
            position <= end,
            texts(before@) == a,
            texts(after@) == b,
            blank@.len() == 0,
            diff_views(changes@) == changes_before(a, b, position as int),
        decreases end - position,
    {
        let old_line: &String = if position < before.len() {
            &before[position]
        } else {
            &blank
        };
        let new_line: &String = if position < after.len() {
            &after[position]
        } else {
            &blank
        };
        if !old_line.as_str().eq(new_line.as_str()) {
            if !old_line.as_str().is_empty() {
                changes.push(DiffLine::Removed(old_line.clone()));
            }
            if !new_line.as_str().is_empty() {
                changes.push(DiffLine::Added(new_line.clone()));
            }
        }
        position += 1;
    }
    changes
}

/// The lines that report a comparison of two texts: the headers
/// `--- Original` and `+++ Fixed`, then each change, a removed line after
/// `- ` and an added line after `+ `.
pub fn diff_report(original: &str, fixed: &str) -> (report: Vec<String>)
    ensures
        texts(report@) == diff_report_lines(original@, fixed@),
{
    let changes = diff_lines(original, fixed);
    let mut report: Vec<String> = Vec::new();
    report.push(String::from_str("--- Original"));
    report.push(String::from_str("+++ Fixed"));
    let ghost all = line_changes(lines_of(original@), lines_of(fixed@));
    let mut k: usize = 0;
    while k < changes.len()
        invariant
            k <= changes@.len(),
            diff_views(changes@) == all,
            texts(report@) == seq!["--- Original"@, "+++ Fixed"@] + all.take(k as int).map_values(
                |l: DiffLineView| shown(l),
            ),
        decreases changes@.len() - k,
    {
        let ghost shorter = report@;
        let line = match &changes[k] {
            DiffLine::Removed(text) => {
                let mut line = String::from_str("- ");
                line.append(text.as_str());
                line
            },
            DiffLine::Added(text) => {
                let mut line = String::from_str("+ ");
                line.append(text.as_str());
                line
            },
        };
        report.push(line);
        assert(texts(report@) == texts(shorter).push(line@));
        k += 1;
    }
    report
}

} // verus!
