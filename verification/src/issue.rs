//! One finding of the linter.

use vstd::prelude::*;

verus! {

/// Where in a file a finding points. Rows count from one.
#[derive(Clone, Copy, Debug, PartialEq, Eq)]
pub struct Location {
    pub row: u32,
    pub column: u32,
}

/// One finding as the linter reported it.
#[derive(Clone, Debug, PartialEq, Eq)]
pub struct Issue {
    pub filename: String,
    pub code: String,
    pub message: String,
    pub location: Location,
}

/// What a finding says, as plain values.
pub struct IssueView {
    pub filename: Seq<char>,
    pub code: Seq<char>,
    pub message: Seq<char>,
    pub row: nat,
    pub column: nat,
}

impl View for Issue {
    type V = IssueView;

    open spec fn view(&self) -> IssueView {
        IssueView {
            filename: self.filename@,
            code: self.code@,
            message: self.message@,
            row: self.location.row as nat,
            column: self.location.column as nat,
        }
    }
}

/// The views of a sequence of findings, in order.
pub open spec fn issue_views(issues: Seq<Issue>) -> Seq<IssueView> {
    issues.map_values(|i: Issue| i@)
}

impl Issue {
    pub fn new(filename: String, code: String, message: String, row: u32, column: u32) -> (issue:
        Issue)
        ensures
            issue@ == (IssueView {
                filename: filename@,
                code: code@,
                message: message@,
                row: row as nat,
                column: column as nat,
            }),
    {
        Issue { filename, code, message, location: Location { row, column } }
    }

    /// A second finding that says the same.
    pub fn duplicate(&self) -> (copy: Issue)
        ensures
            copy@ == self@,
    {
        Issue {
            filename: self.filename.clone(),
            code: self.code.clone(),
            message: self.message.clone(),
            location: Location { row: self.location.row, column: self.location.column },
        }
    }
}

} // verus!
