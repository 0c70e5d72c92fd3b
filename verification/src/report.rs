//! Lines for the console.

use vstd::prelude::*;

verus! {

/// One line for the console: a progress line for standard output, or an
/// error line for standard error.
#[derive(Clone, Debug, PartialEq, Eq)]
pub enum Report {
    Info(String),
    Error(String),
}

/// A console line as plain values.
pub enum ReportView {
    Info(Seq<char>),
    Error(Seq<char>),
}

impl View for Report {
    type V = ReportView;

    open spec fn view(&self) -> ReportView {
        match self {
            Report::Info(line) => ReportView::Info(line@),
            Report::Error(line) => ReportView::Error(line@),
        }
    }
}

/// The views of a sequence of console lines, in order.
pub open spec fn report_views(reports: Seq<Report>) -> Seq<ReportView> {
    reports.map_values(|r: Report| r@)
}

/// Each text as a progress line.
pub open spec fn info_lines(lines: Seq<Seq<char>>) -> Seq<ReportView> {
    lines.map_values(|line: Seq<char>| ReportView::Info(line))
}

impl Report {
    /// The text of the line.
    pub fn text(&self) -> (line: &String)
        ensures
            line@ == match self@ {
                ReportView::Info(text) => text,
                ReportView::Error(text) => text,
            },
    {
        match self {
            Report::Info(line) => line,
            Report::Error(line) => line,
        }
    }

    /// Whether the line goes to standard error.
    pub fn is_error(&self) -> (error: bool)
        ensures
            error == (self@ is Error),
    {
        match self {
            Report::Info(_) => false,
            Report::Error(_) => true,
        }
    }
}

} // verus!
