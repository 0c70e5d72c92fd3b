//! The life of one file: read it, ask for a fix of each finding in turn on
//! the text as it then stands, write the result back once.
//!
//! The remediator decides and does nothing itself: each step takes what
//! happened and says what to do next.

use crate::diff::{diff_report, diff_report_lines};
use crate::fix_client::{fix_request, request_for, ChatRequest, ChatRequestView, FixError};
use crate::issue::{issue_views, Issue, IssueView};
use crate::report::{info_lines, report_views, Report, ReportView};
use crate::text::texts;
use vstd::prelude::*;
use vstd::string::*;

verus! {

/// Where a file stands. `Fixing(i)` waits for the fix of finding `i`.
#[derive(Clone, Copy, Debug, PartialEq, Eq, Structural)]
pub enum Phase {
    Reading,
    Fixing(usize),
    Writing,
    Done,
    ReadFailed,
    WriteFailed,
}

/// What happened to a file, as the caller saw it.
#[derive(Debug, PartialEq, Eq)]
pub enum FileEvent {
    /// The file was read, or could not be.
    ReadDone(Result<String, String>),
    /// The fix service answered for the finding in turn, or failed.
    FixDone(Result<String, FixError>),
    /// The file was written, or could not be.
    WriteDone(Result<(), String>),
}

/// What the caller is to do next for a file.
#[derive(Clone, Debug, PartialEq, Eq)]
pub enum FileAction {
    Read { filename: String },
    RequestFix { request: ChatRequest },
    Write { filename: String, content: String },
    /// Nothing is left to do: announce that the file is finished.
    Finish,
}

/// The answer to an event: lines for the console, then the next action.
#[derive(Clone, Debug, PartialEq, Eq)]
pub struct FileStep {
    pub reports: Vec<Report>,
    pub action: FileAction,
}

/// One file with its findings, the text as it now stands, and the phase.
#[derive(Clone, Debug, PartialEq, Eq)]
pub struct FileRemediator {
    filename: String,
    content: String,
    issues: Vec<Issue>,
    phase: Phase,
}

/// An event as plain values. A failure holds its message.
pub enum FileEventView {
    ReadDone(Result<Seq<char>, Seq<char>>),
    FixDone(Result<Seq<char>, Seq<char>>),
    WriteDone(Result<(), Seq<char>>),
}

/// An action as plain values.
pub enum FileActionView {
    Read { filename: Seq<char> },
    RequestFix { request: ChatRequestView },
    Write { filename: Seq<char>, content: Seq<char> },
    Finish,
}

/// A step as plain values.
pub struct FileStepView {
    pub reports: Seq<ReportView>,
    pub action: FileActionView,
}

/// A remediator as plain values.
pub struct RemediatorView {
    pub filename: Seq<char>,
    pub content: Seq<char>,
    pub issues: Seq<IssueView>,
    pub phase: Phase,
}

impl View for FileEvent {
    type V = FileEventView;

    open spec fn view(&self) -> FileEventView {
        match self {
            FileEvent::ReadDone(Ok(content)) => FileEventView::ReadDone(Ok(content@)),
            FileEvent::ReadDone(Err(reason)) => FileEventView::ReadDone(Err(reason@)),
            FileEvent::FixDone(Ok(fixed)) => FileEventView::FixDone(Ok(fixed@)),
            FileEvent::FixDone(Err(error)) => FileEventView::FixDone(Err(error.message_text())),
            FileEvent::WriteDone(Ok(_)) => FileEventView::WriteDone(Ok(())),
            FileEvent::WriteDone(Err(reason)) => FileEventView::WriteDone(Err(reason@)),
        }
    }
}

impl View for FileAction {
    type V = FileActionView;

    open spec fn view(&self) -> FileActionView {
        match self {
            FileAction::Read { filename } => FileActionView::Read { filename: filename@ },
            FileAction::RequestFix { request } => FileActionView::RequestFix { request: request@ },
            FileAction::Write { filename, content } => FileActionView::Write {
                filename: filename@,
                content: content@,
            },
            FileAction::Finish => FileActionView::Finish,
        }
    }
}

impl View for FileStep {
    type V = FileStepView;

    open spec fn view(&self) -> FileStepView {
        FileStepView { reports: report_views(self.reports@), action: self.action@ }
    }
}

impl View for FileRemediator {
    type V = RemediatorView;

    closed spec fn view(&self) -> RemediatorView {
        RemediatorView {
            filename: self.filename@,
            content: self.content@,
            issues: issue_views(self.issues@),
            phase: self.phase,
        }
    }
}

pub open spec fn processing_line(filename: Seq<char>) -> Seq<char> {
    "Processing file: "@ + filename
}

pub open spec fn fixing_line(filename: Seq<char>, message: Seq<char>) -> Seq<char> {
    "Fixing issue in "@ + filename + ": "@ + message
}

pub open spec fn read_failed_line(filename: Seq<char>, reason: Seq<char>) -> Seq<char> {
    "Error reading "@ + filename + ": "@ + reason
}

pub open spec fn fix_failed_line(filename: Seq<char>, reason: Seq<char>) -> Seq<char> {
    "Error processing "@ + filename + ": "@ + reason
}

pub open spec fn write_failed_line(filename: Seq<char>, reason: Seq<char>) -> Seq<char> {
    "Error writing to "@ + filename + ": "@ + reason
}

pub open spec fn written_line(filename: Seq<char>) -> Seq<char> {
    "Fixed issues in "@ + filename
}

/// A remediator that has not read its file yet.
pub open spec fn initial(filename: Seq<char>, issues: Seq<IssueView>) -> RemediatorView {
    RemediatorView { filename, content: Seq::empty(), issues, phase: Phase::Reading }
}

/// The first step: announce the file and read it.
pub open spec fn first_step(s: RemediatorView) -> FileStepView {
    FileStepView {
        reports: seq![ReportView::Info(processing_line(s.filename))],
        action: FileActionView::Read { filename: s.filename },
    }
}

/// Turns to the finding at `index`: announces it and asks for its fix on
/// the text as it stands. Behind the last finding, turns to writing.
pub open spec fn approach(s: RemediatorView, index: int) -> (RemediatorView, FileStepView) {
    if 0 <= index < s.issues.len() {
        (
            RemediatorView { phase: Phase::Fixing(index as usize), ..s },
            FileStepView {
                reports: seq![
                    ReportView::Info(fixing_line(s.filename, s.issues[index].message)),
                ],
                action: FileActionView::RequestFix {
                    request: request_for(s.issues[index], s.content),
                },
            },
        )
    } else {
        (
            RemediatorView { phase: Phase::Writing, ..s },
            FileStepView {
                reports: Seq::empty(),
                action: FileActionView::Write { filename: s.filename, content: s.content },
            },
        )
    }
}

/// The same step with `reports` before its own.
pub open spec fn after_reports(reports: Seq<ReportView>, turn: (RemediatorView, FileStepView)) -> (
    RemediatorView,
    FileStepView,
) {
    (turn.0, FileStepView { reports: reports + turn.1.reports, action: turn.1.action })
}

/// What an event does in a state: the next state and the step to take, or
/// `None` where the state does not wait for such an event.
///
/// A file that cannot be read is given up. A fix that came back replaces
/// the text and is reported as a comparison; a fix that failed is
/// reported and leaves the text as it was; either way the next finding is
/// turned to. Behind the last finding the text is written, and whatever
/// comes of that, the file is finished.
pub open spec fn transition(s: RemediatorView, e: FileEventView) -> Option<
    (RemediatorView, FileStepView),
> {
    match (s.phase, e) {
        (Phase::Reading, FileEventView::ReadDone(Ok(content))) => Some(
            approach(RemediatorView { content, ..s }, 0),
        ),
        (Phase::Reading, FileEventView::ReadDone(Err(reason))) => Some(
            (
                RemediatorView { phase: Phase::ReadFailed, ..s },
                FileStepView {
                    reports: seq![ReportView::Error(read_failed_line(s.filename, reason))],
                    action: FileActionView::Finish,
                },
            ),
        ),
        (Phase::Fixing(i), FileEventView::FixDone(Ok(fixed))) => Some(
            after_reports(
                info_lines(diff_report_lines(s.content, fixed)),
                approach(RemediatorView { content: fixed, ..s }, i + 1),
            ),
        ),
        (Phase::Fixing(i), FileEventView::FixDone(Err(reason))) => Some(
            after_reports(
                seq![ReportView::Error(fix_failed_line(s.filename, reason))],
                approach(s, i + 1),
            ),
        ),
        (Phase::Writing, FileEventView::WriteDone(Ok(_))) => Some(
            (
                RemediatorView { phase: Phase::Done, ..s },
                FileStepView {
                    reports: seq![ReportView::Info(written_line(s.filename))],
                    action: FileActionView::Finish,
                },
            ),
        ),
        (Phase::Writing, FileEventView::WriteDone(Err(reason))) => Some(
            (
                RemediatorView { phase: Phase::WriteFailed, ..s },
                FileStepView {
                    reports: seq![ReportView::Error(write_failed_line(s.filename, reason))],
                    action: FileActionView::Finish,
                },
            ),
        ),
        _ => None,
    }
}

fn line2(head: &str, tail: &str) -> (line: String)
    ensures
        line@ == head@ + tail@,
{
    let mut line = String::from_str(head);
    line.append(tail);
    line
}

fn line4(head: &str, first: &str, middle: &str, second: &str) -> (line: String)
    ensures
        line@ == head@ + first@ + middle@ + second@,
{
    let mut line = String::from_str(head);
    line.append(first);
    line.append(middle);
    line.append(second);
    line
}

fn push_info_lines(reports: &mut Vec<Report>, lines: Vec<String>)
    ensures
        report_views(final(reports)@) == report_views(old(reports)@) + info_lines(texts(lines@)),
{
    let ghost start = report_views(reports@);
    let ghost all = texts(lines@);
    for line in it: lines
        invariant
            all == texts(it.seq()),
            report_views(reports@) == start + info_lines(all.take(it.index() as int)),
    {
        let ghost shorter = reports@;
        reports.push(Report::Info(line));
        assert(report_views(reports@) == report_views(shorter).push(ReportView::Info(line@)));
    }
}

impl FileRemediator {
    /// A remediator for `filename` and its findings, about to read the
    /// file.
    pub fn new(filename: String, issues: Vec<Issue>) -> (remediator: FileRemediator)
        ensures
            remediator@ == initial(filename@, issue_views(issues@)),
    {
        FileRemediator { filename, content: String::new(), issues, phase: Phase::Reading }
    }

    pub fn filename(&self) -> (filename: &String)
        ensures
            filename@ == self@.filename,
    {
        &self.filename
    }

    /// The text of the file as it now stands.
    pub fn content(&self) -> (content: &String)
        ensures
            content@ == self@.content,
    {
        &self.content
    }

    pub fn issues(&self) -> (issues: &Vec<Issue>)
        ensures
            issue_views(issues@) == self@.issues,
    {
        &self.issues
    }

    pub fn phase(&self) -> (phase: Phase)
        ensures
            phase == self@.phase,
    {
        self.phase
    }

    /// Whether the file is finished, in success or in failure.
    pub fn is_finished(&self) -> (finished: bool)
        ensures
            finished == (self@.phase == Phase::Done || self@.phase == Phase::ReadFailed
                || self@.phase == Phase::WriteFailed),
    {
        match self.phase {
            Phase::Done => true,
            Phase::ReadFailed => true,
            Phase::WriteFailed => true,
            _ => false,
        }
    }

    /// The first step of a file: announce it and read it.
    pub fn begin(&self) -> (step: FileStep)
        ensures
            step@ == first_step(self@),
    {
        let mut reports: Vec<Report> = Vec::new();
        reports.push(Report::Info(line2("Processing file: ", self.filename.as_str())));
        let step = FileStep { reports, action: FileAction::Read { filename: self.filename.clone() } };
        assert(step@.reports == first_step(self@).reports);
        step
    }

    fn turn_to(&mut self, index: usize, reports: Vec<Report>) -> (step: FileStep)
        ensures
            final(self)@ == approach(old(self)@, index as int).0,
            step@ == after_reports(report_views(reports@), approach(old(self)@, index as int)).1,
    {
        let mut reports = reports;
        let ghost given = report_views(reports@);
        if index < self.issues.len() {
            let issue = &self.issues[index];
            reports.push(
                Report::Info(
                    line4(
                        "Fixing issue in ",
                        self.filename.as_str(),
                        ": ",
                        issue.message.as_str(),
                    ),
                ),
            );
            let request = fix_request(issue, self.content.as_str());
            self.phase = Phase::Fixing(index);
            let step = FileStep { reports, action: FileAction::RequestFix { request } };
            assert(step@.reports == given + approach(old(self)@, index as int).1.reports);
            step
        } else {
            self.phase = Phase::Writing;
            FileStep {
                reports,
                action: FileAction::Write {
                    filename: self.filename.clone(),
                    content: self.content.clone(),
                },
            }
        }
    }

    fn finish_with(&mut self, phase: Phase, report: Report) -> (step: FileStep)
        ensures
            final(self)@ == (RemediatorView { phase, ..old(self)@ }),
            step@ == (FileStepView { reports: seq![report@], action: FileActionView::Finish }),
    {
        self.phase = phase;
        let mut reports: Vec<Report> = Vec::new();
        reports.push(report);
        let step = FileStep { reports, action: FileAction::Finish };
        assert(step@.reports == seq![report@]);
        step
    }

    /// The index behind `index`, as far as a finding can stand there.
    fn successor(&self, index: usize) -> (next: usize)
        ensures
            next == index + 1 || (next >= self@.issues.len() && index + 1 >= self@.issues.len()),
    {
        if index < self.issues.len() {
            index + 1
        } else {
            index
        }
    }

    /// Takes an event and says what to do next. An event that the phase
    /// does not wait for is refused: nothing changes and nothing is to be
    /// done for it.
    pub fn step(&mut self, event: FileEvent) -> (outcome: Option<FileStep>)
        ensures
            match transition(old(self)@, event@) {
                Some((next, step)) => outcome matches Some(taken) && taken@ == step && final(self)@
                    == next,
                None => outcome is None && final(self)@ == old(self)@,
            },
    {
        match (self.phase, event) {
            (Phase::Reading, FileEvent::ReadDone(Ok(content))) => {
                self.content = content;
                Some(self.turn_to(0, Vec::new()))
            },
            (Phase::Reading, FileEvent::ReadDone(Err(reason))) => {
                let line = line4("Error reading ", self.filename.as_str(), ": ", reason.as_str());
                Some(self.finish_with(Phase::ReadFailed, Report::Error(line)))
            },
            (Phase::Fixing(i), FileEvent::FixDone(Ok(fixed))) => {
                let mut reports: Vec<Report> = Vec::new();
                push_info_lines(&mut reports, diff_report(self.content.as_str(), fixed.as_str()));
                let next = self.successor(i);
                self.content = fixed;
                Some(self.turn_to(next, reports))
            },
            (Phase::Fixing(i), FileEvent::FixDone(Err(error))) => {
                let reason = error.message();
                let line = line4(
                    "Error processing ",
                    self.filename.as_str(),
                    ": ",
                    reason.as_str(),
                );
                let mut reports: Vec<Report> = Vec::new();
                reports.push(Report::Error(line));
                assert(report_views(reports@) == seq![
                    ReportView::Error(fix_failed_line(old(self)@.filename, error.message_text())),
                ]);
                let next = self.successor(i);
                Some(self.turn_to(next, reports))
            },
            (Phase::Writing, FileEvent::WriteDone(Ok(_))) => {
                let line = line2("Fixed issues in ", self.filename.as_str());
                Some(self.finish_with(Phase::Done, Report::Info(line)))
            },
            (Phase::Writing, FileEvent::WriteDone(Err(reason))) => {
                let line = line4(
                    "Error writing to ",
                    self.filename.as_str(),
                    ": ",
                    reason.as_str(),
                );
                Some(self.finish_with(Phase::WriteFailed, Report::Error(line)))
            },
            _ => None,
        }
    }
}

} // verus!
