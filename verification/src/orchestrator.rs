//! The run as a whole: format, check, group the findings, hand out one
//! remediator per file, and wait until every one of them is finished.
//!
//! The orchestrator decides and does nothing itself: each step takes what
//! happened and says what to do next.

use crate::fixer::{RuffFixer, RuffFixerView};
use crate::grouping::{files_in_order, issues_of_file, IssueGroups};
use crate::issue::{issue_views, Issue, IssueView};
use crate::linter::{
    check_argument_texts, check_failure_message, check_failure_text, check_outcome,
    format_argument_texts, format_failure_text, format_result, outcome_of_check, CheckOutcome,
    CheckOutcomeView, ToolError,
};
use crate::remediator::{initial, FileRemediator, RemediatorView};
use crate::report::{report_views, Report, ReportView};
use crate::text::texts;
use vstd::prelude::*;
use vstd::string::*;

verus! {

/// Where a run stands.
#[derive(Clone, Copy, Debug, PartialEq, Eq, Structural)]
pub enum RunPhase {
    Formatting,
    Checking,
    Parsing,
    Remediating,
    Finished,
}

/// What happened in a run, as the caller saw it.
#[derive(Debug, PartialEq, Eq)]
pub enum RunEvent {
    /// The formatting run of the linter ended.
    FormatExited { success: bool, stderr: String, stdout: String },
    /// The formatting run could not be started.
    FormatNotStarted(String),
    /// The checking run of the linter ended, with or without an exit code.
    CheckExited { code: Option<i32>, stderr: String, stdout: String },
    /// The findings were decoded from the output of the checking run.
    IssuesParsed(Vec<Issue>),
    /// The output of the checking run is no list of findings.
    IssuesUnreadable(String),
    /// One of the files that were handed out is finished.
    FileFinished,
}

/// What the caller is to do next in a run.
#[derive(Debug, PartialEq, Eq)]
pub enum RunAction {
    /// Run the linter with these arguments to format the tree, and report
    /// how it ended.
    RunFormat { program: String, arguments: Vec<String> },
    /// Run the linter with these arguments to check the tree, and report
    /// how it ended.
    RunCheck { program: String, arguments: Vec<String> },
    /// Decode the findings from this JSON text.
    ParseIssues { payload: String },
    /// Start these files, each on its own, and report each that finishes.
    Dispatch { files: Vec<FileRemediator> },
    /// Files are still at work: wait for the next to finish.
    Wait,
    /// The run is over.
    Finish(Result<(), ToolError>),
}

/// The answer to an event: lines for the console, then the next action.
#[derive(Debug, PartialEq, Eq)]
pub struct RunStep {
    pub reports: Vec<Report>,
    pub action: RunAction,
}

/// A run: its settings, its phase, and how many files were handed out and
/// how many of them are still at work.
#[derive(Clone, Debug, PartialEq, Eq)]
pub struct Orchestrator {
    fixer: RuffFixer,
    phase: RunPhase,
    dispatched: usize,
    pending: usize,
}

/// An event of a run as plain values.
pub enum RunEventView {
    FormatExited { success: bool, stderr: Seq<char>, stdout: Seq<char> },
    FormatNotStarted(Seq<char>),
    CheckExited { code: Option<i32>, stderr: Seq<char>, stdout: Seq<char> },
    IssuesParsed(Seq<IssueView>),
    IssuesUnreadable(Seq<char>),
    FileFinished,
}

/// An action of a run as plain values. A failed end holds its diagnostic.
pub enum RunActionView {
    RunFormat { program: Seq<char>, arguments: Seq<Seq<char>> },
    RunCheck { program: Seq<char>, arguments: Seq<Seq<char>> },
    ParseIssues { payload: Seq<char> },
    Dispatch { files: Seq<RemediatorView> },
    Wait,
    Finish(Result<(), Seq<char>>),
}

/// A step of a run as plain values.
pub struct RunStepView {
    pub reports: Seq<ReportView>,
    pub action: RunActionView,
}

/// A run as plain values.
pub struct OrchestratorView {
    pub fixer: RuffFixerView,
    pub phase: RunPhase,
    pub dispatched: nat,
    pub pending: nat,
}

impl View for RunEvent {
    type V = RunEventView;

    open spec fn view(&self) -> RunEventView {
        match self {
            RunEvent::FormatExited { success, stderr, stdout } => RunEventView::FormatExited {
                success: *success,
                stderr: stderr@,
                stdout: stdout@,
            },
            RunEvent::FormatNotStarted(reason) => RunEventView::FormatNotStarted(reason@),
            RunEvent::CheckExited { code, stderr, stdout } => RunEventView::CheckExited {
                code: *code,
                stderr: stderr@,
                stdout: stdout@,
            },
            RunEvent::IssuesParsed(issues) => RunEventView::IssuesParsed(issue_views(issues@)),
            RunEvent::IssuesUnreadable(reason) => RunEventView::IssuesUnreadable(reason@),
            RunEvent::FileFinished => RunEventView::FileFinished,
        }
    }
}

/// The views of a sequence of remediators, in order.
pub open spec fn remediator_views(files: Seq<FileRemediator>) -> Seq<RemediatorView> {
    files.map_values(|f: FileRemediator| f@)
}

impl View for RunAction {
    type V = RunActionView;

    open spec fn view(&self) -> RunActionView {
        match self {
            RunAction::RunFormat { program, arguments } => RunActionView::RunFormat {
                program: program@,
                arguments: texts(arguments@),
            },
            RunAction::RunCheck { program, arguments } => RunActionView::RunCheck {
                program: program@,
                arguments: texts(arguments@),
            },
            RunAction::ParseIssues { payload } => RunActionView::ParseIssues { payload: payload@ },
            RunAction::Dispatch { files } => RunActionView::Dispatch {
                files: remediator_views(files@),
            },
            RunAction::Wait => RunActionView::Wait,
            RunAction::Finish(Ok(_)) => RunActionView::Finish(Ok(())),
            RunAction::Finish(Err(error)) => RunActionView::Finish(Err(error.message@)),
        }
    }
}

impl View for RunStep {
    type V = RunStepView;

    open spec fn view(&self) -> RunStepView {
        RunStepView { reports: report_views(self.reports@), action: self.action@ }
    }
}

impl View for Orchestrator {
    type V = OrchestratorView;

    closed spec fn view(&self) -> OrchestratorView {
        OrchestratorView {
            fixer: self.fixer@,
            phase: self.phase,
            dispatched: self.dispatched as nat,
            pending: self.pending as nat,
        }
    }
}

pub open spec fn formatting_line(root_folder: Seq<char>) -> Seq<char> {
    "Formatting code in "@ + root_folder + "..."@
}

pub open spec fn checking_line(root_folder: Seq<char>) -> Seq<char> {
    "Running Ruff check on "@ + root_folder + "..."@
}

pub open spec fn unreadable_text(reason: Seq<char>) -> Seq<char> {
    "Failed to parse JSON output: "@ + reason
}

/// A run that has not started the linter yet.
pub open spec fn fresh(fixer: RuffFixerView) -> OrchestratorView {
    OrchestratorView {
        fixer,
        phase: RunPhase::Formatting,
        dispatched: 0,
        pending: 0,
    }
}

/// The first step of a run: announce the formatting and start it.
pub open spec fn opening_step(s: OrchestratorView) -> RunStepView {
    RunStepView {
        reports: seq![ReportView::Info(formatting_line(s.fixer.root_folder))],
        action: RunActionView::RunFormat {
            program: s.fixer.ruff_path,
            arguments: format_argument_texts(s.fixer.root_folder),
        },
    }
}

/// One remediator for each file that `issues` names, in the order in which
/// the files are named first, each with the findings of its file.
pub open spec fn units_of(issues: Seq<IssueView>) -> Seq<RemediatorView> {
    files_in_order(issues).map_values(|f: Seq<char>| initial(f, issues_of_file(issues, f)))
}

/// The end of a run, with nothing more for the console.
pub open spec fn ended(s: OrchestratorView, result: Result<(), Seq<char>>) -> (
    OrchestratorView,
    RunStepView,
) {
    (
        OrchestratorView { phase: RunPhase::Finished, ..s },
        RunStepView { reports: Seq::empty(), action: RunActionView::Finish(result) },
    )
}

/// What an event does in a state of the run: the next state and the step
/// to take, or `None` where the state does not wait for such an event.
///
/// A formatting run that fails ends the run. A check that exits with 0
/// ends it in success, with nothing handed out; one that exits with 1 has
/// its findings decoded; every other exit ends the run in failure. The
/// findings are grouped by file and every file is handed out at once. The
/// run then ends when the last of the files that were handed out is
/// finished.
pub open spec fn run_transition(s: OrchestratorView, e: RunEventView) -> Option<
    (OrchestratorView, RunStepView),
> {
    match (s.phase, e) {
        (RunPhase::Formatting, RunEventView::FormatExited { success, stderr, stdout }) => Some(
            if success {
                (
                    OrchestratorView { phase: RunPhase::Checking, ..s },
                    RunStepView {
                        reports: seq![ReportView::Info(checking_line(s.fixer.root_folder))],
                        action: RunActionView::RunCheck {
                            program: s.fixer.ruff_path,
                            arguments: check_argument_texts(s.fixer.root_folder),
                        },
                    },
                )
            } else {
                ended(s, Err(format_failure_text(stderr, stdout)))
            },
        ),
        (RunPhase::Formatting, RunEventView::FormatNotStarted(reason)) => Some(
            ended(s, Err(reason)),
        ),
        (RunPhase::Checking, RunEventView::CheckExited { code, stderr, stdout }) => Some(
            match outcome_of_check(code, stderr, stdout) {
                CheckOutcomeView::Clean => (
                    OrchestratorView { phase: RunPhase::Finished, ..s },
                    RunStepView {
                        reports: seq![ReportView::Info("All good"@)],
                        action: RunActionView::Finish(Ok(())),
                    },
                ),
                CheckOutcomeView::Issues(payload) => (
                    OrchestratorView { phase: RunPhase::Parsing, ..s },
                    RunStepView {
                        reports: Seq::empty(),
                        action: RunActionView::ParseIssues { payload },
                    },
                ),
                CheckOutcomeView::ToolFailure { exit_code, stderr, stdout } => (
                    OrchestratorView { phase: RunPhase::Finished, ..s },
                    RunStepView {
                        reports: seq![
                            ReportView::Error(check_failure_text(exit_code, stderr, stdout)),
                        ],
                        action: RunActionView::Finish(Err("Ruff check failed"@)),
                    },
                ),
            },
        ),
        (RunPhase::Parsing, RunEventView::IssuesParsed(issues)) => Some(
            if units_of(issues).len() == 0 {
                ended(s, Ok(()))
            } else {
                (
                    OrchestratorView {
                        phase: RunPhase::Remediating,
                        dispatched: units_of(issues).len(),
                        pending: units_of(issues).len(),
                        ..s
                    },
                    RunStepView {
                        reports: Seq::empty(),
                        action: RunActionView::Dispatch { files: units_of(issues) },
                    },
                )
            },
        ),
        (RunPhase::Parsing, RunEventView::IssuesUnreadable(reason)) => Some(
            ended(s, Err(unreadable_text(reason))),
        ),
        (RunPhase::Remediating, RunEventView::FileFinished) => Some(
            if s.pending <= 1 {
                ended(OrchestratorView { pending: 0, ..s }, Ok(()))
            } else {
                (
                    OrchestratorView { pending: (s.pending - 1) as nat, ..s },
                    RunStepView { reports: Seq::empty(), action: RunActionView::Wait },
                )
            },
        ),
        _ => None,
    }
}

/// One remediator per group, in the order of the groups.
pub fn remediators_for(groups: IssueGroups) -> (files: Vec<FileRemediator>)
    ensures
        files@.len() == groups.groups@.len(),
        forall|g: int|
            0 <= g < files@.len() ==> (#[trigger] files@[g])@ == initial(
                groups.groups@[g].filename@,
                groups.issues_at(g),
            ),
{
    let mut files: Vec<FileRemediator> = Vec::new();
    let ghost all = groups.groups@;
    for group in it: groups.groups
        invariant
            it.seq() == all,
            files@.len() == it.index(),
            forall|g: int|
                0 <= g < files@.len() ==> (#[trigger] files@[g])@ == initial(
                    all[g].filename@,
                    issue_views(all[g].issues@),
                ),
    {
        files.push(FileRemediator::new(group.filename, group.issues));
    }
    files
}

/// The remediators of a list of findings are those of its grouping.
pub proof fn lemma_units_of_groups(groups: IssueGroups, issues: Seq<IssueView>, files: Seq<
    RemediatorView,
>)
    requires
        groups.groups_of(issues),
        files.len() == groups.groups@.len(),
        forall|g: int|
            0 <= g < files.len() ==> #[trigger] files[g] == initial(
                groups.groups@[g].filename@,
                groups.issues_at(g),
            ),
    ensures
        files == units_of(issues),
{
    assert(files.len() == units_of(issues).len());
    assert(files =~= units_of(issues));
}

fn console_line(head: &str, middle: &str, tail: &str) -> (line: String)
    ensures
        line@ == head@ + middle@ + tail@,
{
    let mut line = String::from_str(head);
    line.append(middle);
    line.append(tail);
    line
}

impl Orchestrator {
    /// A run with these settings, about to format.
    pub fn new(fixer: RuffFixer) -> (orchestrator: Orchestrator)
        ensures
            orchestrator@ == fresh(fixer@),
    {
        Orchestrator { fixer, phase: RunPhase::Formatting, dispatched: 0, pending: 0 }
    }

    /// The settings of the run.
    pub fn fixer(&self) -> (fixer: &RuffFixer)
        ensures
            fixer@ == self@.fixer,
    {
        &self.fixer
    }

    pub fn phase(&self) -> (phase: RunPhase)
        ensures
            phase == self@.phase,
    {
        self.phase
    }

    /// How many files were handed out.
    pub fn dispatched(&self) -> (count: usize)
        ensures
            count == self@.dispatched,
    {
        self.dispatched
    }

    /// How many of the files that were handed out are still at work.
    pub fn pending(&self) -> (count: usize)
        ensures
            count == self@.pending,
    {
        self.pending
    }

    /// The first step of a run: announce the formatting and start it.
    pub fn begin(&self) -> (step: RunStep)
        ensures
            step@ == opening_step(self@),
    {
        let mut reports: Vec<Report> = Vec::new();
        reports.push(
            Report::Info(console_line("Formatting code in ", self.fixer.root_folder.as_str(), "...")),
        );
        let step = RunStep {
            reports,
            action: RunAction::RunFormat {
                program: self.fixer.ruff_path.clone(),
                arguments: self.fixer.format_arguments(),
            },
        };
        assert(step@.reports == opening_step(self@).reports);
        step
    }

    fn end(&mut self, result: Result<(), ToolError>) -> (step: RunStep)
        ensures
            final(self)@ == (OrchestratorView { phase: RunPhase::Finished, ..old(self)@ }),
            step@ == (RunStepView {
                reports: Seq::empty(),
                action: (RunAction::Finish(result))@,
            }),
    {
        self.phase = RunPhase::Finished;
        let step = RunStep { reports: Vec::new(), action: RunAction::Finish(result) };
        assert(step@.reports == Seq::<ReportView>::empty());
        step
    }

    fn end_with_report(&mut self, report: Report, result: Result<(), ToolError>) -> (step: RunStep)
        ensures
            final(self)@ == (OrchestratorView { phase: RunPhase::Finished, ..old(self)@ }),
            step@ == (RunStepView { reports: seq![report@], action: (RunAction::Finish(result))@ }),
    {
        self.phase = RunPhase::Finished;
        let mut reports: Vec<Report> = Vec::new();
        reports.push(report);
        let step = RunStep { reports, action: RunAction::Finish(result) };
        assert(step@.reports == seq![report@]);
        step
    }

    /// Takes an event and says what to do next. An event that the phase
    /// does not wait for is refused: nothing changes and nothing is to be
    /// done for it.
    pub fn step(&mut self, event: RunEvent) -> (outcome: Option<RunStep>)
        ensures
            match run_transition(old(self)@, event@) {
                Some((next, step)) => outcome matches Some(taken) && taken@ == step && final(self)@
                    == next,
                None => outcome is None && final(self)@ == old(self)@,
            },
    {
        match (self.phase, event) {
            (RunPhase::Formatting, RunEvent::FormatExited { success, stderr, stdout }) => {
                match format_result(success, stderr.as_str(), stdout.as_str()) {
                    Ok(_) => {
                        self.phase = RunPhase::Checking;
                        let mut reports: Vec<Report> = Vec::new();
                        reports.push(
                            Report::Info(
                                console_line(
                                    "Running Ruff check on ",
                                    self.fixer.root_folder.as_str(),
                                    "...",
                                ),
                            ),
                        );
                        let step = RunStep {
                            reports,
                            action: RunAction::RunCheck {
                                program: self.fixer.ruff_path.clone(),
                                arguments: self.fixer.check_arguments(),
                            },
                        };
                        assert(step@.reports == seq![
                            ReportView::Info(checking_line(old(self)@.fixer.root_folder)),
                        ]);
                        Some(step)
                    },
                    Err(error) => Some(self.end(Err(error))),
                }
            },
            (RunPhase::Formatting, RunEvent::FormatNotStarted(reason)) => {
                Some(self.end(Err(ToolError { message: reason })))
            },
            (RunPhase::Checking, RunEvent::CheckExited { code, stderr, stdout }) => {
                match check_outcome(code, stderr, stdout) {
                    CheckOutcome::Clean => {
                        Some(
                            self.end_with_report(
                                Report::Info(String::from_str("All good")),
                                Ok(()),
                            ),
                        )
                    },
                    CheckOutcome::Issues(payload) => {
                        self.phase = RunPhase::Parsing;
                        let step = RunStep {
                            reports: Vec::new(),
                            action: RunAction::ParseIssues { payload },
                        };
                        assert(step@.reports == Seq::<ReportView>::empty());
                        Some(step)
                    },
                    CheckOutcome::ToolFailure { exit_code, stderr, stdout } => {
                        let line = check_failure_message(
                            exit_code,
                            stderr.as_str(),
                            stdout.as_str(),
                        );
                        Some(
                            self.end_with_report(
                                Report::Error(line),
                                Err(ToolError { message: String::from_str("Ruff check failed") }),
                            ),
                        )
                    },
                }
            },
            (RunPhase::Parsing, RunEvent::IssuesParsed(issues)) => {
                let groups = self.fixer.group_issues_by_file(issues);
                let ghost grouping = groups;
                let files = remediators_for(groups);
                proof {
                    lemma_units_of_groups(
                        grouping,
                        issue_views(issues@),
                        remediator_views(files@),
                    );
                }
                if files.len() == 0 {
                    Some(self.end(Ok(())))
                } else {
                    self.phase = RunPhase::Remediating;
                    self.dispatched = files.len();
                    self.pending = files.len();
                    let step = RunStep { reports: Vec::new(), action: RunAction::Dispatch { files } };
                    assert(step@.reports == Seq::<ReportView>::empty());
                    Some(step)
                }
            },
            (RunPhase::Parsing, RunEvent::IssuesUnreadable(reason)) => {
                let mut message = String::from_str("Failed to parse JSON output: ");
                message.append(reason.as_str());
                Some(self.end(Err(ToolError { message })))
            },
            (RunPhase::Remediating, RunEvent::FileFinished) => {
                if self.pending <= 1 {
                    self.pending = 0;
                    Some(self.end(Ok(())))
                } else {
                    self.pending = self.pending - 1;
                    let step = RunStep { reports: Vec::new(), action: RunAction::Wait };
                    assert(step@.reports == Seq::<ReportView>::empty());
                    Some(step)
                }
            },
            _ => None,
        }
    }
}

} // verus!
