use ruff_fixer::fix_client::fix_request;
use ruff_fixer::fixer::RuffFixer;
use ruff_fixer::issue::Issue;
use ruff_fixer::linter::ToolError;
use ruff_fixer::orchestrator::{Orchestrator, RunAction, RunEvent, RunPhase, RunStep};
use ruff_fixer::remediator::{FileAction, FileEvent, FileRemediator, Phase};
use ruff_fixer::report::Report;

fn issue(filename: &str, message: &str, row: u32) -> Issue {
    Issue::new(filename.to_string(), "E".to_string(), message.to_string(), row, 1)
}

fn orchestrator() -> Orchestrator {
    Orchestrator::new(RuffFixer::new(
        "secret".to_string(),
        "/opt/ruff".to_string(),
        "project".to_string(),
    ))
}

fn info(line: &str) -> Report {
    Report::Info(line.to_string())
}

fn format_ok() -> RunEvent {
    RunEvent::FormatExited { success: true, stderr: String::new(), stdout: "ok".to_string() }
}

fn check_exit(code: Option<i32>, stderr: &str, stdout: &str) -> RunEvent {
    RunEvent::CheckExited { code, stderr: stderr.to_string(), stdout: stdout.to_string() }
}

fn failure(message: &str) -> RunAction {
    RunAction::Finish(Err(ToolError { message: message.to_string() }))
}

fn parsing(issues_json: &str) -> Orchestrator {
    let mut run = orchestrator();
    run.step(format_ok()).expect("formatting is awaited");
    let step = run.step(check_exit(Some(1), "", issues_json)).expect("the check is awaited");
    assert_eq!(step.action, RunAction::ParseIssues { payload: issues_json.to_string() });
    run
}

#[test]
fn a_run_begins_with_formatting() {
    let run = orchestrator();
    assert_eq!(run.phase(), RunPhase::Formatting);
    assert_eq!(run.dispatched(), 0);
    assert_eq!(run.pending(), 0);
    assert_eq!(run.fixer().api_key, "secret");
    assert_eq!(
        run.begin(),
        RunStep {
            reports: vec![info("Formatting code in project...")],
            action: RunAction::RunFormat {
                program: "/opt/ruff".to_string(),
                arguments: vec!["format".to_string(), "project".to_string()],
            },
        }
    );
}

#[test]
fn the_check_runs_after_the_formatting() {
    let mut run = orchestrator();
    let step = run.step(format_ok()).expect("formatting is awaited");
    assert_eq!(
        step,
        RunStep {
            reports: vec![info("Running Ruff check on project...")],
            action: RunAction::RunCheck {
                program: "/opt/ruff".to_string(),
                arguments: vec![
                    "check".to_string(),
                    "--fix".to_string(),
                    "project".to_string(),
                    "--output-format".to_string(),
                    "json".to_string(),
                ],
            },
        }
    );
    assert_eq!(run.phase(), RunPhase::Checking);
}

#[test]
fn a_failed_formatting_ends_the_run() {
    let mut run = orchestrator();
    let step = run
        .step(RunEvent::FormatExited {
            success: false,
            stderr: "bad".to_string(),
            stdout: "out".to_string(),
        })
        .expect("formatting is awaited");
    assert_eq!(
        step,
        RunStep { reports: Vec::new(), action: failure("Ruff format failed: bad, out") }
    );
    assert_eq!(run.phase(), RunPhase::Finished);
    assert_eq!(run.step(check_exit(Some(0), "", "")), None);
}

#[test]
fn a_linter_that_cannot_be_started_ends_the_run() {
    let mut run = orchestrator();
    let step = run
        .step(RunEvent::FormatNotStarted("No such file or directory (os error 2)".to_string()))
        .expect("formatting is awaited");
    assert_eq!(step.action, failure("No such file or directory (os error 2)"));
    assert_eq!(run.phase(), RunPhase::Finished);
}

#[test]
fn a_clean_check_ends_the_run_without_any_file() {
    let mut run = orchestrator();
    let mut actions = vec![run.begin().action];
    actions.push(run.step(format_ok()).expect("formatting is awaited").action);
    let step = run.step(check_exit(Some(0), "", "[]")).expect("the check is awaited");
    assert_eq!(step.reports, vec![info("All good")]);
    assert_eq!(step.action, RunAction::Finish(Ok(())));
    actions.push(step.action);
    assert_eq!(run.phase(), RunPhase::Finished);
    assert_eq!(run.dispatched(), 0);
    assert_eq!(run.pending(), 0);
    assert!(actions
        .iter()
        .all(|a| !matches!(a, RunAction::Dispatch { .. } | RunAction::ParseIssues { .. })));
    assert_eq!(run.step(RunEvent::IssuesParsed(vec![issue("foo.py", "m", 1)])), None);
    assert_eq!(run.step(RunEvent::FileFinished), None);
    assert_eq!(run.dispatched(), 0);
}

#[test]
fn a_check_that_fails_ends_the_run_with_a_diagnostic() {
    let mut run = orchestrator();
    run.step(format_ok()).expect("formatting is awaited");
    let step = run.step(check_exit(Some(2), "boom", "out")).expect("the check is awaited");
    assert_eq!(
        step,
        RunStep {
            reports: vec![Report::Error(
                "Ruff check failed with exit code 2: boom, out".to_string()
            )],
            action: failure("Ruff check failed"),
        }
    );
    assert_eq!(run.phase(), RunPhase::Finished);
}

#[test]
fn a_check_without_exit_code_has_failed() {
    let mut run = orchestrator();
    run.step(format_ok()).expect("formatting is awaited");
    let step = run.step(check_exit(None, "killed", "")).expect("the check is awaited");
    assert_eq!(
        step.reports,
        vec![Report::Error("Ruff check failed with exit code -1: killed, ".to_string())]
    );
    assert_eq!(step.action, failure("Ruff check failed"));
}

#[test]
fn findings_that_cannot_be_decoded_end_the_run() {
    let mut run = parsing("not json");
    assert_eq!(run.phase(), RunPhase::Parsing);
    let step = run
        .step(RunEvent::IssuesUnreadable("expected ident at line 1 column 2".to_string()))
        .expect("the findings are awaited");
    assert_eq!(
        step,
        RunStep {
            reports: Vec::new(),
            action: failure("Failed to parse JSON output: expected ident at line 1 column 2"),
        }
    );
    assert_eq!(run.phase(), RunPhase::Finished);
}

#[test]
fn an_empty_list_of_findings_ends_the_run_in_success() {
    let mut run = parsing("[]");
    let step = run.step(RunEvent::IssuesParsed(Vec::new())).expect("the findings are awaited");
    assert_eq!(step, RunStep { reports: Vec::new(), action: RunAction::Finish(Ok(())) });
    assert_eq!(run.phase(), RunPhase::Finished);
    assert_eq!(run.dispatched(), 0);
}

#[test]
fn every_file_is_handed_out_with_its_own_findings() {
    let issues = vec![
        issue("foo.py", "first", 2),
        issue("bar.py", "second", 1),
        issue("foo.py", "third", 5),
    ];
    let mut run = parsing("[...]");
    let step = run.step(RunEvent::IssuesParsed(issues.clone())).expect("the findings are awaited");
    assert_eq!(step.reports, Vec::<Report>::new());
    assert_eq!(
        step.action,
        RunAction::Dispatch {
            files: vec![
                FileRemediator::new(
                    "foo.py".to_string(),
                    vec![issues[0].clone(), issues[2].clone()]
                ),
                FileRemediator::new("bar.py".to_string(), vec![issues[1].clone()]),
            ],
        }
    );
    assert_eq!(run.phase(), RunPhase::Remediating);
    assert_eq!(run.dispatched(), 2);
    assert_eq!(run.pending(), 2);
}

#[test]
fn the_run_ends_when_the_last_file_is_finished() {
    let issues = vec![
        issue("a.py", "m", 1),
        issue("b.py", "m", 1),
        issue("c.py", "m", 1),
    ];
    let mut run = parsing("[...]");
    run.step(RunEvent::IssuesParsed(issues)).expect("the findings are awaited");
    assert_eq!(run.pending(), 3);
    let wait = RunStep { reports: Vec::new(), action: RunAction::Wait };
    assert_eq!(run.step(RunEvent::FileFinished), Some(wait));
    assert_eq!(run.pending(), 2);
    assert_eq!(run.phase(), RunPhase::Remediating);
    let wait = RunStep { reports: Vec::new(), action: RunAction::Wait };
    assert_eq!(run.step(RunEvent::FileFinished), Some(wait));
    assert_eq!(run.pending(), 1);
    let end = RunStep { reports: Vec::new(), action: RunAction::Finish(Ok(())) };
    assert_eq!(run.step(RunEvent::FileFinished), Some(end));
    assert_eq!(run.pending(), 0);
    assert_eq!(run.dispatched(), 3);
    assert_eq!(run.phase(), RunPhase::Finished);
    assert_eq!(run.step(RunEvent::FileFinished), None);
}

#[test]
fn a_run_event_that_is_not_awaited_changes_nothing() {
    let mut run = orchestrator();
    let before = run.clone();
    assert_eq!(run.step(check_exit(Some(0), "", "")), None);
    assert_eq!(run.step(RunEvent::IssuesParsed(Vec::new())), None);
    assert_eq!(run.step(RunEvent::IssuesUnreadable("x".to_string())), None);
    assert_eq!(run.step(RunEvent::FileFinished), None);
    assert_eq!(run, before);

    run.step(format_ok()).expect("formatting is awaited");
    let before = run.clone();
    assert_eq!(run.step(format_ok()), None);
    assert_eq!(run.step(RunEvent::FormatNotStarted("x".to_string())), None);
    assert_eq!(run.step(RunEvent::FileFinished), None);
    assert_eq!(run, before);
}

fn run_file(
    remediator: &mut FileRemediator,
    original: &str,
    log: &mut Vec<(String, FileAction)>,
) -> String {
    let name = remediator.filename().clone();
    let mut step = remediator.begin();
    let mut content = original.to_string();
    let mut fixes = 0;
    loop {
        log.push((name.clone(), step.action.clone()));
        let event = match step.action {
            FileAction::Read { .. } => FileEvent::ReadDone(Ok(content.clone())),
            FileAction::RequestFix { request } => {
                let issue = &remediator.issues()[fixes];
                assert_eq!(request, fix_request(issue, &content));
                fixes += 1;
                FileEvent::FixDone(Ok(format!("{}# fix {}\n", content, fixes)))
            }
            FileAction::Write { content: written, .. } => {
                content = written;
                FileEvent::WriteDone(Ok(()))
            }
            FileAction::Finish => return content,
        };
        if let FileEvent::FixDone(Ok(next)) = &event {
            content = next.clone();
        }
        step = remediator.step(event).expect("the event answers the action");
    }
}

#[test]
fn two_files_are_fixed_in_issue_order_and_written_once_each() {
    let issues = vec![
        issue("foo.py", "foo row 2", 2),
        issue("foo.py", "foo row 5", 5),
        issue("bar.py", "bar row 1", 1),
    ];
    let mut run = parsing("[...]");
    let step = run.step(RunEvent::IssuesParsed(issues.clone())).expect("the findings are awaited");
    let mut files = match step.action {
        RunAction::Dispatch { files } => files,
        other => panic!("expected files, got {:?}", other),
    };
    assert_eq!(files.len(), 2);
    assert_eq!(run.dispatched(), 2);

    let mut log: Vec<(String, FileAction)> = Vec::new();
    let mut last = None;
    for remediator in files.iter_mut() {
        let original = format!("# {}\nline 2\nline 3\nline 4\nline 5\n", remediator.filename());
        let written = run_file(remediator, &original, &mut log);
        assert_eq!(remediator.phase(), Phase::Done);
        let fixes = remediator.issues().len();
        let mut expected = original.clone();
        for k in 1..=fixes {
            expected = format!("{}# fix {}\n", expected, k);
        }
        assert_eq!(written, expected);
        last = run.step(RunEvent::FileFinished);
    }
    assert_eq!(last, Some(RunStep { reports: Vec::new(), action: RunAction::Finish(Ok(())) }));
    assert_eq!(run.phase(), RunPhase::Finished);

    let kinds = |name: &str| -> Vec<&'static str> {
        log.iter()
            .filter(|(file, _)| file == name)
            .map(|(_, action)| match action {
                FileAction::Read { .. } => "read",
                FileAction::RequestFix { .. } => "fix",
                FileAction::Write { .. } => "write",
                FileAction::Finish => "finish",
            })
            .collect()
    };
    assert_eq!(kinds("foo.py"), vec!["read", "fix", "fix", "write", "finish"]);
    assert_eq!(kinds("bar.py"), vec!["read", "fix", "write", "finish"]);

    let foo_requests: Vec<&FileAction> = log
        .iter()
        .filter(|(file, action)| file == "foo.py" && matches!(action, FileAction::RequestFix { .. }))
        .map(|(_, action)| action)
        .collect();
    let original = "# foo.py\nline 2\nline 3\nline 4\nline 5\n";
    assert_eq!(
        foo_requests[0],
        &FileAction::RequestFix { request: fix_request(&issues[0], original) }
    );
    assert_eq!(
        foo_requests[1],
        &FileAction::RequestFix {
            request: fix_request(&issues[1], &format!("{}# fix 1\n", original))
        }
    );
}
