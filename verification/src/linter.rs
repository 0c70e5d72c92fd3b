//! What the two runs of the linter are called with, and what their exits
//! mean.

use crate::text::{decimal_of, push_signed_decimal, texts};
use vstd::prelude::*;
use vstd::string::*;

verus! {

/// A run of the linter that failed, with the diagnostic.
#[derive(Clone, Debug, PartialEq, Eq)]
pub struct ToolError {
    pub message: String,
}

/// What the exit of the checking run means. `Issues` holds the standard
/// output of that run, which lists the findings as a JSON array.
#[derive(Clone, Debug, PartialEq, Eq)]
pub enum CheckOutcome {
    Clean,
    Issues(String),
    ToolFailure { exit_code: i32, stderr: String, stdout: String },
}

/// The outcome of a check as plain values.
pub enum CheckOutcomeView {
    Clean,
    Issues(Seq<char>),
    ToolFailure { exit_code: int, stderr: Seq<char>, stdout: Seq<char> },
}

impl View for CheckOutcome {
    type V = CheckOutcomeView;

    open spec fn view(&self) -> CheckOutcomeView {
        match self {
            CheckOutcome::Clean => CheckOutcomeView::Clean,
            CheckOutcome::Issues(payload) => CheckOutcomeView::Issues(payload@),
            CheckOutcome::ToolFailure { exit_code, stderr, stdout } => CheckOutcomeView::ToolFailure {
                exit_code: *exit_code as int,
                stderr: stderr@,
                stdout: stdout@,
            },
        }
    }
}

/// The arguments of the formatting run on `folder`.
pub open spec fn format_argument_texts(folder: Seq<char>) -> Seq<Seq<char>> {
    seq!["format"@, folder]
}

/// The arguments of the checking run on `folder`.
pub open spec fn check_argument_texts(folder: Seq<char>) -> Seq<Seq<char>> {
    seq!["check"@, "--fix"@, folder, "--output-format"@, "json"@]
}

/// The exit code of a process; -1 for one that ended without a code.
pub open spec fn exit_code_value(code: Option<i32>) -> int {
    match code {
        Some(value) => value as int,
        None => -1,
    }
}

/// What a check that exited with `code` means: 0 is a clean tree, 1 is a
/// list of findings on standard output, every other exit is a failure.
pub open spec fn outcome_of_check(code: Option<i32>, stderr: Seq<char>, stdout: Seq<char>)
    -> CheckOutcomeView {
    let value = exit_code_value(code);
    if value == 0 {
        CheckOutcomeView::Clean
    } else if value == 1 {
        CheckOutcomeView::Issues(stdout)
    } else {
        CheckOutcomeView::ToolFailure { exit_code: value, stderr, stdout }
    }
}

/// The diagnostic of a formatting run that failed.
pub open spec fn format_failure_text(stderr: Seq<char>, stdout: Seq<char>) -> Seq<char> {
    "Ruff format failed: "@ + stderr + ", "@ + stdout
}

/// The diagnostic of a checking run that failed.
pub open spec fn check_failure_text(exit_code: int, stderr: Seq<char>, stdout: Seq<char>) -> Seq<
    char,
> {
    "Ruff check failed with exit code "@ + decimal_of(exit_code) + ": "@ + stderr + ", "@ + stdout
}

/// The arguments for the linter to format `folder`.
pub fn format_arguments(folder: &str) -> (arguments: Vec<String>)
    ensures
        texts(arguments@) == format_argument_texts(folder@),
{
    let mut arguments: Vec<String> = Vec::new();
    arguments.push(String::from_str("format"));
    arguments.push(String::from_str(folder));
    arguments
}

/// The arguments for the linter to check `folder`, apply what it can fix
/// itself, and list the rest as JSON.
pub fn check_arguments(folder: &str) -> (arguments: Vec<String>)
    ensures
        texts(arguments@) == check_argument_texts(folder@),
{
    let mut arguments: Vec<String> = Vec::new();
    arguments.push(String::from_str("check"));
    arguments.push(String::from_str("--fix"));
    arguments.push(String::from_str(folder));
    arguments.push(String::from_str("--output-format"));
    arguments.push(String::from_str("json"));
    arguments
}

/// The exit code of a process, -1 standing for none.
pub fn exit_code(code: Option<i32>) -> (value: i32)
    ensures
        value == exit_code_value(code),
{
    match code {
        Some(value) => value,
        None => -1,
    }
}

/// The result of the formatting run: a failure carries what the linter
/// wrote to both of its outputs.
pub fn format_result(success: bool, stderr: &str, stdout: &str) -> (result: Result<(), ToolError>)
    ensures
        success <==> result is Ok,
        !success ==> result->Err_0.message@ == format_failure_text(stderr@, stdout@),
{
    if success {
        Ok(())
    } else {
        let mut message = String::from_str("Ruff format failed: ");
        message.append(stderr);
        message.append(", ");
        message.append(stdout);
        Err(ToolError { message })
    }
}

/// What the exit of the checking run means.
pub fn check_outcome(code: Option<i32>, stderr: String, stdout: String) -> (outcome: CheckOutcome)
    ensures
        outcome@ == outcome_of_check(code, stderr@, stdout@),
{
    let value = exit_code(code);
    if value == 0 {
        CheckOutcome::Clean
    } else if value == 1 {
        CheckOutcome::Issues(stdout)
    } else {
        CheckOutcome::ToolFailure { exit_code: value, stderr, stdout }
    }
}

/// The diagnostic line for a checking run that failed.
pub fn check_failure_message(exit_code: i32, stderr: &str, stdout: &str) -> (message: String)
    ensures
        message@ == check_failure_text(exit_code as int, stderr@, stdout@),
{
    let mut message = String::from_str("Ruff check failed with exit code ");
    push_signed_decimal(&mut message, exit_code as i64);
    message.append(": ");
    message.append(stderr);
    message.append(", ");
    message.append(stdout);
    message
}

} // verus!
