use ruff_fixer::linter::{
    check_arguments, check_failure_message, check_outcome, exit_code, format_arguments,
    format_result, CheckOutcome, ToolError,
};

#[test]
fn format_arguments_name_the_folder() {
    assert_eq!(format_arguments("src"), vec!["format", "src"]);
}

#[test]
fn check_arguments_ask_for_fixes_and_json() {
    assert_eq!(
        check_arguments("my project"),
        vec!["check", "--fix", "my project", "--output-format", "json"]
    );
}

#[test]
fn exit_code_of_a_killed_process_is_minus_one() {
    assert_eq!(exit_code(None), -1);
    assert_eq!(exit_code(Some(0)), 0);
    assert_eq!(exit_code(Some(1)), 1);
    assert_eq!(exit_code(Some(-7)), -7);
}

#[test]
fn format_result_is_ok_on_success() {
    assert_eq!(format_result(true, "warning", "1 file left unchanged"), Ok(()));
}

#[test]
fn format_result_carries_both_outputs_on_failure() {
    assert_eq!(
        format_result(false, "error: bad syntax", "0 files"),
        Err(ToolError { message: "Ruff format failed: error: bad syntax, 0 files".to_string() })
    );
    assert_eq!(
        format_result(false, "", ""),
        Err(ToolError { message: "Ruff format failed: , ".to_string() })
    );
}

#[test]
fn check_exit_zero_is_clean() {
    assert_eq!(
        check_outcome(Some(0), "noise".to_string(), "[]".to_string()),
        CheckOutcome::Clean
    );
}

#[test]
fn check_exit_one_hands_out_the_payload() {
    assert_eq!(
        check_outcome(Some(1), "noise".to_string(), "[{\"x\": 1}]".to_string()),
        CheckOutcome::Issues("[{\"x\": 1}]".to_string())
    );
}

#[test]
fn check_with_any_other_exit_has_failed() {
    assert_eq!(
        check_outcome(Some(2), "boom".to_string(), "out".to_string()),
        CheckOutcome::ToolFailure {
            exit_code: 2,
            stderr: "boom".to_string(),
            stdout: "out".to_string()
        }
    );
    assert_eq!(
        check_outcome(None, "killed".to_string(), String::new()),
        CheckOutcome::ToolFailure {
            exit_code: -1,
            stderr: "killed".to_string(),
            stdout: String::new()
        }
    );
    assert_eq!(
        check_outcome(Some(-1), String::new(), String::new()),
        CheckOutcome::ToolFailure { exit_code: -1, stderr: String::new(), stdout: String::new() }
    );
}

#[test]
fn check_failure_message_names_the_exit_code() {
    assert_eq!(
        check_failure_message(2, "boom", "out"),
        "Ruff check failed with exit code 2: boom, out"
    );
    assert_eq!(
        check_failure_message(-1, "", ""),
        "Ruff check failed with exit code -1: , "
    );
    assert_eq!(
        check_failure_message(i32::MIN, "e", "o"),
        "Ruff check failed with exit code -2147483648: e, o"
    );
}
