use ruff_fixer::fixer::RuffFixer;
use ruff_fixer::grouping::{group_issues, IssueGroups};
use ruff_fixer::issue::{Issue, Location};

fn issue(filename: &str, code: &str, message: &str, row: u32, column: u32) -> Issue {
    Issue::new(filename.to_string(), code.to_string(), message.to_string(), row, column)
}

fn fixer() -> RuffFixer {
    RuffFixer::new("key".to_string(), "ruff".to_string(), "src".to_string())
}

fn names(groups: &IssueGroups) -> Vec<String> {
    groups.groups.iter().map(|g| g.filename.clone()).collect()
}

#[test]
fn issue_new_fills_every_field() {
    let made = issue("a.py", "F401", "unused import", 3, 8);
    assert_eq!(made.filename, "a.py");
    assert_eq!(made.code, "F401");
    assert_eq!(made.message, "unused import");
    assert_eq!(made.location, Location { row: 3, column: 8 });
}

#[test]
fn issue_duplicate_says_the_same() {
    let made = issue("a.py", "F401", "unused import", 3, 8);
    assert_eq!(made.duplicate(), made);
}

#[test]
fn grouping_of_nothing_is_empty() {
    let groups = fixer().group_issues_by_file(Vec::new());
    assert_eq!(groups.len(), 0);
    assert!(groups.groups.is_empty());
    assert!(groups.get("a.py").is_none());
}

#[test]
fn grouping_keeps_each_issue_in_the_group_of_its_file() {
    let issues = vec![
        issue("foo.py", "E1", "first", 2, 1),
        issue("bar.py", "E2", "second", 1, 1),
        issue("foo.py", "E3", "third", 5, 1),
        issue("baz.py", "E4", "fourth", 9, 4),
        issue("bar.py", "E5", "fifth", 7, 2),
    ];
    let groups = fixer().group_issues_by_file(issues.clone());
    assert_eq!(names(&groups), vec!["foo.py", "bar.py", "baz.py"]);
    assert_eq!(groups.groups[0].issues, vec![issues[0].clone(), issues[2].clone()]);
    assert_eq!(groups.groups[1].issues, vec![issues[1].clone(), issues[4].clone()]);
    assert_eq!(groups.groups[2].issues, vec![issues[3].clone()]);
    let total: usize = groups.groups.iter().map(|g| g.issues.len()).sum();
    assert_eq!(total, issues.len());
    for group in &groups.groups {
        assert!(!group.issues.is_empty());
        for member in &group.issues {
            assert_eq!(member.filename, group.filename);
        }
    }
}

#[test]
fn grouping_keeps_the_order_within_a_file() {
    let issues: Vec<Issue> = (1..=6)
        .map(|row| issue(if row % 2 == 0 { "even.py" } else { "odd.py" }, "C", "m", row, 0))
        .collect();
    let groups = group_issues(issues);
    assert_eq!(names(&groups), vec!["odd.py", "even.py"]);
    let odd: Vec<u32> = groups.groups[0].issues.iter().map(|i| i.location.row).collect();
    let even: Vec<u32> = groups.groups[1].issues.iter().map(|i| i.location.row).collect();
    assert_eq!(odd, vec![1, 3, 5]);
    assert_eq!(even, vec![2, 4, 6]);
}

#[test]
fn grouping_keeps_an_issue_that_is_reported_twice() {
    let twice = issue("a.py", "E501", "line too long", 4, 80);
    let groups = group_issues(vec![twice.clone(), twice.clone()]);
    assert_eq!(groups.len(), 1);
    assert_eq!(groups.groups[0].issues, vec![twice.clone(), twice]);
}

#[test]
fn grouping_tells_file_names_apart_exactly() {
    let groups = group_issues(vec![
        issue("a.py", "E", "m", 1, 1),
        issue("A.py", "E", "m", 1, 1),
        issue("a.py ", "E", "m", 1, 1),
        issue("", "E", "m", 1, 1),
    ]);
    assert_eq!(names(&groups), vec!["a.py", "A.py", "a.py ", ""]);
}

#[test]
fn groups_are_found_by_file_name() {
    let groups = group_issues(vec![
        issue("foo.py", "E1", "first", 2, 1),
        issue("bar.py", "E2", "second", 1, 1),
        issue("foo.py", "E3", "third", 5, 1),
    ]);
    assert_eq!(groups.position("foo.py"), Some(0));
    assert_eq!(groups.position("bar.py"), Some(1));
    assert_eq!(groups.position("nope.py"), None);
    let foo = groups.get("foo.py").expect("foo.py has a group");
    assert_eq!(foo.len(), 2);
    assert_eq!(foo[0].code, "E1");
    assert_eq!(foo[1].code, "E3");
    assert!(groups.get("nope.py").is_none());
}

#[test]
fn fixer_passes_its_folder_to_the_linter() {
    let fixer = RuffFixer::new("k".to_string(), "/usr/bin/ruff".to_string(), "proj".to_string());
    assert_eq!(fixer.api_key, "k");
    assert_eq!(fixer.ruff_path, "/usr/bin/ruff");
    assert_eq!(fixer.root_folder, "proj");
    assert_eq!(fixer.format_arguments(), vec!["format", "proj"]);
    assert_eq!(
        fixer.check_arguments(),
        vec!["check", "--fix", "proj", "--output-format", "json"]
    );
}
