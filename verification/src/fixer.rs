//! The settings of one run.

use crate::grouping::{group_issues, grouped, IssueGroups};
use crate::issue::{issue_views, Issue};
use crate::linter::{check_argument_texts, check_arguments, format_argument_texts, format_arguments};
use crate::text::texts;
use vstd::prelude::*;

verus! {

/// What a run is started with: the credential for the fix service, the
/// path of the linter, and the folder to work on.
#[derive(Clone, Debug, PartialEq, Eq)]
pub struct RuffFixer {
    pub api_key: String,
    pub ruff_path: String,
    pub root_folder: String,
}

/// The settings as plain values.
pub struct RuffFixerView {
    pub api_key: Seq<char>,
    pub ruff_path: Seq<char>,
    pub root_folder: Seq<char>,
}

impl View for RuffFixer {
    type V = RuffFixerView;

    open spec fn view(&self) -> RuffFixerView {
        RuffFixerView {
            api_key: self.api_key@,
            ruff_path: self.ruff_path@,
            root_folder: self.root_folder@,
        }
    }
}

impl RuffFixer {
    pub fn new(api_key: String, ruff_path: String, root_folder: String) -> (fixer: RuffFixer)
        ensures
            fixer@ == (RuffFixerView {
                api_key: api_key@,
                ruff_path: ruff_path@,
                root_folder: root_folder@,
            }),
    {
        RuffFixer { api_key, ruff_path, root_folder }
    }

    /// The arguments of the formatting run.
    pub fn format_arguments(&self) -> (arguments: Vec<String>)
        ensures
            texts(arguments@) == format_argument_texts(self.root_folder@),
    {
        format_arguments(self.root_folder.as_str())
    }

    /// The arguments of the checking run.
    pub fn check_arguments(&self) -> (arguments: Vec<String>)
        ensures
            texts(arguments@) == check_argument_texts(self.root_folder@),
    {
        check_arguments(self.root_folder.as_str())
    }

    /// Groups the findings by file: one group for each file that is named,
    /// with that file's findings in the order of the list.
    pub fn group_issues_by_file(&self, issues: Vec<Issue>) -> (groups: IssueGroups)
        ensures
            groups.groups_of(issue_views(issues@)),
            groups.well_formed(),
            groups@ == grouped(issue_views(issues@)),
    {
        group_issues(issues)
    }
}

} // verus!
