//! Partition of a list of findings into one ordered group per file.

use crate::issue::{issue_views, Issue, IssueView};
use vstd::prelude::*;

verus! {

/// The test that a finding lies in `filename`.
pub open spec fn in_file(filename: Seq<char>) -> spec_fn(IssueView) -> bool {
    |i: IssueView| i.filename == filename
}

/// The findings of `issues` that lie in `filename`, in their order.
pub open spec fn issues_of_file(issues: Seq<IssueView>, filename: Seq<char>) -> Seq<IssueView> {
    issues.filter(in_file(filename))
}

/// Whether some finding of `issues` lies in `filename`.
pub open spec fn mentions_file(issues: Seq<IssueView>, filename: Seq<char>) -> bool {
    exists|k: int| 0 <= k < issues.len() && (#[trigger] issues[k]).filename == filename
}

/// The files that `issues` name, each once, in the order in which each is
/// named first.
pub open spec fn files_in_order(issues: Seq<IssueView>) -> Seq<Seq<char>>
    decreases issues.len(),
{
    if issues.len() == 0 {
        Seq::empty()
    } else {
        let before = files_in_order(issues.drop_last());
        if before.contains(issues.last().filename) {
            before
        } else {
            before.push(issues.last().filename)
        }
    }
}

/// The grouping of `issues`: each file that is named, with its findings.
pub open spec fn grouped(issues: Seq<IssueView>) -> Map<Seq<char>, Seq<IssueView>> {
    Map::new(
        |f: Seq<char>| mentions_file(issues, f),
        |f: Seq<char>| issues_of_file(issues, f),
    )
}

/// The findings of one file.
#[derive(Clone, Debug, PartialEq, Eq)]
pub struct FileIssues {
    pub filename: String,
    pub issues: Vec<Issue>,
}

/// The groups of one run, in the order in which their files were first named.
#[derive(Clone, Debug, PartialEq, Eq)]
pub struct IssueGroups {
    pub groups: Vec<FileIssues>,
}

impl IssueGroups {
    /// The file names of the groups, in order.
    pub open spec fn filenames(&self) -> Seq<Seq<char>> {
        self.groups@.map_values(|g: FileIssues| g.filename@)
    }

    /// The findings of the group at `index`.
    pub open spec fn issues_at(&self, index: int) -> Seq<IssueView> {
        issue_views(self.groups@[index].issues@)
    }

    /// No file has two groups, no group is empty, and each finding lies in
    /// the file of its group.
    pub open spec fn well_formed(&self) -> bool {
        &&& self.filenames().no_duplicates()
        &&& forall|g: int| 0 <= g < self.groups@.len() ==> (#[trigger] self.issues_at(g)).len() > 0
        &&& forall|g: int, k: int|
            0 <= g < self.groups@.len() && 0 <= k < self.issues_at(g).len() ==> (
            #[trigger] self.issues_at(g)[k]).filename == self.groups@[g].filename@
    }

    /// Whether the groups are the grouping of `issues`.
    pub open spec fn groups_of(&self, issues: Seq<IssueView>) -> bool {
        &&& self.filenames() == files_in_order(issues)
        &&& forall|g: int|
            0 <= g < self.groups@.len() ==> #[trigger] self.issues_at(g) == issues_of_file(
                issues,
                self.groups@[g].filename@,
            )
    }

    /// Number of groups.
    pub fn len(&self) -> (n: usize)
        ensures
            n == self.groups@.len(),
    {
        self.groups.len()
    }

    /// Position of the group of `filename`.
    pub fn position(&self, filename: &str) -> (found: Option<usize>)
        ensures
            match found {
                Some(g) => g < self.groups@.len() && self.filenames()[g as int] == filename@
                    && forall|h: int| 0 <= h < g ==> self.filenames()[h] != filename@,
                None => !self.filenames().contains(filename@),
            },
    {
        position_of(&self.groups, filename)
    }

    /// The findings of `filename`, where it has a group.
    pub fn get(&self, filename: &str) -> (found: Option<&Vec<Issue>>)
        ensures
            found is Some <==> self.filenames().contains(filename@),
            self.well_formed() && found is Some ==> self@.contains_key(filename@) && issue_views(
                found->0@,
            ) == self@[filename@],
    {
        match position_of(&self.groups, filename) {
            Some(g) => {
                proof {
                    self.lemma_view_at(g as int);
                }
                Some(&self.groups[g].issues)
            },
            None => None,
        }
    }

    /// In well-formed groups the mapping holds, for each group, its file
    /// with its findings.
    pub proof fn lemma_view_at(&self, g: int)
        requires
            0 <= g < self.groups@.len(),
        ensures
            self.filenames().contains(self.groups@[g].filename@),
            self@.contains_key(self.groups@[g].filename@),
            self.well_formed() ==> self@[self.groups@[g].filename@] == self.issues_at(g),
    {
        let names = self.filenames();
        let f = self.groups@[g].filename@;
        assert(names[g] == f);
    }
}

impl View for IssueGroups {
    type V = Map<Seq<char>, Seq<IssueView>>;

    /// The groups as a mapping from file name to findings.
    open spec fn view(&self) -> Map<Seq<char>, Seq<IssueView>> {
        Map::new(
            |f: Seq<char>| self.filenames().contains(f),
            |f: Seq<char>|
                self.issues_at(choose|g: int| 0 <= g < self.groups@.len() && self.filenames()[g] == f),
        )
    }
}

fn position_of(groups: &Vec<FileIssues>, filename: &str) -> (found: Option<usize>)
    ensures
        match found {
            Some(g) => g < groups@.len() && groups@[g as int].filename@ == filename@
                && forall|h: int| 0 <= h < g ==> groups@[h].filename@ != filename@,
            None => forall|h: int| 0 <= h < groups@.len() ==> groups@[h].filename@ != filename@,
        },
{
    let mut g: usize = 0;
    while g < groups.len()
        invariant
            g <= groups@.len(),
            forall|h: int| 0 <= h < g ==> groups@[h].filename@ != filename@,
        decreases groups@.len() - g,
    {
        if groups[g].filename.as_str().eq(filename) {
            return Some(g);
        }
        g += 1;
    }
    None
}

/// A position at which `issues` names `filename`.
pub proof fn lemma_mention_witness(issues: Seq<IssueView>, filename: Seq<char>) -> (k: int)
    requires
        mentions_file(issues, filename),
    ensures
        0 <= k < issues.len(),
        issues[k].filename == filename,
{
    choose|k: int| 0 <= k < issues.len() && (#[trigger] issues[k]).filename == filename
}

/// A position at which `names` holds `name`.
pub proof fn lemma_position_witness(names: Seq<Seq<char>>, name: Seq<char>) -> (h: int)
    requires
        names.contains(name),
    ensures
        0 <= h < names.len(),
        names[h] == name,
{
    choose|h: int| 0 <= h < names.len() && names[h] == name
}

/// The files in order are the files that are named, each once.
pub proof fn lemma_files_in_order(issues: Seq<IssueView>)
    ensures
        files_in_order(issues).no_duplicates(),
        forall|f: Seq<char>|
            #[trigger] files_in_order(issues).contains(f) <==> mentions_file(issues, f),
    decreases issues.len(),
{
    if issues.len() > 0 {
        let before = issues.drop_last();
        lemma_files_in_order(before);
        let names = files_in_order(issues);
        let earlier = files_in_order(before);
        assert forall|f: Seq<char>| #[trigger] names.contains(f) <==> mentions_file(issues, f) by {
            if names.contains(f) {
                if earlier.contains(f) {
                    let k = lemma_mention_witness(before, f);
                } else {
                    let h = lemma_position_witness(names, f);
                }
            }
            if mentions_file(issues, f) {
                let k = lemma_mention_witness(issues, f);
                if k < before.len() {
                    assert(before[k].filename == f);
                }
                if earlier.contains(f) {
                    let h = lemma_position_witness(earlier, f);
                    assert(names[h] == f);
                } else {
                    assert(names[names.len() - 1] == f);
                }
            }
        }
    }
}

/// What one more finding does to the files in order and to each file's
/// findings.
pub proof fn lemma_grouping_step(done: Seq<IssueView>, next: IssueView)
    ensures
        files_in_order(done.push(next)) == if files_in_order(done).contains(next.filename) {
            files_in_order(done)
        } else {
            files_in_order(done).push(next.filename)
        },
        forall|f: Seq<char>|
            #[trigger] issues_of_file(done.push(next), f) == if f == next.filename {
                issues_of_file(done, f).push(next)
            } else {
                issues_of_file(done, f)
            },
{
    assert(done.push(next).drop_last() == done);
    assert forall|f: Seq<char>|
        #[trigger] issues_of_file(done.push(next), f) == if f == next.filename {
            issues_of_file(done, f).push(next)
        } else {
            issues_of_file(done, f)
        } by {
        done.lemma_filter_push(next, in_file(f));
    }
}

/// Groups that are the grouping of a list are well formed, and as a
/// mapping they are the grouping of that list.
pub proof fn lemma_groups_of(groups: IssueGroups, issues: Seq<IssueView>)
    requires
        groups.groups_of(issues),
    ensures
        groups.well_formed(),
        groups@ == grouped(issues),
{
    lemma_files_in_order(issues);
    let names = groups.filenames();
    assert forall|g: int| 0 <= g < groups.groups@.len() implies (#[trigger] groups.issues_at(
        g,
    )).len() > 0 by {
        let f = groups.groups@[g].filename@;
        assert(names[g] == f);
        assert(names.contains(f));
        let k = lemma_mention_witness(issues, f);
        issues.lemma_filter_contains(in_file(f), k);
    }
    assert forall|g: int, k: int|
        0 <= g < groups.groups@.len() && 0 <= k < groups.issues_at(g).len() implies (
    #[trigger] groups.issues_at(g)[k]).filename == groups.groups@[g].filename@ by {
        issues.lemma_filter_pred(in_file(groups.groups@[g].filename@), k);
    }
    assert forall|f: Seq<char>| #[trigger] groups@.contains_key(f) implies groups@[f] == grouped(
        issues,
    )[f] by {
        lemma_position_witness(names, f);
    }
}

/// The positions of `issues` at which a finding of `filename` stands,
/// ascending.
pub open spec fn positions_of(issues: Seq<IssueView>, filename: Seq<char>) -> Seq<int>
    decreases issues.len(),
{
    if issues.len() == 0 {
        Seq::empty()
    } else {
        let before = positions_of(issues.drop_last(), filename);
        if issues.last().filename == filename {
            before.push(issues.len() - 1)
        } else {
            before
        }
    }
}

/// The findings of a file are the findings at the file's positions: as
/// many, the same, and in the same order.
pub proof fn lemma_group_positions(issues: Seq<IssueView>, filename: Seq<char>)
    ensures
        positions_of(issues, filename).len() == issues_of_file(issues, filename).len(),
        forall|j: int|
            0 <= j < positions_of(issues, filename).len() ==> {
                let at = #[trigger] positions_of(issues, filename)[j];
                &&& 0 <= at < issues.len()
                &&& issues[at].filename == filename
                &&& issues[at] == issues_of_file(issues, filename)[j]
            },
        forall|j: int, k: int|
            0 <= j < k < positions_of(issues, filename).len() ==> #[trigger] positions_of(
                issues,
                filename,
            )[j] < #[trigger] positions_of(issues, filename)[k],
        forall|at: int|
            0 <= at < issues.len() && (#[trigger] issues[at]).filename == filename
                ==> positions_of(issues, filename).contains(at),
    decreases issues.len(),
{
    reveal(Seq::filter);
    if issues.len() > 0 {
        let before = issues.drop_last();
        lemma_group_positions(before, filename);
        let earlier = positions_of(before, filename);
        let here = positions_of(issues, filename);
        assert forall|at: int|
            0 <= at < issues.len() && (#[trigger] issues[at]).filename == filename implies here.contains(
            at,
        ) by {
            if at < before.len() {
                assert(before[at].filename == filename);
                let j = choose|j: int| 0 <= j < earlier.len() && earlier[j] == at;
                assert(here[j] == at);
            } else {
                assert(here[here.len() - 1] == at);
            }
        }
        assert forall|j: int| 0 <= j < here.len() implies {
            let at = #[trigger] here[j];
            &&& 0 <= at < issues.len()
            &&& issues[at].filename == filename
            &&& issues[at] == issues_of_file(issues, filename)[j]
        } by {
            if j < earlier.len() {
                assert(issues[earlier[j]] == before[earlier[j]]);
            }
        }
    }
}

/// Grouping loses nothing, adds nothing and moves nothing: every finding
/// of the list stands in the group of its own file, at one position of
/// that group and in no other group, and the findings of a group stand in
/// the order in which the list has them.
pub proof fn lemma_grouping_is_a_partition(issues: Seq<IssueView>)
    ensures
        forall|at: int|
            0 <= at < issues.len() ==> grouped(issues).contains_key(
                (#[trigger] issues[at]).filename,
            ),
        forall|f: Seq<char>| #[trigger]
            grouped(issues).contains_key(f) ==> grouped(issues)[f].len() > 0 && grouped(
                issues,
            )[f].len() == positions_of(issues, f).len(),
        forall|f: Seq<char>, j: int|
            grouped(issues).contains_key(f) && 0 <= j < positions_of(issues, f).len() ==> {
                let at = #[trigger] positions_of(issues, f)[j];
                &&& 0 <= at < issues.len()
                &&& issues[at].filename == f
                &&& grouped(issues)[f][j] == issues[at]
            },
        forall|f: Seq<char>, j: int, k: int|
            0 <= j < k < positions_of(issues, f).len() ==> #[trigger] positions_of(issues, f)[j]
                < #[trigger] positions_of(issues, f)[k],
        forall|f: Seq<char>, at: int|
            0 <= at < issues.len() ==> (#[trigger] positions_of(issues, f).contains(at) <==> issues[at].filename
                == f),
{
    assert forall|f: Seq<char>| #[trigger] grouped(issues).contains_key(f) implies grouped(
        issues,
    )[f].len() > 0 && grouped(issues)[f].len() == positions_of(issues, f).len() by {
        lemma_group_positions(issues, f);
        let at = lemma_mention_witness(issues, f);
        assert(positions_of(issues, f).contains(at));
    }
    assert forall|f: Seq<char>, j: int|
        grouped(issues).contains_key(f) && 0 <= j < positions_of(issues, f).len() implies {
        let at = #[trigger] positions_of(issues, f)[j];
        &&& 0 <= at < issues.len()
        &&& issues[at].filename == f
        &&& grouped(issues)[f][j] == issues[at]
    } by {
        lemma_group_positions(issues, f);
    }
    assert forall|f: Seq<char>, j: int, k: int|
        0 <= j < k < positions_of(issues, f).len() implies #[trigger] positions_of(issues, f)[j]
        < #[trigger] positions_of(issues, f)[k] by {
        lemma_group_positions(issues, f);
    }
    assert forall|f: Seq<char>, at: int| 0 <= at < issues.len() implies (#[trigger] positions_of(
        issues,
        f,
    ).contains(at) <==> issues[at].filename == f) by {
        lemma_group_positions(issues, f);
    }
}

/// Groups the findings by file. Each file that is named gets one group,
/// which holds the file's findings in the order of the list; the groups
/// stand in the order in which their files are named first.
pub fn group_issues(issues: Vec<Issue>) -> (groups: IssueGroups)
    ensures
        groups.groups_of(issue_views(issues@)),
        groups.well_formed(),
        groups@ == grouped(issue_views(issues@)),
{
    let ghost all = issue_views(issues@);
    let mut groups = IssueGroups { groups: Vec::new() };
    proof {
        assert(groups.filenames() == files_in_order(all.take(0)));
    }
    for issue in it: issues
        invariant
            all == issue_views(it.seq()),
            groups.groups_of(all.take(it.index() as int)),
    {
        let ghost k = it.index() as int;
        let ghost done = all.take(k);
        let ghost before = groups;
        proof {
            assert(all.take(k + 1) == done.push(issue@));
            lemma_grouping_step(done, issue@);
        }
        match position_of(&groups.groups, issue.filename.as_str()) {
            Some(g) => {
                proof {
                    assert(before.filenames()[g as int] == issue.filename@);
                }
                groups.groups[g].issues.push(issue);
                proof {
                    assert(groups.filenames() == before.filenames());
                    assert forall|h: int| 0 <= h < groups.groups@.len() implies #[trigger] groups.issues_at(
                        h,
                    ) == issues_of_file(done.push(issue@), groups.groups@[h].filename@) by {
                        assert(before.issues_at(h) == issues_of_file(
                            done,
                            before.groups@[h].filename@,
                        ));
                        if h != g {
                            assert(before.filenames()[h] != before.filenames()[g as int]) by {
                                lemma_files_in_order(done);
                            }
                        }
                    }
                }
            },
            None => {
                let filename = issue.filename.clone();
                let mut list: Vec<Issue> = Vec::new();
                list.push(issue);
                groups.groups.push(FileIssues { filename, issues: list });
                proof {
                    assert(!before.filenames().contains(issue.filename@)) by {
                        assert forall|h: int| 0 <= h < before.filenames().len() implies before.filenames()[h]
                            != issue.filename@ by {}
                    }
                    assert(groups.filenames() == before.filenames().push(issue.filename@));
                    assert forall|h: int| 0 <= h < groups.groups@.len() implies #[trigger] groups.issues_at(
                        h,
                    ) == issues_of_file(done.push(issue@), groups.groups@[h].filename@) by {
                        if h < before.groups@.len() {
                            assert(before.issues_at(h) == issues_of_file(
                                done,
                                before.groups@[h].filename@,
                            ));
                        } else {
                            lemma_files_in_order(done);
                            done.lemma_all_neg_filter_empty(in_file(issue.filename@));
                        }
                    }
                }
            },
        }
    }
    proof {
        assert(all.take(all.len() as int) == all);
        lemma_groups_of(groups, all);
    }
    groups
}

} // verus!
