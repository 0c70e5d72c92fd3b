//! What holds of every run of a file remediator: which requests are made
//! on which text, and that the file is written once, behind all of them.

use crate::fix_client::request_for;
use crate::issue::IssueView;
use crate::remediator::{
    initial, transition, FileActionView, FileEventView, Phase, RemediatorView,
};
use vstd::prelude::*;

verus! {

/// The state that a sequence of events leads to, and the actions taken on
/// the way. An event that is refused changes nothing.
pub open spec fn run(s: RemediatorView, events: Seq<FileEventView>) -> (
    RemediatorView,
    Seq<FileActionView>,
)
    decreases events.len(),
{
    if events.len() == 0 {
        (s, Seq::empty())
    } else {
        let (before, actions) = run(s, events.drop_last());
        match transition(before, events.last()) {
            Some((next, step)) => (next, actions.push(step.action)),
            None => (before, actions),
        }
    }
}

/// How many of the actions ask the fix service for a fix.
pub open spec fn requests_in(actions: Seq<FileActionView>) -> nat
    decreases actions.len(),
{
    if actions.len() == 0 {
        0
    } else {
        requests_in(actions.drop_last()) + if actions.last() is RequestFix {
            1nat
        } else {
            0nat
        }
    }
}

/// How many of the actions write the file.
pub open spec fn writes_in(actions: Seq<FileActionView>) -> nat
    decreases actions.len(),
{
    if actions.len() == 0 {
        0
    } else {
        writes_in(actions.drop_last()) + if actions.last() is Write {
            1nat
        } else {
            0nat
        }
    }
}

/// How many of the actions announce that the file is finished.
pub open spec fn finishes_in(actions: Seq<FileActionView>) -> nat
    decreases actions.len(),
{
    if actions.len() == 0 {
        0
    } else {
        finishes_in(actions.drop_last()) + if actions.last() is Finish {
            1nat
        } else {
            0nat
        }
    }
}

/// What the phase of a file with `n` findings says of the actions taken
/// so far.
pub open spec fn accounted(n: nat, phase: Phase, actions: Seq<FileActionView>) -> bool {
    match phase {
        Phase::Reading => requests_in(actions) == 0 && writes_in(actions) == 0 && finishes_in(
            actions,
        ) == 0,
        Phase::Fixing(i) => i < n && requests_in(actions) == i + 1 && writes_in(actions) == 0
            && finishes_in(actions) == 0,
        Phase::Writing => requests_in(actions) == n && writes_in(actions) == 1 && finishes_in(
            actions,
        ) == 0,
        Phase::Done => requests_in(actions) == n && writes_in(actions) == 1 && finishes_in(actions)
            == 1,
        Phase::WriteFailed => requests_in(actions) == n && writes_in(actions) == 1 && finishes_in(
            actions,
        ) == 1,
        Phase::ReadFailed => requests_in(actions) == 0 && writes_in(actions) == 0 && finishes_in(
            actions,
        ) == 1,
    }
}

/// Behind a write nothing is asked of the fix service and nothing is
/// written: what follows only announces the end.
pub open spec fn write_comes_last(actions: Seq<FileActionView>) -> bool {
    forall|a: int, b: int|
        0 <= a < b < actions.len() && (#[trigger] actions[a]) is Write ==> (
        #[trigger] actions[b]) is Finish
}

/// Whether a phase is one of the three in which a file is finished.
pub open spec fn finished(phase: Phase) -> bool {
    phase == Phase::Done || phase == Phase::ReadFailed || phase == Phase::WriteFailed
}

proof fn lemma_counts_push(actions: Seq<FileActionView>, action: FileActionView)
    ensures
        requests_in(actions.push(action)) == requests_in(actions) + if action is RequestFix {
            1nat
        } else {
            0nat
        },
        writes_in(actions.push(action)) == writes_in(actions) + if action is Write {
            1nat
        } else {
            0nat
        },
        finishes_in(actions.push(action)) == finishes_in(actions) + if action is Finish {
            1nat
        } else {
            0nat
        },
{
    assert(actions.push(action).drop_last() == actions);
}

/// Of every run of a file, whatever the events: the file and its findings
/// stay the same; the phase accounts for the requests, writes and
/// announcements so far; and a write is followed by the announcement only.
pub proof fn lemma_run_accounted(
    filename: Seq<char>,
    issues: Seq<IssueView>,
    events: Seq<FileEventView>,
)
    requires
        issues.len() <= usize::MAX,
    ensures
        ({
            let (s, actions) = run(initial(filename, issues), events);
            &&& s.filename == filename
            &&& s.issues == issues
            &&& accounted(issues.len(), s.phase, actions)
            &&& write_comes_last(actions)
            &&& writes_in(actions) == 0 ==> forall|a: int|
                0 <= a < actions.len() ==> !((#[trigger] actions[a]) is Write)
        }),
    decreases events.len(),
{
    if events.len() > 0 {
        lemma_run_accounted(filename, issues, events.drop_last());
        let (before, actions) = run(initial(filename, issues), events.drop_last());
        match transition(before, events.last()) {
            Some((next, step)) => {
                lemma_counts_push(actions, step.action);
                let longer = actions.push(step.action);
                assert forall|a: int, b: int|
                    0 <= a < b < longer.len() && (#[trigger] longer[a]) is Write implies (
                #[trigger] longer[b]) is Finish by {
                    if b == actions.len() {
                        assert(actions[a] is Write);
                    }
                }
                assert(writes_in(longer) == 0 ==> forall|a: int|
                    0 <= a < longer.len() ==> !((#[trigger] longer[a]) is Write)) by {
                    if writes_in(longer) == 0 {
                        assert forall|a: int| 0 <= a < longer.len() implies !((
                        #[trigger] longer[a]) is Write) by {
                            if a < actions.len() {
                                assert(!(actions[a] is Write));
                            }
                        }
                    }
                }
            },
            None => {},
        }
    }
}

/// The file is written at most once, whatever happens: no run writes it
/// twice. A run that ends with the file finished has written it exactly
/// once, unless the file could not be read, and then it has not written it
/// at all. When it is written, a fix has been asked for every one of its
/// findings, however many of them came back, and none is asked for after.
pub proof fn lemma_single_write(
    filename: Seq<char>,
    issues: Seq<IssueView>,
    events: Seq<FileEventView>,
)
    requires
        issues.len() <= usize::MAX,
    ensures
        ({
            let (s, actions) = run(initial(filename, issues), events);
            &&& writes_in(actions) <= 1
            &&& finished(s.phase) && s.phase != Phase::ReadFailed ==> writes_in(actions) == 1
            &&& s.phase == Phase::ReadFailed ==> writes_in(actions) == 0 && requests_in(actions)
                == 0
            &&& writes_in(actions) == 1 ==> requests_in(actions) == issues.len()
            &&& write_comes_last(actions)
        }),
{
    lemma_run_accounted(filename, issues, events);
}

/// A file announces that it is finished once, when it is, and not before.
pub proof fn lemma_finish_announced_once(
    filename: Seq<char>,
    issues: Seq<IssueView>,
    events: Seq<FileEventView>,
)
    requires
        issues.len() <= usize::MAX,
    ensures
        ({
            let (s, actions) = run(initial(filename, issues), events);
            finishes_in(actions) == if finished(s.phase) {
                1nat
            } else {
                0nat
            }
        }),
{
    lemma_run_accounted(filename, issues, events);
}

/// The text of a file after the first `k` answers of the fix service: an
/// answer that came back is the text from then on, a failure leaves the
/// text that was there.
pub open spec fn content_after(
    start: Seq<char>,
    outcomes: Seq<Result<Seq<char>, Seq<char>>>,
    k: int,
) -> Seq<char>
    decreases k,
{
    if k <= 0 || k > outcomes.len() {
        start
    } else {
        match outcomes[k - 1] {
            Ok(fixed) => fixed,
            Err(_) => content_after(start, outcomes, k - 1),
        }
    }
}

/// The events of a file that was read as `start` and then got `outcomes`
/// from the fix service, in order.
pub open spec fn read_then_fixes(start: Seq<char>, outcomes: Seq<Result<Seq<char>, Seq<char>>>)
    -> Seq<FileEventView> {
    seq![FileEventView::ReadDone(Ok(start))] + outcomes.map_values(
        |o: Result<Seq<char>, Seq<char>>| FileEventView::FixDone(o),
    )
}

/// The request for finding `k` on the text after the first `k` answers.
pub open spec fn request_at(
    issues: Seq<IssueView>,
    start: Seq<char>,
    outcomes: Seq<Result<Seq<char>, Seq<char>>>,
    k: int,
) -> FileActionView {
    FileActionView::RequestFix { request: request_for(issues[k], content_after(start, outcomes, k)) }
}

proof fn lemma_content_after_prefix(
    start: Seq<char>,
    outcomes: Seq<Result<Seq<char>, Seq<char>>>,
    shorter: int,
    k: int,
)
    requires
        0 <= k <= shorter <= outcomes.len(),
    ensures
        content_after(start, outcomes.take(shorter), k) == content_after(start, outcomes, k),
    decreases k,
{
    if k > 0 {
        lemma_content_after_prefix(start, outcomes, shorter, k - 1);
    }
}

/// The run of a file that was read and has had its first answers: action
/// `k` is the request for finding `k`, made on the text after the first
/// `k` answers; behind the answer to the last finding stands the write of
/// the text after all of them.
pub proof fn lemma_fixes_in_turn(
    filename: Seq<char>,
    issues: Seq<IssueView>,
    start: Seq<char>,
    outcomes: Seq<Result<Seq<char>, Seq<char>>>,
)
    requires
        outcomes.len() <= issues.len() <= usize::MAX,
    ensures
        ({
            let (s, actions) = run(initial(filename, issues), read_then_fixes(start, outcomes));
            let answered = outcomes.len() as int;
            &&& s.filename == filename
            &&& s.issues == issues
            &&& s.content == content_after(start, outcomes, answered)
            &&& s.phase == if answered < issues.len() {
                Phase::Fixing(answered as usize)
            } else {
                Phase::Writing
            }
            &&& actions.len() == answered + 1
            &&& forall|k: int|
                0 <= k <= answered && k < issues.len() ==> #[trigger] actions[k] == request_at(
                    issues,
                    start,
                    outcomes,
                    k,
                )
            &&& answered == issues.len() ==> actions[answered] == (FileActionView::Write {
                filename,
                content: content_after(start, outcomes, answered),
            })
        }),
    decreases outcomes.len(),
{
    let events = read_then_fixes(start, outcomes);
    let answered = outcomes.len() as int;
    if answered == 0 {
        assert(events.drop_last() == Seq::<FileEventView>::empty());
    } else {
        let earlier = outcomes.drop_last();
        lemma_fixes_in_turn(filename, issues, start, earlier);
        assert(events.drop_last() == read_then_fixes(start, earlier));
        let before = run(initial(filename, issues), events.drop_last()).0;
        assert(before.phase == Phase::Fixing((answered - 1) as usize));
        lemma_content_after_prefix(start, outcomes, answered - 1, answered - 1);
        let longer = run(initial(filename, issues), events).1;
        assert forall|k: int| 0 <= k <= answered && k < issues.len() implies #[trigger] longer[k]
            == request_at(issues, start, outcomes, k) by {
            if k < answered {
                lemma_content_after_prefix(start, outcomes, answered - 1, k);
            }
        }
    }
}

/// Each request is made on what the step before it left: where the fix
/// of a finding came back, the request for the next finding holds that
/// very text, and no older one.
pub proof fn lemma_fix_sees_latest_content(
    filename: Seq<char>,
    issues: Seq<IssueView>,
    start: Seq<char>,
    outcomes: Seq<Result<Seq<char>, Seq<char>>>,
    k: int,
)
    requires
        outcomes.len() <= issues.len() <= usize::MAX,
        0 <= k < outcomes.len(),
        k + 1 < issues.len(),
        outcomes[k] is Ok,
    ensures
        run(initial(filename, issues), read_then_fixes(start, outcomes)).1[k + 1] == (
        FileActionView::RequestFix { request: request_for(issues[k + 1], outcomes[k]->Ok_0) }),
{
    lemma_fixes_in_turn(filename, issues, start, outcomes);
}

/// A fix that fails stops nothing: the next finding is still asked about,
/// on the text that the failed request was made on.
pub proof fn lemma_failed_fix_keeps_content(
    filename: Seq<char>,
    issues: Seq<IssueView>,
    start: Seq<char>,
    outcomes: Seq<Result<Seq<char>, Seq<char>>>,
    k: int,
)
    requires
        outcomes.len() <= issues.len() <= usize::MAX,
        0 <= k < outcomes.len(),
        k + 1 < issues.len(),
        outcomes[k] is Err,
    ensures
        ({
            let actions = run(initial(filename, issues), read_then_fixes(start, outcomes)).1;
            let content = content_after(start, outcomes, k);
            &&& actions[k] == (FileActionView::RequestFix {
                request: request_for(issues[k], content),
            })
            &&& actions[k + 1] == (FileActionView::RequestFix {
                request: request_for(issues[k + 1], content),
            })
        }),
{
    lemma_fixes_in_turn(filename, issues, start, outcomes);
}

} // verus!
