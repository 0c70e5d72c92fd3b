//! What holds of every run of the orchestrator: when files are handed out,
//! and that the run ends with the last of them.

use crate::fixer::RuffFixerView;
use crate::grouping::{
    files_in_order, grouped, lemma_files_in_order, lemma_position_witness, mentions_file,
};
use crate::issue::IssueView;
use crate::orchestrator::{
    fresh, run_transition, units_of, OrchestratorView, RunActionView, RunEventView, RunPhase,
};
use crate::remediator::Phase;
use vstd::prelude::*;

verus! {

/// The state that a sequence of events leads to, and the actions taken on
/// the way. An event that is refused changes nothing.
pub open spec fn orchestrate(s: OrchestratorView, events: Seq<RunEventView>) -> (
    OrchestratorView,
    Seq<RunActionView>,
)
    decreases events.len(),
{
    if events.len() == 0 {
        (s, Seq::empty())
    } else {
        let (before, actions) = orchestrate(s, events.drop_last());
        match run_transition(before, events.last()) {
            Some((next, step)) => (next, actions.push(step.action)),
            None => (before, actions),
        }
    }
}

/// How many of the actions hand out files.
pub open spec fn dispatches_in(actions: Seq<RunActionView>) -> nat
    decreases actions.len(),
{
    if actions.len() == 0 {
        0
    } else {
        dispatches_in(actions.drop_last()) + if actions.last() is Dispatch {
            1nat
        } else {
            0nat
        }
    }
}

/// How many of the actions wait for another file.
pub open spec fn waits_in(actions: Seq<RunActionView>) -> nat
    decreases actions.len(),
{
    if actions.len() == 0 {
        0
    } else {
        waits_in(actions.drop_last()) + if actions.last() is Wait {
            1nat
        } else {
            0nat
        }
    }
}

/// How many of the actions end the run.
pub open spec fn ends_in(actions: Seq<RunActionView>) -> nat
    decreases actions.len(),
{
    if actions.len() == 0 {
        0
    } else {
        ends_in(actions.drop_last()) + if actions.last() is Finish {
            1nat
        } else {
            0nat
        }
    }
}

/// How many of the actions ask for findings to be decoded.
pub open spec fn parses_in(actions: Seq<RunActionView>) -> nat
    decreases actions.len(),
{
    if actions.len() == 0 {
        0
    } else {
        parses_in(actions.drop_last()) + if actions.last() is ParseIssues {
            1nat
        } else {
            0nat
        }
    }
}

/// What the state of a run says of the actions taken so far. Each file
/// that finishes is answered by a wait, but for the last, which is
/// answered by the end of the run.
pub open spec fn run_accounted(s: OrchestratorView, actions: Seq<RunActionView>) -> bool {
    match s.phase {
        RunPhase::Formatting => dispatches_in(actions) == 0 && waits_in(actions) == 0 && ends_in(
            actions,
        ) == 0 && s.dispatched == 0 && s.pending == 0,
        RunPhase::Checking => dispatches_in(actions) == 0 && waits_in(actions) == 0 && ends_in(
            actions,
        ) == 0 && s.dispatched == 0 && s.pending == 0,
        RunPhase::Parsing => dispatches_in(actions) == 0 && waits_in(actions) == 0 && ends_in(
            actions,
        ) == 0 && s.dispatched == 0 && s.pending == 0,
        RunPhase::Remediating => dispatches_in(actions) == 1 && ends_in(actions) == 0 && 0
            < s.pending <= s.dispatched && waits_in(actions) == s.dispatched - s.pending,
        RunPhase::Finished => ends_in(actions) == 1 && s.pending == 0 && if s.dispatched > 0 {
            dispatches_in(actions) == 1 && waits_in(actions) == s.dispatched - 1
        } else {
            dispatches_in(actions) == 0 && waits_in(actions) == 0
        },
    }
}

proof fn lemma_run_counts_push(actions: Seq<RunActionView>, action: RunActionView)
    ensures
        dispatches_in(actions.push(action)) == dispatches_in(actions) + if action is Dispatch {
            1nat
        } else {
            0nat
        },
        waits_in(actions.push(action)) == waits_in(actions) + if action is Wait {
            1nat
        } else {
            0nat
        },
        ends_in(actions.push(action)) == ends_in(actions) + if action is Finish {
            1nat
        } else {
            0nat
        },
        parses_in(actions.push(action)) == parses_in(actions) + if action is ParseIssues {
            1nat
        } else {
            0nat
        },
{
    assert(actions.push(action).drop_last() == actions);
}

/// Of every run, whatever the events: the settings stay the same, and the
/// state accounts for the actions so far.
pub proof fn lemma_run_accounted(
    fixer: RuffFixerView,
    events: Seq<RunEventView>,
)
    ensures
        ({
            let (s, actions) = orchestrate(fresh(fixer), events);
            &&& s.fixer == fixer
            &&& run_accounted(s, actions)
        }),
    decreases events.len(),
{
    if events.len() > 0 {
        lemma_run_accounted(fixer, events.drop_last());
        let (before, actions) = orchestrate(fresh(fixer), events.drop_last());
        match run_transition(before, events.last()) {
            Some((next, step)) => {
                lemma_run_counts_push(actions, step.action);
            },
            None => {},
        }
    }
}

/// Files are handed out at most once in a run, and the run ends at most
/// once. A run that handed out files and has ended has seen every one of
/// them finish: all but the last were answered by a wait, and none is
/// still at work.
pub proof fn lemma_ends_with_last_file(
    fixer: RuffFixerView,
    events: Seq<RunEventView>,
)
    ensures
        ({
            let (s, actions) = orchestrate(fresh(fixer), events);
            &&& dispatches_in(actions) <= 1
            &&& ends_in(actions) == if s.phase == RunPhase::Finished {
                1nat
            } else {
                0nat
            }
            &&& dispatches_in(actions) == 1 ==> s.dispatched > 0 && waits_in(actions) + s.pending
                + ends_in(actions) == s.dispatched
            &&& s.phase == RunPhase::Finished ==> s.pending == 0
        }),
{
    lemma_run_accounted(fixer, events);
}

/// One unit of work per file: the files that are handed out for a list
/// of findings are the files that the list names, each once; each unit
/// has not read its file yet and holds the findings of its file, in the
/// order of the list.
pub proof fn lemma_one_unit_per_file(issues: Seq<IssueView>)
    ensures
        forall|g: int|
            0 <= g < units_of(issues).len() ==> {
                let unit = #[trigger] units_of(issues)[g];
                &&& unit.phase == Phase::Reading
                &&& grouped(issues).contains_key(unit.filename)
                &&& unit.issues == grouped(issues)[unit.filename]
            },
        forall|g: int, h: int|
            0 <= g < h < units_of(issues).len() ==> (#[trigger] units_of(issues)[g]).filename != (
            #[trigger] units_of(issues)[h]).filename,
        forall|f: Seq<char>|
            mentions_file(issues, f) ==> exists|g: int|
                0 <= g < units_of(issues).len() && (#[trigger] units_of(issues)[g]).filename == f,
{
    lemma_files_in_order(issues);
    let names = files_in_order(issues);
    assert forall|g: int| 0 <= g < units_of(issues).len() implies {
        let unit = #[trigger] units_of(issues)[g];
        &&& unit.phase == Phase::Reading
        &&& grouped(issues).contains_key(unit.filename)
        &&& unit.issues == grouped(issues)[unit.filename]
    } by {
        assert(names.contains(names[g]));
    }
    assert forall|f: Seq<char>| mentions_file(issues, f) implies exists|g: int|
        0 <= g < units_of(issues).len() && (#[trigger] units_of(issues)[g]).filename == f by {
        assert(names.contains(f));
        let g = lemma_position_witness(names, f);
        assert(units_of(issues)[g].filename == f);
    }
}

/// Whether every check among the events exited with 0.
pub open spec fn every_check_is_clean(events: Seq<RunEventView>) -> bool {
    forall|k: int|
        0 <= k < events.len() ==> ((#[trigger] events[k]) matches RunEventView::CheckExited {
            code,
            ..
        } ==> code == Some(0i32))
}

/// A check that exits with 0 ends the run at once: where every check
/// exits with 0, no findings are decoded and no file is handed out,
/// whatever else happens. So no fix is asked for and no file is written.
pub proof fn lemma_clean_check_hands_out_nothing(
    fixer: RuffFixerView,
    events: Seq<RunEventView>,
)
    requires
        every_check_is_clean(events),
    ensures
        ({
            let (s, actions) = orchestrate(fresh(fixer), events);
            &&& dispatches_in(actions) == 0
            &&& parses_in(actions) == 0
            &&& s.dispatched == 0
            &&& s.phase == RunPhase::Formatting || s.phase == RunPhase::Checking || s.phase
                == RunPhase::Finished
        }),
    decreases events.len(),
{
    if events.len() > 0 {
        let earlier = events.drop_last();
        assert(every_check_is_clean(earlier));
        lemma_clean_check_hands_out_nothing(fixer, earlier);
        lemma_run_accounted(fixer, earlier);
        let (before, actions) = orchestrate(fresh(fixer), earlier);
        match run_transition(before, events.last()) {
            Some((next, step)) => {
                lemma_run_counts_push(actions, step.action);
            },
            None => {},
        }
    }
}

/// A check that exits with 0 right after the formatting ends the run in
/// success with the second action, and nothing that happens later is
/// answered.
pub proof fn lemma_clean_run(
    fixer: RuffFixerView,
    format_stderr: Seq<char>,
    format_stdout: Seq<char>,
    check_stderr: Seq<char>,
    check_stdout: Seq<char>,
    later: Seq<RunEventView>,
)
    ensures
        ({
            let events = seq![
                RunEventView::FormatExited {
                    success: true,
                    stderr: format_stderr,
                    stdout: format_stdout,
                },
                RunEventView::CheckExited {
                    code: Some(0i32),
                    stderr: check_stderr,
                    stdout: check_stdout,
                },
            ] + later;
            let (s, actions) = orchestrate(fresh(fixer), events);
            &&& s.phase == RunPhase::Finished
            &&& actions.len() == 2
            &&& actions[0] is RunCheck
            &&& actions[1] == RunActionView::Finish(Ok(()))
        }),
    decreases later.len(),
{
    let head = seq![
        RunEventView::FormatExited { success: true, stderr: format_stderr, stdout: format_stdout },
        RunEventView::CheckExited { code: Some(0i32), stderr: check_stderr, stdout: check_stdout },
    ];
    let events = head + later;
    let start = fresh(fixer);
    if later.len() == 0 {
        let first = seq![head[0]];
        assert(head.drop_last() == first);
        assert(orchestrate(start, first.drop_last()) == (start, Seq::<RunActionView>::empty()));
        assert(orchestrate(start, first).0.phase == RunPhase::Checking);
    } else {
        lemma_clean_run(
            fixer,
            format_stderr,
            format_stdout,
            check_stderr,
            check_stdout,
            later.drop_last(),
        );
        assert(events.drop_last() == head + later.drop_last());
    }
}

} // verus!
