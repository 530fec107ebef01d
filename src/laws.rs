use vstd::prelude::*;

use crate::setup::{phase_of, Phase, SetupState};

verus! {

/// The state after one report of the name `task`: a name that designates
/// no phase changes nothing.
pub open spec fn step(s: SetupState, task: Seq<char>) -> SetupState {
    match phase_of(task) {
        Some(p) => s.with_phase(p),
        None => s,
    }
}

/// Whether one report of `task` in state `s` makes the setup ready.
pub open spec fn step_fires(s: SetupState, task: Seq<char>) -> bool {
    match phase_of(task) {
        Some(p) => s.fires(p),
        None => false,
    }
}

/// The state after the reports `tasks`, in order, starting from `s`.
pub open spec fn replay(s: SetupState, tasks: Seq<Seq<char>>) -> SetupState
    decreases tasks.len(),
{
    if tasks.len() == 0 {
        s
    } else {
        step(replay(s, tasks.drop_last()), tasks.last())
    }
}

/// How many of the reports `tasks`, in order from `s`, made the setup ready.
pub open spec fn transitions(s: SetupState, tasks: Seq<Seq<char>>) -> nat
    decreases tasks.len(),
{
    if tasks.len() == 0 {
        0
    } else {
        transitions(s, tasks.drop_last()) + if step_fires(
            replay(s, tasks.drop_last()),
            tasks.last(),
        ) {
            1nat
        } else {
            0nat
        }
    }
}

/// Some report in `tasks` names phase `p`.
pub open spec fn reports(tasks: Seq<Seq<char>>, p: Phase) -> bool {
    exists|i: int| 0 <= i < tasks.len() && #[trigger] phase_of(tasks[i]) == Some(p)
}

proof fn lemma_reports_drop_last(tasks: Seq<Seq<char>>, p: Phase)
    requires
        tasks.len() > 0,
    ensures
        reports(tasks, p) == (reports(tasks.drop_last(), p) || phase_of(tasks.last()) == Some(p)),
{
    let prefix = tasks.drop_last();
    if reports(tasks, p) {
        let i = choose|i: int| 0 <= i < tasks.len() && #[trigger] phase_of(tasks[i]) == Some(p);
        if i < tasks.len() - 1 {
            assert(prefix[i] == tasks[i]);
        }
    }
    if reports(prefix, p) {
        let i = choose|i: int| 0 <= i < prefix.len() && #[trigger] phase_of(prefix[i]) == Some(p);
        assert(tasks[i] == prefix[i]);
    }
    if phase_of(tasks.last()) == Some(p) {
        assert(phase_of(tasks[tasks.len() - 1]) == Some(p));
    }
}

/// Replaying reports from any state: a flag ends up set when it was set
/// before or its phase was reported, and the ready transition happened once
/// if the setup went from not ready to ready, and never otherwise.
pub proof fn lemma_replay(s: SetupState, tasks: Seq<Seq<char>>)
    ensures
        replay(s, tasks).frontend_task == (s.frontend_task || reports(tasks, Phase::Frontend)),
        replay(s, tasks).backend_task == (s.backend_task || reports(tasks, Phase::Backend)),
        transitions(s, tasks) == (if !s.is_ready() && replay(s, tasks).is_ready() {
            1nat
        } else {
            0nat
        }),
    decreases tasks.len(),
{
    if tasks.len() > 0 {
        lemma_replay(s, tasks.drop_last());
        lemma_reports_drop_last(tasks, Phase::Frontend);
        lemma_reports_drop_last(tasks, Phase::Backend);
    }
}

/// Whatever the order in which the reports arrive (concurrent reports are
/// serialised by the coordinator's lock into some order), starting from
/// start-up the ready transition fires exactly once when both phases have
/// reported, and never when one of them has not.
pub proof fn lemma_ready_fires_exactly_once(tasks: Seq<Seq<char>>)
    ensures
        transitions(SetupState::initial(), tasks) == (if reports(tasks, Phase::Frontend)
            && reports(tasks, Phase::Backend) {
            1nat
        } else {
            0nat
        }),
        replay(SetupState::initial(), tasks).is_ready() == (reports(tasks, Phase::Frontend)
            && reports(tasks, Phase::Backend)),
{
    lemma_replay(SetupState::initial(), tasks);
}

/// If only one phase ever reports, the setup is never ready and the ready
/// transition never fires, however many reports arrive.
pub proof fn lemma_single_phase_never_ready(tasks: Seq<Seq<char>>, p: Phase)
    requires
        forall|i: int| 0 <= i < tasks.len() ==> #[trigger] phase_of(tasks[i]) == Some(p),
    ensures
        transitions(SetupState::initial(), tasks) == 0,
        !replay(SetupState::initial(), tasks).is_ready(),
{
    let other = match p {
        Phase::Frontend => Phase::Backend,
        Phase::Backend => Phase::Frontend,
    };
    assert(!reports(tasks, other));
    lemma_ready_fires_exactly_once(tasks);
}

/// Reporting the same phase twice is idempotent: the second report leaves
/// the state as the first left it, and does not fire the transition again.
pub proof fn lemma_report_twice_idempotent(s: SetupState, p: Phase)
    ensures
        s.with_phase(p).with_phase(p) == s.with_phase(p),
        !s.with_phase(p).fires(p),
{
}

/// A report of a name that designates no phase leaves both flags as they
/// were and never fires the transition.
pub proof fn lemma_unknown_name_changes_nothing(s: SetupState, task: Seq<char>)
    requires
        phase_of(task) is None,
    ensures
        step(s, task) == s,
        !step_fires(s, task),
{
}

} // verus!
