use vstd::prelude::*;

use crate::text::same_text;

verus! {

/// One of the two setup phases that must both finish before the main
/// window is shown.
#[derive(Clone, Copy, Debug, PartialEq, Eq, Structural)]
pub enum Phase {
    Frontend,
    Backend,
}

/// The name under which the frontend reports its phase.
pub open spec fn frontend_name() -> Seq<char> {
    seq!['f', 'r', 'o', 'n', 't', 'e', 'n', 'd']
}

/// The name under which the backend reports its phase.
pub open spec fn backend_name() -> Seq<char> {
    seq!['b', 'a', 'c', 'k', 'e', 'n', 'd']
}

/// The phase that a name designates, if any: the set of phases is closed.
pub open spec fn phase_of(name: Seq<char>) -> Option<Phase> {
    if name == frontend_name() {
        Some(Phase::Frontend)
    } else if name == backend_name() {
        Some(Phase::Backend)
    } else {
        None
    }
}

/// What a completion report asks of the presentation layer.
#[derive(Clone, Copy, Debug, PartialEq, Eq, Structural)]
pub enum Outcome {
    /// The phase was recorded; nothing is to be shown yet.
    Recorded,
    /// This report completed the setup: close the splash window and reveal
    /// the main window. Handed out once per coordinator.
    Ready,
}

/// Why a completion report was refused.
#[derive(Clone, Copy, Debug, PartialEq, Eq, Structural)]
pub enum SetupError {
    /// The reported name is neither `frontend` nor `backend`.
    InvalidPhase,
}

/// The text by which an invalid phase is reported to the UI layer.
pub open spec fn invalid_task_message() -> Seq<char> {
    seq!['I', 'n', 'v', 'a', 'l', 'i', 'd', ' ', 't', 'a', 's', 'k']
}

impl SetupError {
    /// The message handed to the UI layer for this error.
    pub fn message(&self) -> (r: String)
        ensures
            r@ == invalid_task_message(),
    {
        let r = String::from_str("Invalid task");
        proof {
            reveal_strlit("Invalid task");
        }
        assert(r@ =~= invalid_task_message());
        r
    }
}

/// Which setup phases have reported completion.
///
/// A flag, once set, is never cleared again.
#[derive(Clone, Copy, Debug, PartialEq, Eq, Structural)]
pub struct SetupState {
    pub frontend_task: bool,
    pub backend_task: bool,
}

impl SetupState {
    /// The state at start-up: no phase has completed.
    pub open spec fn initial() -> SetupState {
        SetupState { frontend_task: false, backend_task: false }
    }

    /// Both phases have completed.
    pub open spec fn is_ready(self) -> bool {
        self.frontend_task && self.backend_task
    }

    /// The phase has reported completion.
    pub open spec fn completed(self, p: Phase) -> bool {
        match p {
            Phase::Frontend => self.frontend_task,
            Phase::Backend => self.backend_task,
        }
    }

    /// The state after phase `p` has reported completion.
    pub open spec fn with_phase(self, p: Phase) -> SetupState {
        match p {
            Phase::Frontend => SetupState { frontend_task: true, ..self },
            Phase::Backend => SetupState { backend_task: true, ..self },
        }
    }

    /// Recording `p` in this state makes the setup complete for the first time.
    pub open spec fn fires(self, p: Phase) -> bool {
        !self.is_ready() && self.with_phase(p).is_ready()
    }

    /// The state at start-up: no phase has completed.
    pub fn new() -> (s: Self)
        ensures
            s == SetupState::initial(),
    {
        SetupState { frontend_task: false, backend_task: false }
    }

    /// Records that phase `p` has completed. The result is `Ready` exactly
    /// when this call is the one that completes the setup; a repeated report
    /// changes nothing and yields `Recorded`.
    pub fn record(&mut self, p: Phase) -> (o: Outcome)
        ensures
            *final(self) == old(self).with_phase(p),
            (o == Outcome::Ready) == old(self).fires(p),
    {
        let was_ready = self.frontend_task && self.backend_task;
        match p {
            Phase::Frontend => self.frontend_task = true,
            Phase::Backend => self.backend_task = true,
        }
        if !was_ready && self.frontend_task && self.backend_task {
            Outcome::Ready
        } else {
            Outcome::Recorded
        }
    }

    /// Records the completion of the phase named `task`. A name outside
    /// {`frontend`, `backend`} is refused with `InvalidPhase` and leaves the
    /// state as it was.
    pub fn report_phase_complete(&mut self, task: &str) -> (r: Result<Outcome, SetupError>)
        ensures
            match phase_of(task@) {
                Some(p) => {
                    &&& *final(self) == old(self).with_phase(p)
                    &&& r == Ok::<Outcome, SetupError>(
                        if old(self).fires(p) {
                            Outcome::Ready
                        } else {
                            Outcome::Recorded
                        },
                    )
                },
                None => {
                    &&& *final(self) == *old(self)
                    &&& r == Err::<Outcome, SetupError>(SetupError::InvalidPhase)
                },
            },
    {
        match parse_phase(task) {
            Some(p) => Ok(self.record(p)),
            None => Err(SetupError::InvalidPhase),
        }
    }
}

impl Default for SetupState {
    fn default() -> (s: Self)
        ensures
            s == SetupState::initial(),
    {
        Self::new()
    }
}

/// The phase named by `task`, if it names one.
pub fn parse_phase(task: &str) -> (r: Option<Phase>)
    ensures
        r == phase_of(task@),
{
    proof {
        reveal_strlit("frontend");
        reveal_strlit("backend");
    }
    assert("frontend"@ =~= frontend_name());
    assert("backend"@ =~= backend_name());
    if same_text(task, "frontend") {
        Some(Phase::Frontend)
    } else if same_text(task, "backend") {
        Some(Phase::Backend)
    } else {
        None
    }
}

} // verus!
