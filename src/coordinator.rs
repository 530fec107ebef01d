use vstd::prelude::*;
use vstd::rwlock::{RwLock, RwLockPredicate};

use crate::setup::{invalid_task_message, phase_of, Outcome, SetupError, SetupState};

verus! {

/// The lock admits every state: what matters is that the flag update and
/// the readiness check happen under one exclusive acquisition.
pub struct AnySetupState;

impl RwLockPredicate<SetupState> for AnySetupState {
    open spec fn inv(self, v: SetupState) -> bool {
        true
    }
}

/// The process-wide setup state behind an exclusive lock, shared by the
/// UI layer and the background setup task.
///
/// Every report is a single critical section that records the phase and
/// decides whether it completed the setup, so of any number of concurrent
/// reports exactly one is told `Ready` once both phases are in.
pub struct Coordinator {
    lock: RwLock<SetupState, AnySetupState>,
}

impl Coordinator {
    /// A coordinator in which no phase has completed.
    pub fn new() -> (c: Self) {
        Coordinator { lock: RwLock::new(SetupState::new(), Ghost(AnySetupState)) }
    }

    /// Records the completion of the phase named `task` under the lock.
    /// Fails with `InvalidPhase`, changing nothing, exactly when `task`
    /// names no phase.
    pub fn report_phase_complete(&self, task: &str) -> (r: Result<Outcome, SetupError>)
        ensures
            (r is Err) == (phase_of(task@) is None),
            r is Err ==> r == Err::<Outcome, SetupError>(SetupError::InvalidPhase),
    {
        let (mut state, handle) = self.lock.acquire_write();
        let r = state.report_phase_complete(task);
        handle.release_write(state);
        r
    }

    /// The command reachable from the UI layer: as `report_phase_complete`,
    /// with the error given as the text `Invalid task`.
    pub fn set_complete(&self, task: &str) -> (r: Result<Outcome, String>)
        ensures
            (r is Err) == (phase_of(task@) is None),
            r matches Err(e) ==> e@ == invalid_task_message(),
    {
        match self.report_phase_complete(task) {
            Ok(o) => Ok(o),
            Err(e) => Err(e.message()),
        }
    }

    /// A copy of the current state, read under the lock.
    pub fn snapshot(&self) -> (s: SetupState) {
        let handle = self.lock.acquire_read();
        let s = *handle.borrow();
        handle.release_read();
        s
    }
}

impl Default for Coordinator {
    fn default() -> (c: Self) {
        Self::new()
    }
}

} // verus!
