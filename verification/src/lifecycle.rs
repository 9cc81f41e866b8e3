//! The supervisor's lifecycle states and the status records reported to the
//! host service manager.

use vstd::prelude::*;

verus! {

/// The linear, one-directional lifecycle of the whole process, as reported
/// to the host. It is never entered out of order.
#[derive(Clone, Copy, PartialEq, Eq, Structural, Debug)]
pub enum LifecycleState {
    Starting,
    Running,
    StopPending,
    Stopped,
}

/// Position of a state on the linear lifecycle, for stating that transitions
/// only ever move forward.
pub open spec fn rank(state: LifecycleState) -> int {
    match state {
        LifecycleState::Starting => 0,
        LifecycleState::Running => 1,
        LifecycleState::StopPending => 2,
        LifecycleState::Stopped => 3,
    }
}

/// One status record handed to the host service manager.
#[derive(Clone, Copy, PartialEq, Eq, Structural, Debug)]
pub struct StatusReport {
    pub state: LifecycleState,
    /// Whether a stop request is accepted in this state.
    pub accepts_stop: bool,
    /// Exit code reported to the host; this manager always reports success.
    pub exit_code: u32,
    pub checkpoint: u32,
    pub wait_hint_secs: u64,
}

/// The status record owed to the host for a given state: only `Running`
/// accepts a stop request, and every report carries a success exit code,
/// checkpoint zero and no wait hint.
pub open spec fn status_of(state: LifecycleState) -> StatusReport {
    StatusReport {
        state,
        accepts_stop: state is Running,
        exit_code: 0u32,
        checkpoint: 0u32,
        wait_hint_secs: 0u64,
    }
}

/// Build the status record for one state.
pub fn status_for(state: LifecycleState) -> (r: StatusReport)
    ensures
        r == status_of(state),
{
    StatusReport {
        state,
        accepts_stop: matches!(state, LifecycleState::Running),
        exit_code: 0,
        checkpoint: 0,
        wait_hint_secs: 0,
    }
}

} // verus!
