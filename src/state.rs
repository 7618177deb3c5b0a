use vstd::prelude::*;

verus! {

/// Scheduler code of a task that holds the processor.
pub const STATE_RUNNING: u32 = 0;
/// Scheduler code of a task that is ready to run.
pub const STATE_READY: u32 = 1;
/// Scheduler code of a task that waits on a delay or a notification.
pub const STATE_BLOCKED: u32 = 2;
/// Scheduler code of a suspended task.
pub const STATE_SUSPENDED: u32 = 3;
/// Scheduler code of a deleted task.
pub const STATE_DELETED: u32 = 4;
/// Scheduler code of an invalid task reference.
pub const STATE_INVALID: u32 = 5;

/// The state of a task, as the scheduler reports it. Never cached locally.
#[derive(Clone, Copy, Debug, PartialEq, Eq, Structural)]
pub enum TaskState {
    /// The task is using the processor.
    Running,
    /// The task is not running but may run in the future.
    Ready,
    /// The task waits, for example on a delay or a notification.
    Blocked,
    /// The task is suspended until resumed.
    Suspended,
    /// The task has finished and was joined, or was aborted.
    Deleted,
    /// The state could not be classified.
    Invalid,
}

/// The state that a scheduler code stands for; unknown codes are `Invalid`.
pub open spec fn state_of_code(code: u32) -> TaskState {
    if code == STATE_RUNNING {
        TaskState::Running
    } else if code == STATE_READY {
        TaskState::Ready
    } else if code == STATE_BLOCKED {
        TaskState::Blocked
    } else if code == STATE_SUSPENDED {
        TaskState::Suspended
    } else if code == STATE_DELETED {
        TaskState::Deleted
    } else {
        TaskState::Invalid
    }
}

/// The scheduler code of a state.
pub open spec fn code_of_state(s: TaskState) -> u32 {
    match s {
        TaskState::Running => STATE_RUNNING,
        TaskState::Ready => STATE_READY,
        TaskState::Blocked => STATE_BLOCKED,
        TaskState::Suspended => STATE_SUSPENDED,
        TaskState::Deleted => STATE_DELETED,
        TaskState::Invalid => STATE_INVALID,
    }
}

impl TaskState {
    /// Classifies a scheduler state code.
    pub fn from_code(value: u32) -> (r: TaskState)
        ensures
            r == state_of_code(value),
    {
        match value {
            STATE_RUNNING => TaskState::Running,
            STATE_READY => TaskState::Ready,
            STATE_BLOCKED => TaskState::Blocked,
            STATE_SUSPENDED => TaskState::Suspended,
            STATE_DELETED => TaskState::Deleted,
            _ => TaskState::Invalid,
        }
    }

    /// The scheduler code of this state.
    pub fn code(self) -> (r: u32)
        ensures
            r == code_of_state(self),
    {
        match self {
            TaskState::Running => STATE_RUNNING,
            TaskState::Ready => STATE_READY,
            TaskState::Blocked => STATE_BLOCKED,
            TaskState::Suspended => STATE_SUSPENDED,
            TaskState::Deleted => STATE_DELETED,
            TaskState::Invalid => STATE_INVALID,
        }
    }
}

impl From<u32> for TaskState {
    fn from(value: u32) -> (r: TaskState) {
        TaskState::from_code(value)
    }
}

impl vstd::std_specs::convert::FromSpecImpl<u32> for TaskState {
    open spec fn obeys_from_spec() -> bool {
        true
    }

    open spec fn from_spec(v: u32) -> TaskState {
        state_of_code(v)
    }
}

/// Classifying the code of a state gives that state back.
pub proof fn lemma_state_code_round_trip(s: TaskState)
    ensures
        state_of_code(code_of_state(s)) == s,
{
}

} // verus!
