use vstd::prelude::*;

verus! {

/// How much processor time the scheduler should give a task (its priority weight).
#[derive(Clone, Copy, Debug, PartialEq, Eq, Structural)]
pub enum TaskPriority {
    High,
    Default,
    Low,
}

/// The scheduler weight that a priority stands for.
pub open spec fn priority_weight(p: TaskPriority) -> u32 {
    match p {
        TaskPriority::High => 16,
        TaskPriority::Default => 8,
        TaskPriority::Low => 1,
    }
}

impl TaskPriority {
    /// The numeric weight handed to the scheduler.
    pub fn weight(self) -> (r: u32)
        ensures
            r == priority_weight(self),
    {
        match self {
            TaskPriority::High => 16,
            TaskPriority::Default => 8,
            TaskPriority::Low => 1,
        }
    }
}

impl Default for TaskPriority {
    fn default() -> (r: Self)
        ensures
            r == TaskPriority::Default,
    {
        TaskPriority::Default
    }
}

impl From<TaskPriority> for u32 {
    fn from(val: TaskPriority) -> (r: u32) {
        val.weight()
    }
}

impl vstd::std_specs::convert::FromSpecImpl<TaskPriority> for u32 {
    open spec fn obeys_from_spec() -> bool {
        true
    }

    open spec fn from_spec(v: TaskPriority) -> u32 {
        priority_weight(v)
    }
}

/// How large a stack the task gets. Tasks with few locals can use `Low`.
#[derive(Clone, Copy, Debug, PartialEq, Eq, Structural)]
pub enum TaskStackDepth {
    Default,
    Low,
}

/// The stack size in bytes that a depth stands for.
pub open spec fn stack_bytes(d: TaskStackDepth) -> u32 {
    match d {
        TaskStackDepth::Default => 8192,
        TaskStackDepth::Low => 512,
    }
}

impl TaskStackDepth {
    /// The stack size in bytes handed to the scheduler.
    pub fn bytes(self) -> (r: u32)
        ensures
            r == stack_bytes(self),
    {
        match self {
            TaskStackDepth::Default => 8192,
            TaskStackDepth::Low => 512,
        }
    }
}

impl Default for TaskStackDepth {
    fn default() -> (r: Self)
        ensures
            r == TaskStackDepth::Default,
    {
        TaskStackDepth::Default
    }
}

} // verus!
