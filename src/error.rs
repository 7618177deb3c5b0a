use vstd::prelude::*;

verus! {

/// Why a task could not be spawned.
#[derive(Clone, Copy, Debug, PartialEq, Eq, Structural)]
pub enum SpawnError {
    /// The scheduler could not allocate the task control block.
    TCBNotCreated,
}

impl SpawnError {
    /// A human-readable description of the error.
    pub fn message(&self) -> (r: String)
        ensures
            r@ == "The stack cannot be used as the TCB was not created."@,
    {
        match self {
            SpawnError::TCBNotCreated => String::from_str(
                "The stack cannot be used as the TCB was not created.",
            ),
        }
    }
}

} // verus!
