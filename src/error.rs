use vstd::prelude::*;

verus! {

/// Why a pool could not be built.
#[derive(Debug, Clone, Copy, PartialEq, Eq, Structural)]
pub enum PoolCreationError {
    /// A pool needs at least one worker.
    ZeroThreadsToCreate,
}

impl PoolCreationError {
    /// The human-readable explanation of this error.
    pub fn message(&self) -> (r: String)
        ensures
            r@ == self.message_spec(),
    {
        match self {
            PoolCreationError::ZeroThreadsToCreate => String::from_str(
                "The size should be grater than ZERO, at least ONE thread is required.",
            ),
        }
    }

    pub open spec fn message_spec(&self) -> Seq<char> {
        match self {
            PoolCreationError::ZeroThreadsToCreate =>
                "The size should be grater than ZERO, at least ONE thread is required."@,
        }
    }
}

} // verus!
