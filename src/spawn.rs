use vstd::prelude::*;

verus! {

/// How many times a failed attempt to start a worker's thread is repeated
/// before the pool gives up.
pub const MAX_SPAWN_RETRIES: u8 = 5;

/// What to do after an attempt to start a worker's thread has failed.
#[derive(Debug, Clone, Copy, PartialEq, Eq, Structural)]
pub enum SpawnDecision {
    /// Try again; `retries` counts the retries made, this one included.
    Retry { retries: u8 },
    /// Every attempt failed: the pool cannot reach its size, which is fatal.
    GiveUp,
}

/// Decides the next step after a failed attempt, given how many retries
/// were already made before it.
pub fn after_spawn_failure(retries: u8) -> (r: SpawnDecision)
    requires
        retries <= MAX_SPAWN_RETRIES,
    ensures
        retries < MAX_SPAWN_RETRIES ==> r == (SpawnDecision::Retry { retries: (retries + 1) as u8 }),
        retries == MAX_SPAWN_RETRIES ==> r == SpawnDecision::GiveUp,
{
    if retries < MAX_SPAWN_RETRIES {
        SpawnDecision::Retry { retries: retries + 1 }
    } else {
        SpawnDecision::GiveUp
    }
}

} // verus!
