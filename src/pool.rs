use vstd::prelude::*;
use crate::error::PoolCreationError;

verus! {

/// Why a unit of work was not accepted.
#[derive(Debug, Clone, Copy, PartialEq, Eq, Structural)]
pub enum SubmitError {
    /// The pool is being or has been torn down.
    PoolClosed,
}

/// The lifecycle of a pool of worker threads: its size, whether its writer
/// handle to the job queue was released, and how many workers, taken in
/// ordinal order, have been joined since.
pub struct PoolLifecycle {
    size: usize,
    released: bool,
    joined: usize,
}

impl PoolLifecycle {
    /// The number of workers, with ordinals `0..size`.
    pub closed spec fn size(&self) -> nat {
        self.size as nat
    }

    /// Whether teardown has begun: the writer handle is gone.
    pub closed spec fn released(&self) -> bool {
        self.released
    }

    /// How many workers, counted from ordinal 0, have been joined.
    pub closed spec fn joined(&self) -> nat {
        self.joined as nat
    }

    /// Joining starts only after release and never passes the last worker.
    pub closed spec fn wf(&self) -> bool {
        &&& self.size >= 1
        &&& self.joined <= self.size
        &&& !self.released ==> self.joined == 0
    }

    /// Teardown is complete: every worker has been joined.
    pub open spec fn finished(&self) -> bool {
        self.released() && self.joined() == self.size()
    }

    /// Whether the worker with ordinal `id` is known to have exited.
    pub open spec fn has_joined(&self, id: nat) -> bool {
        id < self.joined()
    }

    /// Checks the requested size: a pool of `size` workers, none joined and
    /// the writer handle held, or `ZeroThreadsToCreate` when `size` is 0.
    pub fn build(size: usize) -> (r: Result<PoolLifecycle, PoolCreationError>)
        ensures
            size == 0 <==> r is Err,
            r is Err ==> r == Err::<PoolLifecycle, PoolCreationError>(
                PoolCreationError::ZeroThreadsToCreate,
            ),
            r matches Ok(p) ==> {
                &&& p.wf()
                &&& p.size() == size
                &&& !p.released()
                &&& p.joined() == 0
            },
    {
        if size == 0 {
            Err(PoolCreationError::ZeroThreadsToCreate)
        } else {
            Ok(PoolLifecycle { size, released: false, joined: 0 })
        }
    }

    /// The number of workers.
    pub fn worker_count(&self) -> (r: usize)
        ensures
            r == self.size(),
    {
        self.size
    }

    /// Whether a unit of work may be submitted now: only before teardown.
    pub fn check_submit(&self) -> (r: Result<(), SubmitError>)
        ensures
            r is Ok <==> !self.released(),
            r is Err ==> r == Err::<(), SubmitError>(SubmitError::PoolClosed),
    {
        if self.released {
            Err(SubmitError::PoolClosed)
        } else {
            Ok(())
        }
    }

    /// Begins teardown. Returns whether the writer handle was still held, so
    /// that it is dropped exactly once however often this is called.
    pub fn release(&mut self) -> (r: bool)
        requires
            old(self).wf(),
        ensures
            final(self).wf(),
            r == !old(self).released(),
            final(self).released(),
            final(self).size() == old(self).size(),
            final(self).joined() == old(self).joined(),
    {
        let first = !self.released;
        self.released = true;
        first
    }

    /// The ordinal of the next worker to join, in ordinal order, recorded as
    /// joined; `None` once all are.
    pub fn next_join(&mut self) -> (r: Option<usize>)
        requires
            old(self).wf(),
            old(self).released(),
        ensures
            final(self).wf(),
            final(self).released(),
            final(self).size() == old(self).size(),
            old(self).joined() < old(self).size() ==> {
                &&& r == Some(old(self).joined() as usize)
                &&& final(self).joined() == old(self).joined() + 1
            },
            old(self).joined() == old(self).size() ==> {
                &&& r is None
                &&& final(self).joined() == old(self).joined()
            },
    {
        if self.joined < self.size {
            let id = self.joined;
            self.joined = self.joined + 1;
            Some(id)
        } else {
            None
        }
    }

    /// Whether every worker has been joined.
    pub fn is_finished(&self) -> (r: bool)
        requires
            self.wf(),
        ensures
            r == self.finished(),
    {
        self.released && self.joined == self.size
    }
}

/// Teardown is over only when every worker has exited: once `next_join`
/// answers `None`, each ordinal of the pool has been joined, and none was
/// joined before the writer handle was released.
pub proof fn lemma_teardown_joins_every_worker(p: PoolLifecycle)
    requires
        p.wf(),
        p.released(),
        p.joined() == p.size(),
    ensures
        p.finished(),
        forall|id: nat| id < p.size() ==> #[trigger] p.has_joined(id),
{
}

/// A worker is joined only after teardown began, so work submitted before
/// teardown is never cut off by a join.
pub proof fn lemma_join_follows_release(p: PoolLifecycle)
    requires
        p.wf(),
        p.joined() > 0,
    ensures
        p.released(),
{
}

} // verus!
