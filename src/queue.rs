use std::collections::VecDeque;
use vstd::prelude::*;

verus! {

/// What a worker gets when it asks the queue for work.
pub enum Received<T> {
    /// The oldest unit of work that nobody has taken yet.
    Job(T),
    /// Nothing is waiting, but more may come: the worker should wait.
    Idle,
    /// The queue is closed and drained: no unit will ever arrive again.
    Closed,
}

/// The shared FIFO of units of work between a pool and its workers.
///
/// Its writer side is open until `close` is called, exactly once. Every unit
/// sent while it is open is handed to exactly one `receive` call, in the order
/// in which the units were sent. The ghost fields record the history: the
/// units ever sent and the units handed out so far.
pub struct JobQueue<T> {
    pending: VecDeque<T>,
    open: bool,
    sent: Ghost<Seq<T>>,
    delivered: Ghost<Seq<T>>,
}

impl<T> JobQueue<T> {
    /// The units that were sent and not yet received, oldest first.
    pub closed spec fn pending(&self) -> Seq<T> {
        self.pending@
    }

    /// Whether units may still be sent.
    pub closed spec fn accepting(&self) -> bool {
        self.open
    }

    /// Every unit ever accepted by `send`, in order.
    pub closed spec fn sent(&self) -> Seq<T> {
        self.sent@
    }

    /// Every unit ever handed out by `receive`, in order.
    pub closed spec fn delivered(&self) -> Seq<T> {
        self.delivered@
    }

    /// Nothing is lost and nothing is duplicated: what was handed out,
    /// followed by what waits, is exactly what was sent.
    pub closed spec fn wf(&self) -> bool {
        self.delivered@ + self.pending@ == self.sent@
    }

    /// The queue is closed and nothing waits in it.
    pub open spec fn drained(&self) -> bool {
        !self.accepting() && self.pending().len() == 0
    }

    /// An open, empty queue with no history.
    pub fn new() -> (q: Self)
        ensures
            q.wf(),
            q.accepting(),
            q.pending() == Seq::<T>::empty(),
            q.sent() == Seq::<T>::empty(),
            q.delivered() == Seq::<T>::empty(),
    {
        JobQueue {
            pending: VecDeque::new(),
            open: true,
            sent: Ghost(Seq::empty()),
            delivered: Ghost(Seq::empty()),
        }
    }

    /// Whether the writer side is still open.
    pub fn is_accepting(&self) -> (r: bool)
        ensures
            r == self.accepting(),
    {
        self.open
    }

    /// How many units wait to be received.
    pub fn len(&self) -> (r: usize)
        ensures
            r == self.pending().len(),
    {
        self.pending.len()
    }

    /// Appends `job` behind every waiting unit. On a closed queue nothing
    /// changes and the unit is handed back.
    pub fn send(&mut self, job: T) -> (r: Result<(), T>)
        requires
            old(self).wf(),
        ensures
            final(self).wf(),
            final(self).accepting() == old(self).accepting(),
            final(self).delivered() == old(self).delivered(),
            old(self).accepting() ==> {
                &&& r is Ok
                &&& final(self).pending() == old(self).pending().push(job)
                &&& final(self).sent() == old(self).sent().push(job)
            },
            !old(self).accepting() ==> {
                &&& r == Err::<(), T>(job)
                &&& final(self).pending() == old(self).pending()
                &&& final(self).sent() == old(self).sent()
            },
    {
        if self.open {
            proof {
                self.sent@ = self.sent@.push(job);
            }
            self.pending.push_back(job);
            proof {
                assert(self.delivered@ + self.pending@ =~= self.sent@);
            }
            Ok(())
        } else {
            Err(job)
        }
    }

    /// Releases the writer side. Returns whether it was open until now, so
    /// only the first call does anything; waiting units stay to be drained.
    pub fn close(&mut self) -> (r: bool)
        requires
            old(self).wf(),
        ensures
            final(self).wf(),
            r == old(self).accepting(),
            !final(self).accepting(),
            final(self).pending() == old(self).pending(),
            final(self).sent() == old(self).sent(),
            final(self).delivered() == old(self).delivered(),
    {
        let was_open = self.open;
        self.open = false;
        was_open
    }

    /// Takes the oldest waiting unit. With none waiting, says `Idle` while
    /// the queue is open and `Closed` once it is closed.
    pub fn receive(&mut self) -> (r: Received<T>)
        requires
            old(self).wf(),
        ensures
            final(self).wf(),
            final(self).accepting() == old(self).accepting(),
            final(self).sent() == old(self).sent(),
            old(self).pending().len() > 0 ==> {
                &&& r == Received::Job(old(self).pending()[0])
                &&& final(self).pending() == old(self).pending().drop_first()
                &&& final(self).delivered() == old(self).delivered().push(old(self).pending()[0])
            },
            old(self).pending().len() == 0 ==> {
                &&& final(self).pending() == old(self).pending()
                &&& final(self).delivered() == old(self).delivered()
                &&& (r is Idle <==> old(self).accepting())
                &&& (r is Closed <==> !old(self).accepting())
            },
    {
        match self.pending.pop_front() {
            Some(job) => {
                proof {
                    let first = old(self).pending@[0];
                    self.delivered@ = self.delivered@.push(first);
                    assert(self.delivered@ + self.pending@ =~= old(self).delivered@ + old(
                        self,
                    ).pending@);
                }
                Received::Job(job)
            },
            None => {
                if self.open {
                    Received::Idle
                } else {
                    Received::Closed
                }
            },
        }
    }
}

/// Once the queue is closed and drained, every unit that was ever sent has
/// been handed out exactly once, in the order in which it was sent.
pub proof fn lemma_drained_queue_delivered_everything<T>(q: JobQueue<T>)
    requires
        q.wf(),
        q.drained(),
    ensures
        q.delivered() == q.sent(),
{
    assert(q.delivered() + q.pending() =~= q.delivered());
}

/// However the sends and receives of several threads interleave, the number
/// of units handed out plus the number still waiting equals the number sent;
/// so once drained, as many units ran as were submitted, and each unit was
/// handed out as many times as it was sent.
pub proof fn lemma_delivery_count_matches<T>(q: JobQueue<T>)
    requires
        q.wf(),
    ensures
        q.delivered().len() + q.pending().len() == q.sent().len(),
        q.drained() ==> q.delivered().len() == q.sent().len(),
        q.drained() ==> q.delivered().to_multiset() == q.sent().to_multiset(),
{
    if q.drained() {
        lemma_drained_queue_delivered_everything(q);
    }
}

} // verus!
