//! The work channel's contract, made precise: a bounded FIFO buffer of work
//! items with a close protocol. `send` refuses items once the buffer is full
//! (backpressure) or the channel is closed; `receive` hands out the oldest
//! item, and reports disconnection only once the channel is closed *and*
//! drained. Ghost histories of everything accepted and everything handed out
//! let the laws below say that no item is ever lost, duplicated or reordered.

use vstd::prelude::*;

verus! {

/// What `send` did with the offered item. A full buffer or a closed channel
/// hands the item back to the caller rather than dropping it.
pub enum SendOutcome<T> {
    Accepted,
    Full(T),
    Closed(T),
}

/// What `receive` found. `Empty` models the receiver suspending until a new
/// item arrives; `Disconnected` is the closed-and-drained signal on which a
/// worker exits.
pub enum RecvOutcome<T> {
    Item(T),
    Empty,
    Disconnected,
}

/// A bounded FIFO queue of work items with a close protocol.
pub struct WorkQueue<T> {
    buf: Vec<T>,
    cap: usize,
    closed: bool,
    accepted: Ghost<Seq<T>>,
    handed_out: Ghost<Seq<T>>,
}

impl<T> WorkQueue<T> {
    /// The items currently buffered, oldest first.
    pub closed spec fn pending(self) -> Seq<T> {
        self.buf@
    }

    /// Every item ever accepted by `send`, in acceptance order.
    pub closed spec fn submitted(self) -> Seq<T> {
        self.accepted@
    }

    /// Every item ever handed out by `receive`, in delivery order.
    pub closed spec fn delivered(self) -> Seq<T> {
        self.handed_out@
    }

    /// The fixed capacity of the buffer.
    pub closed spec fn capacity(self) -> usize {
        self.cap
    }

    /// Whether `close` has been called.
    pub closed spec fn is_closed(self) -> bool {
        self.closed
    }

    /// Well-formedness: the buffer respects the capacity bound, and the
    /// histories account for every accepted item exactly once — what has been
    /// handed out followed by what is still buffered is precisely what was
    /// accepted, in order.
    pub closed spec fn wf(self) -> bool {
        &&& 1 <= self.cap
        &&& self.buf@.len() <= self.cap
        &&& self.handed_out@ + self.buf@ == self.accepted@
    }

    /// Whether the channel has been closed.
    pub fn check_closed(&self) -> (b: bool)
        ensures
            b == self.is_closed(),
    {
        self.closed
    }

    /// A fresh, open, empty queue of the given capacity.
    pub fn new(capacity: usize) -> (q: Self)
        requires
            1 <= capacity,
        ensures
            q.wf(),
            q.capacity() == capacity,
            !q.is_closed(),
            q.pending() == Seq::<T>::empty(),
            q.submitted() == Seq::<T>::empty(),
            q.delivered() == Seq::<T>::empty(),
    {
        let q = WorkQueue {
            buf: Vec::new(),
            cap: capacity,
            closed: false,
            accepted: Ghost(Seq::empty()),
            handed_out: Ghost(Seq::empty()),
        };
        proof {
            assert(q.handed_out@ + q.buf@ =~= q.accepted@);
        }
        q
    }

    /// Offer an item. A closed channel refuses it; a full buffer refuses it
    /// (the caller blocks and retries — backpressure); otherwise it joins the
    /// end of the buffer and of the accepted history.
    pub fn send(&mut self, item: T) -> (r: SendOutcome<T>)
        requires
            old(self).wf(),
        ensures
            final(self).wf(),
            final(self).capacity() == old(self).capacity(),
            final(self).is_closed() == old(self).is_closed(),
            final(self).delivered() == old(self).delivered(),
            old(self).is_closed() ==> {
                &&& r matches SendOutcome::Closed(back) && back == item
                &&& *final(self) == *old(self)
            },
            !old(self).is_closed() && old(self).pending().len() == old(self).capacity() ==> {
                &&& r matches SendOutcome::Full(back) && back == item
                &&& *final(self) == *old(self)
            },
            !old(self).is_closed() && old(self).pending().len() < old(self).capacity() ==> {
                &&& r is Accepted
                &&& final(self).pending() == old(self).pending().push(item)
                &&& final(self).submitted() == old(self).submitted().push(item)
            },
    {
        if self.closed {
            SendOutcome::Closed(item)
        } else if self.buf.len() == self.cap {
            SendOutcome::Full(item)
        } else {
            proof {
                assert(self.handed_out@ + self.buf@.push(item) =~= (self.handed_out@
                    + self.buf@).push(item));
            }
            self.accepted = Ghost(self.accepted@.push(item));
            self.buf.push(item);
            SendOutcome::Accepted
        }
    }

    /// Take the oldest buffered item, if any. An empty open channel reports
    /// `Empty` (the worker suspends); an empty closed channel reports
    /// `Disconnected`. An item is never withheld while one is buffered.
    pub fn receive(&mut self) -> (r: RecvOutcome<T>)
        requires
            old(self).wf(),
        ensures
            final(self).wf(),
            final(self).capacity() == old(self).capacity(),
            final(self).is_closed() == old(self).is_closed(),
            final(self).submitted() == old(self).submitted(),
            old(self).pending().len() > 0 ==> {
                &&& r matches RecvOutcome::Item(it) && it == old(self).pending()[0]
                &&& final(self).pending() == old(self).pending().drop_first()
                &&& final(self).delivered() == old(self).delivered().push(
                    old(self).pending()[0],
                )
            },
            old(self).pending().len() == 0 ==> {
                &&& *final(self) == *old(self)
                &&& if old(self).is_closed() {
                    r is Disconnected
                } else {
                    r is Empty
                }
            },
    {
        if self.buf.len() > 0 {
            let item = self.buf.remove(0);
            proof {
                assert(self.buf@ =~= old(self).buf@.drop_first());
                assert(self.handed_out@.push(item) + self.buf@ =~= self.handed_out@
                    + old(self).buf@);
            }
            self.handed_out = Ghost(self.handed_out@.push(item));
            RecvOutcome::Item(item)
        } else if self.closed {
            RecvOutcome::Disconnected
        } else {
            RecvOutcome::Empty
        }
    }

    /// Close the channel: no further `send` succeeds, and once the buffer
    /// drains, `receive` reports `Disconnected` instead of suspending.
    /// Idempotent — closing a closed channel changes nothing.
    pub fn close(&mut self)
        requires
            old(self).wf(),
        ensures
            final(self).wf(),
            final(self).is_closed(),
            final(self).capacity() == old(self).capacity(),
            final(self).pending() == old(self).pending(),
            final(self).submitted() == old(self).submitted(),
            final(self).delivered() == old(self).delivered(),
            old(self).is_closed() ==> *final(self) == *old(self),
    {
        self.closed = true;
    }

    /// Drain a closed channel to completion, as the pool's shutdown does:
    /// keep receiving until the disconnection signal, and return everything
    /// that was still buffered, in FIFO order. On return nothing is pending —
    /// every accepted item has been handed out.
    pub fn drain(&mut self) -> (items: Vec<T>)
        requires
            old(self).wf(),
            old(self).is_closed(),
        ensures
            final(self).wf(),
            final(self).is_closed(),
            final(self).capacity() == old(self).capacity(),
            items@ == old(self).pending(),
            final(self).pending().len() == 0,
            final(self).submitted() == old(self).submitted(),
            final(self).delivered() == old(self).delivered() + old(self).pending(),
            final(self).delivered() == final(self).submitted(),
    {
        let ghost init = *self;
        let mut items: Vec<T> = Vec::new();
        proof {
            assert(items@ + self.pending() =~= init.pending());
            assert(self.delivered() =~= init.delivered() + items@);
        }
        while self.buf.len() > 0
            invariant
                self.wf(),
                self.is_closed(),
                self.capacity() == init.capacity(),
                self.submitted() == init.submitted(),
                items@ + self.pending() == init.pending(),
                self.delivered() == init.delivered() + items@,
            decreases self.pending().len(),
        {
            let ghost pre = *self;
            match self.receive() {
                RecvOutcome::Item(item) => {
                    proof {
                        assert(items@.push(item) + self.pending() =~= (items@
                            + pre.pending()));
                        assert(init.delivered() + items@.push(item) =~= (init.delivered()
                            + items@).push(item));
                    }
                    items.push(item);
                }
                _ => {
                    proof {
                        assert(false);
                    }
                }
            }
        }
        proof {
            assert(items@ =~= init.pending()) by {
                assert(items@ + self.pending() == init.pending());
                assert(self.pending().len() == 0);
            }
            assert(self.delivered() =~= self.submitted()) by {
                assert(self.delivered() + self.pending() == self.submitted());
                assert(self.delivered() + self.pending() =~= self.delivered());
            }
        }
        items
    }
}

/// Law: no accepted item is ever lost or duplicated. Counting multiplicity,
/// what was accepted is exactly what has been handed out plus what is still
/// buffered; in particular, once nothing is pending, every accepted item has
/// been handed out exactly once.
pub proof fn lemma_no_loss_no_duplication<T>(q: WorkQueue<T>)
    requires
        q.wf(),
    ensures
        q.submitted().to_multiset() == q.delivered().to_multiset().add(
            q.pending().to_multiset(),
        ),
        q.pending().len() == 0 ==> q.delivered() == q.submitted(),
{
    vstd::seq_lib::lemma_multiset_commutative(q.delivered(), q.pending());
    if q.pending().len() == 0 {
        assert(q.delivered() + q.pending() =~= q.delivered());
    }
}

/// Law: delivery is FIFO. What has been handed out is precisely the earliest
/// part of the accepted history, in acceptance order, and what is still
/// buffered is the remainder — items are neither reordered nor overtaken.
pub proof fn lemma_fifo_order<T>(q: WorkQueue<T>)
    requires
        q.wf(),
    ensures
        q.delivered() == q.submitted().take(q.delivered().len() as int),
        q.pending() == q.submitted().skip(q.delivered().len() as int),
{
    assert(q.delivered() =~= q.submitted().take(q.delivered().len() as int));
    assert(q.pending() =~= q.submitted().skip(q.delivered().len() as int));
}

} // verus!
