//! The worker pool proper: lifecycle management around the transport.
//!
//! The pool owns the channel's only long-lived producer handle and the join
//! bookkeeping for its workers. Submitting forwards an item through the
//! channel; shutdown closes the channel exactly once (idempotently) and hands
//! out at most one join ticket per worker, so a double join is structurally
//! impossible. The workers themselves are modelled by [`Worker`], whose life
//! is a one-directional march `Running` → `Draining` → `Stopped`.

use vstd::prelude::*;
use crate::channel::channel_bounded;
use crate::channel::channel_clone_receiver;
use crate::channel::channel_recv;
use crate::channel::channel_send;
use crate::queue::RecvOutcome;
use crate::queue::WorkQueue;

verus! {

/// The life of a worker thread: looping (`Running`), finishing a final item
/// after the channel closed (`Draining`), or exited (`Stopped`).
#[derive(Clone, Copy, PartialEq, Eq, Structural, Debug)]
pub enum WorkerState {
    Running,
    Draining,
    Stopped,
}

/// Position of a state in the one-directional life of a worker.
pub open spec fn state_rank(s: WorkerState) -> int {
    match s {
        WorkerState::Running => 0,
        WorkerState::Draining => 1,
        WorkerState::Stopped => 2,
    }
}

/// One worker: an identifying index for diagnostics, and where it stands in
/// its life.
pub struct Worker {
    index: usize,
    state: WorkerState,
}

impl Worker {
    /// The identifying index, fixed for the worker's whole life.
    pub closed spec fn id(self) -> usize {
        self.index
    }

    pub closed spec fn state(self) -> WorkerState {
        self.state
    }

    /// A fresh worker, looping.
    pub fn new(id: usize) -> (w: Worker)
        ensures
            w.id() == id,
            w.state() is Running,
    {
        Worker { index: id, state: WorkerState::Running }
    }

    /// The identifying index.
    pub fn worker_id(&self) -> (id: usize)
        ensures
            id == self.id(),
    {
        self.index
    }

    /// Where the worker stands.
    pub fn current_state(&self) -> (s: WorkerState)
        ensures
            s == self.state(),
    {
        self.state
    }

    /// One iteration of the worker loop against the queue model: receive, and
    /// either carry the oldest pending item away for execution or, on the
    /// closed-and-drained signal, stop. The worker's state only ever moves
    /// forward.
    pub fn take_step<T>(&mut self, q: &mut WorkQueue<T>) -> (job: Option<T>)
        requires
            old(self).state() !is Stopped,
            old(q).wf(),
        ensures
            final(self).id() == old(self).id(),
            state_rank(old(self).state()) <= state_rank(final(self).state()),
            final(q).wf(),
            final(q).capacity() == old(q).capacity(),
            final(q).is_closed() == old(q).is_closed(),
            final(q).submitted() == old(q).submitted(),
            old(q).pending().len() > 0 ==> {
                &&& job matches Some(it) && it == old(q).pending()[0]
                &&& final(q).pending() == old(q).pending().drop_first()
                &&& final(q).delivered() == old(q).delivered().push(old(q).pending()[0])
                &&& final(self).state() == (if old(q).is_closed() {
                    WorkerState::Draining
                } else {
                    old(self).state()
                })
            },
            old(q).pending().len() == 0 ==> {
                &&& *final(q) == *old(q)
                &&& job is None
                &&& final(self).state() == (if old(q).is_closed() {
                    WorkerState::Stopped
                } else {
                    old(self).state()
                })
            },
    {
        match q.receive() {
            RecvOutcome::Item(item) => {
                if q.check_closed() {
                    self.state = WorkerState::Draining;
                }
                Some(item)
            }
            RecvOutcome::Disconnected => {
                self.state = WorkerState::Stopped;
                None
            }
            RecvOutcome::Empty => None,
        }
    }

    /// One iteration of the worker loop against the live channel: block on
    /// the shared consumer handle, and either carry the received job away for
    /// execution or, on disconnection, stop. Which job arrives depends on the
    /// competing consumers, so only the state machine is pinned down: a job
    /// keeps the worker going, disconnection stops it for good.
    pub fn next_job<T>(&mut self, receiver: &crossbeam_channel::Receiver<T>) -> (job: Option<
        T,
    >)
        requires
            old(self).state() !is Stopped,
        ensures
            final(self).id() == old(self).id(),
            state_rank(old(self).state()) <= state_rank(final(self).state()),
            job is Some ==> final(self).state() == old(self).state(),
            job is None ==> final(self).state() is Stopped,
    {
        match channel_recv(receiver) {
            Some(job) => Some(job),
            None => {
                self.state = WorkerState::Stopped;
                None
            }
        }
    }

    /// Record that the worker finished executing one item. Whether the item
    /// succeeded or failed (`ok`), the worker is unchanged: one failing item
    /// must not take the worker down, so subsequent items still run.
    pub fn finish_item(&mut self, ok: bool)
        requires
            old(self).state() !is Stopped,
        ensures
            *final(self) == *old(self),
    {
        let _ = ok;
    }
}

/// Why a submission was refused: the pool has begun shutdown (or its workers
/// are gone), so the channel no longer accepts items. The refused item comes
/// back to the caller rather than being dropped silently.
pub enum SubmitError<T> {
    ChannelClosed(T),
}

/// The pool: the only long-lived producer handle of the work channel, and a
/// join ticket per worker.
#[verifier::reject_recursive_types(T)]
pub struct ThreadPool<T> {
    sender: Option<crossbeam_channel::Sender<T>>,
    joined: Vec<bool>,
}

impl<T> ThreadPool<T> {
    /// How many workers the pool was built with.
    pub closed spec fn worker_count(self) -> nat {
        self.joined@.len()
    }

    /// Whether shutdown has begun: the producer handle has been dropped, so
    /// the channel is closed.
    pub closed spec fn is_shut_down(self) -> bool {
        self.sender is None
    }

    /// Whether worker `i`'s join ticket has been claimed.
    pub closed spec fn worker_joined(self, i: int) -> bool {
        self.joined@[i]
    }

    /// Build the work channel (capacity one: a hand-off slot) and the
    /// bookkeeping for exactly `size` workers, and hand back one consumer
    /// handle per worker for the runner to bind threads to. A pool of zero
    /// workers would accept work that can never run, so `size` must be
    /// positive.
    pub fn new(size: usize) -> (r: (ThreadPool<T>, Vec<crossbeam_channel::Receiver<T>>))
        requires
            1 <= size,
        ensures
            r.0.worker_count() == size,
            !r.0.is_shut_down(),
            forall|i: int| 0 <= i < size ==> !r.0.worker_joined(i),
            r.1@.len() == size,
    {
        let (sender, receiver) = channel_bounded::<T>(1);
        let mut receivers: Vec<crossbeam_channel::Receiver<T>> = Vec::new();
        let mut joined: Vec<bool> = Vec::new();
        let mut i: usize = 0;
        while i < size
            invariant
                i <= size,
                receivers@.len() == i,
                joined@.len() == i,
                forall|j: int| 0 <= j < i ==> !joined@[j],
            decreases size - i,
        {
            receivers.push(channel_clone_receiver(&receiver));
            joined.push(false);
            i = i + 1;
        }
        (ThreadPool { sender: Some(sender), joined }, receivers)
    }

    /// Submit a work item. Safe from any thread; blocks under backpressure
    /// (all workers busy and the hand-off slot full). Succeeds only while the
    /// pool is up; once shutdown has begun — or should the workers somehow
    /// all be gone — the item is refused and handed back inside the error.
    pub fn execute(&self, item: T) -> (r: Result<(), SubmitError<T>>)
        ensures
            r is Ok ==> !self.is_shut_down(),
            self.is_shut_down() ==> r is Err,
            r matches Err(SubmitError::ChannelClosed(back)) ==> back == item,
    {
        match &self.sender {
            Some(sender) => match channel_send(sender, item) {
                Ok(()) => Ok(()),
                Err(back) => Err(SubmitError::ChannelClosed(back)),
            },
            None => Err(SubmitError::ChannelClosed(item)),
        }
    }

    /// Begin teardown: drop the producer handle, which closes the channel, so
    /// each worker drains the backlog and then observes disconnection.
    /// Idempotent — a second shutdown finds the pool already shut down and
    /// changes nothing, and the join tickets are untouched either way.
    pub fn shutdown(&mut self)
        ensures
            final(self).is_shut_down(),
            final(self).worker_count() == old(self).worker_count(),
            forall|i: int|
                0 <= i < old(self).worker_count() ==> final(self).worker_joined(i)
                    == old(self).worker_joined(i),
            old(self).is_shut_down() ==> *final(self) == *old(self),
    {
        self.sender = None;
    }

    /// Claim the join ticket of worker `index`. The first claim succeeds and
    /// marks the worker joined; every later claim reports `false`. The
    /// teardown driver joins a worker's thread only on a successful claim, so
    /// joining the same thread twice is structurally impossible.
    pub fn claim_join(&mut self, index: usize) -> (claimed: bool)
        requires
            index < old(self).worker_count(),
        ensures
            claimed == !old(self).worker_joined(index as int),
            final(self).worker_joined(index as int),
            final(self).worker_count() == old(self).worker_count(),
            final(self).is_shut_down() == old(self).is_shut_down(),
            forall|j: int|
                0 <= j < old(self).worker_count() && j != index ==> final(self).worker_joined(
                    j,
                ) == old(self).worker_joined(j),
    {
        let was_joined = self.joined[index];
        self.joined.set(index, true);
        !was_joined
    }
}

} // verus!
