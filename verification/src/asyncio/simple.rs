//! A simple queue of asynchronous I/O operations that share one aio: the
//! operations run one after another, in the order they were queued.

use vstd::prelude::*;
use std::collections::VecDeque;

verus! {

/// Whether an operation of the queue is running on the aio.
#[derive(Clone, Copy, Debug, PartialEq, Eq, Structural)]
pub enum QueueState {
    Idle,
    Busy,
}

/// What the caller must do when the shared aio completes.
#[derive(Debug)]
pub enum QueueStep<W> {
    /// No operation was running: the completion is unexpected (the caller
    /// reports the aio result).
    Unexpected,
    /// `done` completed: call its `finish` with the aio; then, where
    /// `begin_next`, call `begin` of the operation now at the front.
    Finished { done: W, begin_next: bool },
}

/// The queued operations; the front one is running whenever there is one.
pub struct AioQueue<W> {
    state: QueueState,
    queue: VecDeque<W>,
}

impl<W> View for AioQueue<W> {
    /// Whether an operation runs, and the queued operations, the running
    /// one first.
    type V = (QueueState, Seq<W>);

    closed spec fn view(&self) -> (QueueState, Seq<W>) {
        (self.state, self.queue@)
    }
}

/// An operation runs exactly when one is queued.
pub open spec fn aio_queue_wf<W>(q: (QueueState, Seq<W>)) -> bool {
    (q.0 == QueueState::Busy) == (q.1.len() > 0)
}

impl<W> AioQueue<W> {
    /// An empty, idle queue.
    pub fn new() -> (r: AioQueue<W>)
        ensures
            r@ == (QueueState::Idle, Seq::<W>::empty()),
    {
        AioQueue { state: QueueState::Idle, queue: VecDeque::new() }
    }

    /// Queue `obj`.  Returns whether it must be begun now: the queue was
    /// idle (and so, where `aio_queue_wf` held, empty: `obj` is the front).
    pub fn push_back(&mut self, obj: W) -> (r: bool)
        ensures
            final(self)@ == (QueueState::Busy, old(self)@.1.push(obj)),
            r == (old(self)@.0 == QueueState::Idle),
    {
        let begin: bool = match self.state {
            QueueState::Idle => {
                self.state = QueueState::Busy;
                true
            },
            QueueState::Busy => false,
        };
        self.queue.push_back(obj);
        begin
    }

    /// The operation at the front (the running one), if any.
    pub fn front(&self) -> (r: Option<&W>)
        ensures
            self@.1.len() > 0 ==> r == Some(&self@.1[0]),
            self@.1.len() == 0 ==> r is None,
    {
        if self.queue.len() > 0 {
            Some(&self.queue[0])
        } else {
            None
        }
    }

    /// The shared aio completed.
    pub fn callback(&mut self) -> (r: QueueStep<W>)
        requires
            aio_queue_wf(old(self)@),
        ensures
            aio_queue_wf(final(self)@),
            old(self)@.1.len() == 0 ==> r is Unexpected && final(self)@ == old(self)@,
            old(self)@.1.len() > 0 ==> r == (QueueStep::Finished {
                done: old(self)@.1[0],
                begin_next: old(self)@.1.len() > 1,
            }) && final(self)@.1 == old(self)@.1.drop_first(),
    {
        let done = match self.queue.pop_front() {
            Some(done) => done,
            None => return QueueStep::Unexpected,
        };
        let begin_next: bool = self.queue.len() > 0;
        if !begin_next {
            self.state = QueueState::Idle;
        }
        QueueStep::Finished { done, begin_next }
    }
}

/// A queue of asynchronous I/O operations.
pub trait AioWorkQueue<W> {
    /// Queue `obj`; returns whether it must be begun now.
    fn push_back(&mut self, obj: W) -> bool;
}

/// Asynchronous I/O operations run one at a time on one aio.
pub struct SimpleAioWorkQueue<W> {
    worker: AioQueue<W>,
}

impl<W> View for SimpleAioWorkQueue<W> {
    type V = (QueueState, Seq<W>);

    closed spec fn view(&self) -> (QueueState, Seq<W>) {
        self.worker@
    }
}

impl<W> SimpleAioWorkQueue<W> {
    /// An empty queue.
    pub fn new() -> (r: SimpleAioWorkQueue<W>)
        ensures
            r@ == (QueueState::Idle, Seq::<W>::empty()),
    {
        SimpleAioWorkQueue { worker: AioQueue::new() }
    }

    /// The operation at the front (the running one), if any.
    pub fn front(&self) -> (r: Option<&W>)
        ensures
            self@.1.len() > 0 ==> r == Some(&self@.1[0]),
            self@.1.len() == 0 ==> r is None,
    {
        self.worker.front()
    }

    /// The shared aio completed.
    pub fn callback(&mut self) -> (r: QueueStep<W>)
        requires
            aio_queue_wf(old(self)@),
        ensures
            aio_queue_wf(final(self)@),
            old(self)@.1.len() == 0 ==> r is Unexpected && final(self)@ == old(self)@,
            old(self)@.1.len() > 0 ==> r == (QueueStep::Finished {
                done: old(self)@.1[0],
                begin_next: old(self)@.1.len() > 1,
            }) && final(self)@.1 == old(self)@.1.drop_first(),
    {
        self.worker.callback()
    }
}

impl<W> AioWorkQueue<W> for SimpleAioWorkQueue<W> {
    fn push_back(&mut self, obj: W) -> (r: bool)
        ensures
            final(self)@ == (QueueState::Busy, old(self)@.1.push(obj)),
            r == (old(self)@.0 == QueueState::Idle),
    {
        self.worker.push_back(obj)
    }
}

/// Operations run in the order they were queued: when the running one
/// completes, the next to begin is the one queued right after it, and each
/// queued operation is begun exactly once, on reaching the front.
pub proof fn lemma_aio_queue_fifo<W>(q: Seq<W>, a: W, b: W)
    requires
        q.len() == 0,
    ensures
        q.push(a).push(b)[0] == a,
        q.push(a).push(b).drop_first()[0] == b,
        q.push(a).push(b).drop_first().len() > 0,
        q.push(a).push(b).drop_first().drop_first().len() == 0,
{
}

} // verus!
