//! Messages received ahead of readers, and readers waiting for messages.

use vstd::prelude::*;
use std::collections::VecDeque;

verus! {

/// Matches received messages with the readers that wait for them.  Either
/// readers wait (no message is ready) or messages wait (no reader is
/// waiting); each side is served first come, first served.
pub struct WorkQueue<W, M> {
    waiting: VecDeque<W>,
    ready: VecDeque<M>,
}

impl<W, M> View for WorkQueue<W, M> {
    /// The waiting readers and the ready messages, oldest first.
    type V = (Seq<W>, Seq<M>);

    closed spec fn view(&self) -> (Seq<W>, Seq<M>) {
        (self.waiting@, self.ready@)
    }
}

/// Never do readers wait while a message is ready.
pub open spec fn queue_wf<W, M>(q: (Seq<W>, Seq<M>)) -> bool {
    q.0.len() == 0 || q.1.len() == 0
}

/// The queue after `message` arrived: the oldest waiting reader leaves with
/// it, or else it is kept after the ready messages.
pub open spec fn queue_after_push<W, M>(q: (Seq<W>, Seq<M>), message: M) -> (Seq<W>, Seq<M>) {
    if q.0.len() > 0 {
        (q.0.drop_first(), q.1)
    } else {
        (q.0, q.1.push(message))
    }
}

/// The reader that `message` is handed to on arrival, if one waits.
pub open spec fn push_handoff<W, M>(q: (Seq<W>, Seq<M>), message: M) -> Option<(W, M)> {
    if q.0.len() > 0 {
        Some((q.0[0], message))
    } else {
        None
    }
}

/// The queue after `waiter` asked for a message: the oldest ready message
/// leaves, or else `waiter` waits after the other readers.
pub open spec fn queue_after_pop<W, M>(q: (Seq<W>, Seq<M>), waiter: W) -> (Seq<W>, Seq<M>) {
    if q.1.len() > 0 {
        (q.0, q.1.drop_first())
    } else {
        (q.0.push(waiter), q.1)
    }
}

/// The message a reader gets at once, if one is ready.
pub open spec fn pop_handoff<W, M>(q: (Seq<W>, Seq<M>)) -> Option<M> {
    if q.1.len() > 0 {
        Some(q.1[0])
    } else {
        None
    }
}

/// The messages that arrive in `events`, in order (`Some(m)` is the arrival
/// of `m`, `None` a reader asking).
pub open spec fn arrivals<M>(events: Seq<Option<M>>) -> Seq<M>
    decreases events.len(),
{
    if events.len() == 0 {
        Seq::empty()
    } else {
        let before = arrivals(events.drop_last());
        match events.last() {
            Some(m) => before.push(m),
            None => before,
        }
    }
}

/// The number of readers that ask in `events`.
pub open spec fn requests<M>(events: Seq<Option<M>>) -> nat
    decreases events.len(),
{
    if events.len() == 0 {
        0
    } else {
        let before = requests(events.drop_last());
        match events.last() {
            Some(_) => before,
            None => before + 1,
        }
    }
}

/// Runs `events` on an empty queue through `push_back` and `pop_front`,
/// the `j`-th reader to ask being known as `j`: the queue it leaves, and
/// every delivery `(j, m)` (reader `j` gets `m`), in the order they happen.
pub open spec fn run_queue<M>(events: Seq<Option<M>>) -> ((Seq<nat>, Seq<M>), Seq<(nat, M)>)
    decreases events.len(),
{
    if events.len() == 0 {
        ((Seq::empty(), Seq::empty()), Seq::empty())
    } else {
        let (q, log) = run_queue(events.drop_last());
        match events.last() {
            Some(m) => (
                queue_after_push(q, m),
                match push_handoff(q, m) {
                    Some(d) => log.push(d),
                    None => log,
                },
            ),
            None => {
                let reader = requests(events.drop_last());
                (
                    queue_after_pop(q, reader),
                    match pop_handoff(q) {
                        Some(m) => log.push((reader, m)),
                        None => log,
                    },
                )
            },
        }
    }
}

impl<W, M> WorkQueue<W, M> {
    /// An empty queue.
    pub fn new() -> (r: WorkQueue<W, M>)
        ensures
            r@ == (Seq::<W>::empty(), Seq::<M>::empty()),
    {
        WorkQueue { waiting: VecDeque::new(), ready: VecDeque::new() }
    }

    /// A message arrived: it goes to the oldest waiting reader, returned
    /// with the message for the caller to deliver, or else it waits.
    pub fn push_back(&mut self, message: M) -> (r: Option<(W, M)>)
        requires
            queue_wf(old(self)@),
        ensures
            queue_wf(final(self)@),
            final(self)@ == queue_after_push(old(self)@, message),
            r == push_handoff(old(self)@, message),
    {
        match self.waiting.pop_front() {
            Some(waiter) => Some((waiter, message)),
            None => {
                self.ready.push_back(message);
                None
            },
        }
    }

    /// A reader asks for a message: the oldest ready one if there is one
    /// (`waiter` is then not needed), else `waiter` waits for the next.
    pub fn pop_front(&mut self, waiter: W) -> (r: Option<M>)
        requires
            queue_wf(old(self)@),
        ensures
            queue_wf(final(self)@),
            final(self)@ == queue_after_pop(old(self)@, waiter),
            r == pop_handoff(old(self)@),
    {
        match self.ready.pop_front() {
            Some(item) => Some(item),
            None => {
                self.waiting.push_back(waiter);
                None
            },
        }
    }

    /// Whether a message is ready.
    pub fn has_ready(&self) -> (r: bool)
        ensures
            r == (self@.1.len() > 0),
    {
        self.ready.len() > 0
    }

    /// The number of readers waiting.
    pub fn waiting_len(&self) -> (r: usize)
        ensures
            r == self@.0.len(),
    {
        self.waiting.len()
    }
}

/// What a reader is given back is what arrived first: after messages `a`
/// then `b` arrive with no reader waiting, the next two readers get `a`
/// and then `b`.
pub proof fn lemma_queue_fifo<W, M>(q: (Seq<W>, Seq<M>), a: M, b: M)
    requires
        queue_wf(q),
        q.0.len() == 0,
        q.1.len() == 0,
    ensures
        q.1.push(a).push(b)[0] == a,
        q.1.push(a).push(b).drop_first()[0] == b,
        q.1.push(a).push(b).drop_first().drop_first().len() == 0,
{
}

/// First come, first served, over any mix of arrivals and requests on an
/// empty queue: the `j`-th reader to ask gets the `j`-th message to
/// arrive, each delivery happens once and in that order, and what is left
/// is either the readers still waiting (in the order they asked) or the
/// messages not yet taken (in the order they arrived), never both.
pub proof fn lemma_queue_fifo_any<M>(events: Seq<Option<M>>)
    ensures
        ({
            let (q, log) = run_queue(events);
            let pushed = arrivals(events);
            let asked = requests(events);
            &&& queue_wf(q)
            &&& log.len() == if pushed.len() <= asked { pushed.len() } else { asked }
            &&& forall|j: int| 0 <= j < log.len() ==> #[trigger] log[j] == (j as nat, pushed[j])
            &&& pushed.len() <= asked ==> q.1.len() == 0 && q.0 == Seq::new(
                (asked - pushed.len()) as nat,
                |i: int| (pushed.len() + i) as nat,
            )
            &&& asked <= pushed.len() ==> q.0.len() == 0 && q.1 == pushed.subrange(asked as int, pushed.len() as int)
        }),
    decreases events.len(),
{
    if events.len() > 0 {
        let prev = events.drop_last();
        lemma_queue_fifo_any(prev);
        let (q0, log0) = run_queue(prev);
        let pushed0 = arrivals(prev);
        let asked0 = requests(prev);
        let (q, log) = run_queue(events);
        let pushed = arrivals(events);
        let asked = requests(events);
        match events.last() {
            Some(m) => {
                assert(pushed == pushed0.push(m));
                assert(asked == asked0);
                if q0.0.len() > 0 {
                    assert(q0.0[0] == pushed0.len());
                    assert(q.0 =~= Seq::new((asked - pushed.len()) as nat, |i: int| (pushed.len() + i) as nat));
                    assert forall|j: int| 0 <= j < log.len() implies #[trigger] log[j] == (j as nat, pushed[j]) by {
                        if j < log0.len() {
                            assert(log0[j] == (j as nat, pushed0[j]));
                        }
                    }
                } else {
                    assert(q.1 =~= pushed.subrange(asked as int, pushed.len() as int));
                    assert forall|j: int| 0 <= j < log.len() implies #[trigger] log[j] == (j as nat, pushed[j]) by {
                        assert(log0[j] == (j as nat, pushed0[j]));
                    }
                }
            },
            None => {
                assert(pushed == pushed0);
                assert(asked == asked0 + 1);
                if q0.1.len() > 0 {
                    assert(q0.1[0] == pushed0[asked0 as int]);
                    assert(q.1 =~= pushed.subrange(asked as int, pushed.len() as int));
                    assert forall|j: int| 0 <= j < log.len() implies #[trigger] log[j] == (j as nat, pushed[j]) by {
                        if j < log0.len() {
                            assert(log0[j] == (j as nat, pushed0[j]));
                        }
                    }
                } else {
                    assert(q.0 =~= Seq::new((asked - pushed.len()) as nat, |i: int| (pushed.len() + i) as nat));
                    assert forall|j: int| 0 <= j < log.len() implies #[trigger] log[j] == (j as nat, pushed[j]) by {
                        assert(log0[j] == (j as nat, pushed0[j]));
                    }
                }
            },
        }
    }
}

} // verus!
