//! The bounded ready queue: the FIFO hand-off from which workers take tasks.

use crate::task::Task;
use std::collections::VecDeque;
use vstd::prelude::*;

verus! {

/// Why a task was not accepted.
#[derive(Debug, Clone, Copy, PartialEq, Eq, Structural)]
pub enum QueueError {
    /// The queue holds as many tasks as its capacity allows.
    Full,
    /// The queue has been shut down.
    Closed,
}

/// The error, if any, that an enqueue meets on a queue holding `len` tasks.
pub open spec fn enqueue_refusal(len: nat, capacity: nat, closed: bool) -> Option<QueueError> {
    if closed {
        Some(QueueError::Closed)
    } else if len >= capacity {
        Some(QueueError::Full)
    } else {
        None
    }
}

/// A bounded FIFO queue of ready tasks.
pub struct ReadyQueue {
    items: VecDeque<Task>,
    capacity: usize,
    closed: bool,
}

impl ReadyQueue {
    /// The waiting tasks, oldest first.
    pub closed spec fn items(&self) -> Seq<Task> {
        self.items@
    }

    pub closed spec fn capacity_spec(&self) -> nat {
        self.capacity as nat
    }

    pub closed spec fn is_closed_spec(&self) -> bool {
        self.closed
    }

    /// The queue never holds more tasks than its capacity.
    pub open spec fn wf(&self) -> bool {
        self.items().len() <= self.capacity_spec()
    }

    /// An empty, open queue that holds at most `capacity` tasks.
    pub fn new(capacity: usize) -> (r: ReadyQueue)
        ensures
            r.wf(),
            r.items() == Seq::<Task>::empty(),
            r.capacity_spec() == capacity,
            !r.is_closed_spec(),
    {
        ReadyQueue { items: VecDeque::new(), capacity, closed: false }
    }

    pub fn capacity(&self) -> (r: usize)
        ensures
            r == self.capacity_spec(),
    {
        self.capacity
    }

    pub fn len(&self) -> (r: usize)
        ensures
            r == self.items().len(),
    {
        self.items.len()
    }

    pub fn is_closed(&self) -> (r: bool)
        ensures
            r == self.is_closed_spec(),
    {
        self.closed
    }

    /// Appends `task` without waiting. Refused with `Closed` once the queue is
    /// shut down and with `Full` when it is at capacity; a refused task is
    /// handed back and the queue left as it was.
    pub fn try_enqueue(&mut self, task: Task) -> (r: Result<(), (QueueError, Task)>)
        ensures
            old(self).wf() ==> final(self).wf(),
            final(self).capacity_spec() == old(self).capacity_spec(),
            final(self).is_closed_spec() == old(self).is_closed_spec(),
            match enqueue_refusal(
                old(self).items().len(),
                old(self).capacity_spec(),
                old(self).is_closed_spec(),
            ) {
                Some(e) => r == Err::<(), (QueueError, Task)>((e, task)) && final(self).items()
                    == old(self).items(),
                None => r is Ok && final(self).items() == old(self).items().push(task),
            },
    {
        if self.closed {
            return Err((QueueError::Closed, task));
        }
        if self.items.len() >= self.capacity {
            return Err((QueueError::Full, task));
        }
        self.items.push_back(task);
        Ok(())
    }

    /// Takes the oldest task, if any. Tasks that were ready before shutdown
    /// can still be taken after it.
    pub fn dequeue(&mut self) -> (r: Option<Task>)
        ensures
            old(self).wf() ==> final(self).wf(),
            final(self).capacity_spec() == old(self).capacity_spec(),
            final(self).is_closed_spec() == old(self).is_closed_spec(),
            old(self).items().len() == 0 ==> r is None && final(self).items() == old(self).items(),
            old(self).items().len() > 0 ==> r == Some(old(self).items()[0]) && final(self).items()
                == old(self).items().drop_first(),
    {
        self.items.pop_front()
    }

    /// Shuts the queue: every later enqueue is refused with `Closed`; the
    /// tasks already waiting stay.
    pub fn close(&mut self)
        ensures
            old(self).wf() ==> final(self).wf(),
            final(self).is_closed_spec(),
            final(self).items() == old(self).items(),
            final(self).capacity_spec() == old(self).capacity_spec(),
    {
        self.closed = true;
    }
}

/// The waiting tasks after each of `ts` is enqueued, in order, onto `items`,
/// every enqueue being accepted.
pub open spec fn pushed(items: Seq<Task>, ts: Seq<Task>) -> Seq<Task>
    decreases ts.len(),
{
    if ts.len() == 0 {
        items
    } else {
        pushed(items.push(ts[0]), ts.drop_first())
    }
}

/// The tasks that `n` dequeues hand out, in order, from a queue holding `items`.
pub open spec fn drained(items: Seq<Task>, n: nat) -> Seq<Task>
    decreases n,
{
    if n == 0 || items.len() == 0 {
        Seq::empty()
    } else {
        seq![items[0]] + drained(items.drop_first(), (n - 1) as nat)
    }
}

proof fn lemma_pushed_appends(items: Seq<Task>, ts: Seq<Task>)
    ensures
        pushed(items, ts) == items + ts,
    decreases ts.len(),
{
    if ts.len() > 0 {
        lemma_pushed_appends(items.push(ts[0]), ts.drop_first());
        assert(items.push(ts[0]) + ts.drop_first() =~= items + ts);
    } else {
        assert(items + ts =~= items);
    }
}

proof fn lemma_drained_all(items: Seq<Task>, n: nat)
    requires
        n >= items.len(),
    ensures
        drained(items, n) == items,
    decreases n,
{
    if n > 0 && items.len() > 0 {
        lemma_drained_all(items.drop_first(), (n - 1) as nat);
        assert(seq![items[0]] + items.drop_first() =~= items);
    } else {
        assert(items =~= Seq::<Task>::empty());
    }
}

/// Tasks enqueued one after another into an empty queue are dequeued in
/// exactly the order they were enqueued.
pub proof fn lemma_fifo(ts: Seq<Task>)
    ensures
        drained(pushed(Seq::empty(), ts), ts.len()) == ts,
{
    lemma_pushed_appends(Seq::empty(), ts);
    assert(Seq::<Task>::empty() + ts =~= ts);
    lemma_drained_all(ts, ts.len());
}

/// On an open queue of capacity `capacity`, the first `capacity` enqueues are
/// accepted and the next one is refused with `Full`.
pub proof fn lemma_full_at_capacity(ts: Seq<Task>, capacity: nat)
    requires
        ts.len() == capacity,
    ensures
        forall|i: int|
            0 <= i < capacity ==> enqueue_refusal(
                #[trigger] pushed(Seq::empty(), ts.take(i)).len(),
                capacity,
                false,
            ) is None,
        enqueue_refusal(pushed(Seq::empty(), ts).len(), capacity, false) == Some(QueueError::Full),
{
    assert forall|i: int| 0 <= i < capacity implies enqueue_refusal(
        #[trigger] pushed(Seq::empty(), ts.take(i)).len(),
        capacity,
        false,
    ) is None by {
        lemma_pushed_appends(Seq::empty(), ts.take(i));
    }
    lemma_pushed_appends(Seq::empty(), ts);
}

/// Once a queue is shut, every enqueue is refused with `Closed`, and the tasks
/// it held are handed out in order by that many dequeues, after which it is
/// empty and a dequeue yields nothing.
pub proof fn lemma_shut_queue_drains(items: Seq<Task>, capacity: nat, n: nat)
    requires
        n >= items.len(),
    ensures
        enqueue_refusal(items.len(), capacity, true) == Some(QueueError::Closed),
        drained(items, n) == items,
{
    lemma_drained_all(items, n);
}

} // verus!
