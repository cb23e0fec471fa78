//! Bounded FIFO of pending key events, backed by a fixed-capacity
//! `heapless::Deque`.
//!
//! When the queue is full the oldest pending event is evicted to make
//! room: bounded memory wins over perfect delivery, and the consumer is
//! expected to drain faster than fingers type.

use vstd::prelude::*;
use crate::event::KeyEvent;

verus! {

/// Capacity of the pending-event queue.
pub const EVENT_QUEUE_CAP: usize = 32;

/// Declaration of the fixed-capacity deque type of the heapless crate.
#[verifier::external_type_specification]
#[verifier::external_body]
#[verifier::reject_recursive_types(T)]
pub struct ExDeque<T, const N: usize>(heapless::Deque<T, N>);

/// The items an event deque holds, front to back, each as
/// `(row, col, pressed)`.
pub uninterp spec fn fifo_items(q: heapless::Deque<(u8, u8, bool), 32>) -> Seq<(u8, u8, bool)>;

/// Relies on heapless::Deque::new: a freshly constructed deque is empty.
#[verifier::external_body]
fn fifo_new() -> (q: heapless::Deque<(u8, u8, bool), 32>)
    ensures
        fifo_items(q) == Seq::<(u8, u8, bool)>::empty(),
{
    heapless::Deque::new()
}

/// Relies on heapless::Deque::push_back: appends the item when the
/// deque holds fewer than its capacity of items, and leaves the deque
/// unchanged (handing the item back) when it is full.
#[verifier::external_body]
fn fifo_push_back(q: &mut heapless::Deque<(u8, u8, bool), 32>, item: (u8, u8, bool)) -> (ok: bool)
    ensures
        fifo_items(*old(q)).len() < 32 ==> ok
            && fifo_items(*final(q)) == fifo_items(*old(q)).push(item),
        fifo_items(*old(q)).len() >= 32 ==> !ok
            && fifo_items(*final(q)) == fifo_items(*old(q)),
{
    q.push_back(item).is_ok()
}

/// Relies on heapless::Deque::pop_front: removes and returns the front
/// item, or returns nothing when the deque is empty.
#[verifier::external_body]
fn fifo_pop_front(q: &mut heapless::Deque<(u8, u8, bool), 32>) -> (r: Option<(u8, u8, bool)>)
    ensures
        fifo_items(*old(q)).len() == 0 ==> r is None
            && fifo_items(*final(q)) == fifo_items(*old(q)),
        fifo_items(*old(q)).len() > 0 ==> r == Some(fifo_items(*old(q))[0])
            && fifo_items(*final(q)) == fifo_items(*old(q)).drop_first(),
{
    q.pop_front()
}

/// Relies on heapless::Deque::len: the number of items held.
#[verifier::external_body]
fn fifo_len(q: &heapless::Deque<(u8, u8, bool), 32>) -> (n: usize)
    ensures
        n == fifo_items(*q).len(),
{
    q.len()
}

/// What pushing onto a bounded queue yields: the event is appended,
/// and when the queue is already at capacity the oldest entry leaves.
pub open spec fn spec_push_evict(q: Seq<KeyEvent>, ev: KeyEvent) -> Seq<KeyEvent> {
    if q.len() < EVENT_QUEUE_CAP as int {
        q.push(ev)
    } else {
        q.drop_first().push(ev)
    }
}

/// Bounded queue of pending key events.
pub struct EventQueue {
    fifo: heapless::Deque<(u8, u8, bool), 32>,
}

impl EventQueue {
    /// The queued events, oldest first.
    pub closed spec fn events(self) -> Seq<KeyEvent> {
        fifo_items(self.fifo).map(
            |i: int, t: (u8, u8, bool)| KeyEvent { row: t.0, col: t.1, pressed: t.2 },
        )
    }

    /// The queue never holds more than its capacity of events.
    pub closed spec fn wf(self) -> bool {
        fifo_items(self.fifo).len() <= EVENT_QUEUE_CAP as int
    }

    /// Create an empty queue.
    pub fn new() -> (q: EventQueue)
        ensures
            q.wf(),
            q.events() == Seq::<KeyEvent>::empty(),
    {
        let q = EventQueue { fifo: fifo_new() };
        proof {
            assert(q.events() =~= Seq::<KeyEvent>::empty());
        }
        q
    }

    /// Number of queued events.
    pub fn len(&self) -> (n: usize)
        ensures
            n == self.events().len(),
    {
        fifo_len(&self.fifo)
    }

    /// Whether no event is pending.
    pub fn is_empty(&self) -> (b: bool)
        ensures
            b == (self.events().len() == 0),
    {
        self.len() == 0
    }

    /// Enqueue an event, evicting the oldest pending event if the
    /// queue is full.
    pub fn push_evict(&mut self, ev: KeyEvent)
        requires
            old(self).wf(),
        ensures
            final(self).wf(),
            final(self).events() == spec_push_evict(old(self).events(), ev),
    {
        let item = (ev.row, ev.col, ev.pressed);
        let ghost items0 = fifo_items(self.fifo);
        if !fifo_push_back(&mut self.fifo, item) {
            let _ = fifo_pop_front(&mut self.fifo);
            let _pushed = fifo_push_back(&mut self.fifo, item);
            proof {
                assert(fifo_items(self.fifo) == items0.drop_first().push(item));
            }
        }
        proof {
            assert(final(self).events() =~= spec_push_evict(old(self).events(), ev));
        }
    }

    /// Dequeue the oldest pending event, if any.
    pub fn pop(&mut self) -> (r: Option<KeyEvent>)
        requires
            old(self).wf(),
        ensures
            final(self).wf(),
            old(self).events().len() == 0 ==> r is None
                && final(self).events() == old(self).events(),
            old(self).events().len() > 0 ==> r == Some(old(self).events()[0])
                && final(self).events() == old(self).events().drop_first(),
    {
        let r = fifo_pop_front(&mut self.fifo);
        proof {
            if fifo_items(old(self).fifo).len() > 0 {
                assert(final(self).events() =~= old(self).events().drop_first());
            }
        }
        match r {
            Some(t) => Some(KeyEvent { row: t.0, col: t.1, pressed: t.2 }),
            None => None,
        }
    }
}

} // verus!
