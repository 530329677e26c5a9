//! Input events and the once-per-frame event queue.
//!
//! Events are collected between frames and drained exactly once per frame,
//! in arrival order. A ghost history records every batch that was ever
//! drained, so the contracts pin down that no event is dropped, none is
//! dispatched twice, and events arriving while a batch is dispatched are
//! deferred to the next batch.

use vstd::prelude::*;

verus! {

/// What a mouse did.
#[derive(Clone, Copy, PartialEq, Eq, Debug)]
pub enum MouseState {
    Pressed,
    Released,
    Moved,
}

/// A mouse event. The position is captured in physical pixels and rescaled
/// to logical pixels before it is dispatched to the application.
#[derive(Clone, Copy, PartialEq, Eq, Debug)]
pub struct MouseEvent {
    pub state: MouseState,
    pub position: (u32, u32),
}

/// Whether a key went down or up.
#[derive(Clone, Copy, PartialEq, Eq, Debug)]
pub enum KeyboardState {
    Pressed,
    Released,
}

/// A key with a fixed meaning.
#[derive(Clone, Copy, PartialEq, Eq, Debug)]
pub enum NamedKey {
    Enter,
    Tab,
    Space,
    Backspace,
    Delete,
    Escape,
    ArrowLeft,
    ArrowRight,
    ArrowUp,
    ArrowDown,
    Shift,
    Control,
}

/// A key: either a named key or the text it produces.
#[derive(Clone, PartialEq, Eq, Debug)]
pub enum Key {
    Named(NamedKey),
    Character(String),
}

/// A keyboard event.
#[derive(Clone, PartialEq, Eq, Debug)]
pub struct KeyboardEvent {
    pub state: KeyboardState,
    pub key: Key,
}

/// One input event, a tagged variant over keyboard and mouse.
#[derive(Clone, PartialEq, Eq, Debug)]
pub enum Event {
    Keyboard(KeyboardEvent),
    Mouse(MouseEvent),
}

/// The ordered buffer of events pending for the next frame, plus the ghost
/// history of everything already handed out for dispatch.
pub struct EventQueue {
    pending: Vec<Event>,
    delivered: Ghost<Seq<Event>>,
}

impl EventQueue {
    /// The events waiting for the next frame, in arrival order.
    pub closed spec fn pending(self) -> Seq<Event> {
        self.pending@
    }

    /// Every event already handed out for dispatch, in dispatch order.
    pub closed spec fn delivered(self) -> Seq<Event> {
        self.delivered@
    }

    pub fn new() -> (q: EventQueue)
        ensures
            q.pending() == Seq::<Event>::empty(),
            q.delivered() == Seq::<Event>::empty(),
    {
        EventQueue { pending: Vec::new(), delivered: Ghost(Seq::empty()) }
    }

    /// Append one event. Safe to call at any time between or during frames;
    /// an event enqueued while a batch dispatches lands in the next batch.
    pub fn enqueue(&mut self, event: Event)
        ensures
            final(self).pending() == old(self).pending().push(event),
            final(self).delivered() == old(self).delivered(),
    {
        self.pending.push(event);
    }

    /// Remove and return the whole pending batch, in arrival order. Each
    /// event moves to the delivered history exactly once; the queue is left
    /// empty, so nothing in the returned batch can be handed out again.
    pub fn drain(&mut self) -> (batch: Vec<Event>)
        ensures
            batch@ == old(self).pending(),
            final(self).pending() == Seq::<Event>::empty(),
            final(self).delivered() == old(self).delivered() + old(self).pending(),
    {
        let mut batch: Vec<Event> = Vec::new();
        std::mem::swap(&mut batch, &mut self.pending);
        proof {
            self.delivered@ = self.delivered@ + batch@;
        }
        batch
    }

    /// How many events are pending.
    pub fn len(&self) -> (n: usize)
        ensures
            n == self.pending().len(),
    {
        self.pending.len()
    }
}

/// One operation on the queue: the platform or the application enqueues an
/// event, or a frame begins and drains the whole batch.
pub enum QueueOp {
    Enqueue(Event),
    Drain,
}

/// Every event the operations enqueue, in arrival order.
pub open spec fn enqueued_of(ops: Seq<QueueOp>) -> Seq<Event>
    decreases ops.len(),
{
    if ops.len() == 0 {
        Seq::empty()
    } else {
        enqueued_of(ops.drop_last()) + match ops.last() {
            QueueOp::Enqueue(e) => seq![e],
            QueueOp::Drain => Seq::<Event>::empty(),
        }
    }
}

/// The queue after a sequence of operations, as the pair of its pending
/// events and its delivered history — exactly the transitions `enqueue` and
/// `drain` promise.
pub open spec fn run_queue_ops(
    pending: Seq<Event>,
    delivered: Seq<Event>,
    ops: Seq<QueueOp>,
) -> (Seq<Event>, Seq<Event>)
    decreases ops.len(),
{
    if ops.len() == 0 {
        (pending, delivered)
    } else {
        let prev = run_queue_ops(pending, delivered, ops.drop_last());
        match ops.last() {
            QueueOp::Enqueue(e) => (prev.0.push(e), prev.1),
            QueueOp::Drain => (Seq::empty(), prev.1 + prev.0),
        }
    }
}

/// No event is ever dropped and none is dispatched twice: after any
/// interleaving of enqueues and batch drains, the delivered history followed
/// by the still-pending events is exactly the initial contents followed by
/// everything enqueued, in arrival order. Each drain moves the whole batch
/// to the history, so an event enqueued while a batch dispatches sits behind
/// that batch in this order and comes out with the next one.
pub proof fn lemma_events_conserved(
    pending: Seq<Event>,
    delivered: Seq<Event>,
    ops: Seq<QueueOp>,
)
    ensures
        ({
            let run = run_queue_ops(pending, delivered, ops);
            run.1 + run.0 == (delivered + pending) + enqueued_of(ops)
        }),
    decreases ops.len(),
{
    if ops.len() > 0 {
        lemma_events_conserved(pending, delivered, ops.drop_last());
        let prev = run_queue_ops(pending, delivered, ops.drop_last());
        let run = run_queue_ops(pending, delivered, ops);
        match ops.last() {
            QueueOp::Enqueue(e) => {
                assert(run.1 + run.0 =~= (prev.1 + prev.0).push(e));
                assert((delivered + pending) + enqueued_of(ops) =~= ((delivered + pending)
                    + enqueued_of(ops.drop_last())).push(e));
            },
            QueueOp::Drain => {
                assert(run.1 + run.0 =~= prev.1 + prev.0);
                assert(enqueued_of(ops) =~= enqueued_of(ops.drop_last()));
            },
        }
    } else {
        assert(run_queue_ops(pending, delivered, ops).1 + run_queue_ops(
            pending,
            delivered,
            ops,
        ).0 =~= (delivered + pending) + enqueued_of(ops));
    }
}

} // verus!
