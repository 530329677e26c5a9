//! The task scheduler and its callback queue.
//!
//! Background work is registered with a delay; a worker outside this crate
//! picks executions up once they are due, runs them, and reports each
//! completion with an optional reschedule delay and a batch of state
//! commands. The commands queue here, in arrival order, until the frame
//! driver applies them to the shared state store at its fixed point in the
//! frame. A ghost history records every callback handed over for
//! application, so the contracts pin down exactly-once, in-order delivery.

use vstd::prelude::*;

use crate::state::StateCommand;

verus! {

/// One registered execution of a scheduled task: its identifier and the
/// earliest time it may run, in milliseconds of runtime time.
#[derive(Clone, Copy, PartialEq, Eq, Debug)]
pub struct PendingTask {
    pub id: u64,
    pub due_at: u64,
}

/// What a completed task execution hands back for the owning thread: the
/// task it came from and the state mutations to apply.
#[derive(Clone, PartialEq, Eq, Debug)]
pub struct Callback {
    pub task_id: u64,
    pub commands: Vec<StateCommand>,
}

/// `a + b` capped at the largest representable time.
pub open spec fn sat_add(a: int, b: int) -> int {
    if a + b > u64::MAX {
        u64::MAX as int
    } else {
        a + b
    }
}

/// The registered executions that are due at `now`, in registration order.
pub open spec fn due_part(s: Seq<PendingTask>, now: int) -> Seq<PendingTask>
    decreases s.len(),
{
    if s.len() == 0 {
        Seq::empty()
    } else {
        due_part(s.drop_last(), now) + if s.last().due_at <= now {
            seq![s.last()]
        } else {
            Seq::<PendingTask>::empty()
        }
    }
}

/// The registered executions that are not yet due at `now`, in order.
pub open spec fn rest_part(s: Seq<PendingTask>, now: int) -> Seq<PendingTask>
    decreases s.len(),
{
    if s.len() == 0 {
        Seq::empty()
    } else {
        rest_part(s.drop_last(), now) + if s.last().due_at > now {
            seq![s.last()]
        } else {
            Seq::<PendingTask>::empty()
        }
    }
}

/// The scheduler: registered executions, callbacks that arrived since the
/// previous frame, and the ghost history of callbacks already applied.
pub struct Scheduler {
    next_id: u64,
    pending: Vec<PendingTask>,
    callbacks: Vec<Callback>,
    applied: Ghost<Seq<Callback>>,
}

impl Scheduler {
    /// The identifier the next registered task will get.
    pub closed spec fn next_id(self) -> int {
        self.next_id as int
    }

    /// The registered executions, in registration order.
    pub closed spec fn pending(self) -> Seq<PendingTask> {
        self.pending@
    }

    /// The callbacks that arrived and were not applied yet, in arrival order.
    pub closed spec fn callbacks(self) -> Seq<Callback> {
        self.callbacks@
    }

    /// Every callback already handed over for application, in order.
    pub closed spec fn applied(self) -> Seq<Callback> {
        self.applied@
    }

    pub fn new() -> (s: Scheduler)
        ensures
            s.next_id() == 0,
            s.pending() == Seq::<PendingTask>::empty(),
            s.callbacks() == Seq::<Callback>::empty(),
            s.applied() == Seq::<Callback>::empty(),
    {
        Scheduler {
            next_id: 0,
            pending: Vec::new(),
            callbacks: Vec::new(),
            applied: Ghost(Seq::empty()),
        }
    }

    /// Register a task at time `now` with the given delay: it must not run
    /// before `now + delay_ms`. Returns the task's identifier.
    pub fn schedule(&mut self, now: u64, delay_ms: u64) -> (id: u64)
        ensures
            id == old(self).next_id(),
            final(self).next_id() == sat_add(old(self).next_id(), 1),
            final(self).pending() == old(self).pending().push(
                PendingTask { id, due_at: sat_add(now as int, delay_ms as int) as u64 },
            ),
            final(self).callbacks() == old(self).callbacks(),
            final(self).applied() == old(self).applied(),
    {
        let id = self.next_id;
        self.next_id = if self.next_id < u64::MAX {
            self.next_id + 1
        } else {
            u64::MAX
        };
        let due_at = if delay_ms > u64::MAX - now {
            u64::MAX
        } else {
            now + delay_ms
        };
        self.pending.push(PendingTask { id, due_at });
        id
    }

    /// Hand out every execution that is due at `now`, in registration order,
    /// and keep the rest. A worker outside the frame thread runs the returned
    /// executions; none of them can be handed out twice.
    pub fn take_due(&mut self, now: u64) -> (due: Vec<PendingTask>)
        ensures
            due@ == due_part(old(self).pending(), now as int),
            final(self).pending() == rest_part(old(self).pending(), now as int),
            final(self).next_id() == old(self).next_id(),
            final(self).callbacks() == old(self).callbacks(),
            final(self).applied() == old(self).applied(),
    {
        let mut all: Vec<PendingTask> = Vec::new();
        std::mem::swap(&mut all, &mut self.pending);
        let mut due: Vec<PendingTask> = Vec::new();
        let mut kept: Vec<PendingTask> = Vec::new();
        let n = all.len();
        let mut i: usize = 0;
        while i < n
            invariant
                n == all@.len(),
                0 <= i <= n,
                due@ == due_part(all@.subrange(0, i as int), now as int),
                kept@ == rest_part(all@.subrange(0, i as int), now as int),
            decreases n - i,
        {
            let t = all[i];
            if t.due_at <= now {
                due.push(t);
            } else {
                kept.push(t);
            }
            proof {
                assert(all@.subrange(0, i + 1).drop_last() =~= all@.subrange(0, i as int));
                assert(all@.subrange(0, i + 1).last() == all@[i as int]);
                assert(due@ =~= due_part(all@.subrange(0, i + 1), now as int));
                assert(kept@ =~= rest_part(all@.subrange(0, i + 1), now as int));
            }
            i += 1;
        }
        proof {
            assert(all@.subrange(0, n as int) =~= all@);
        }
        self.pending = kept;
        due
    }

    /// Report one completed execution at time `now`: queue its callback and,
    /// if the task asked to run again after `delay`, register it anew with
    /// `due_at = now + delay`; a task that returned no delay is not
    /// re-registered.
    pub fn complete(
        &mut self,
        task_id: u64,
        now: u64,
        next_delay: Option<u64>,
        commands: Vec<StateCommand>,
    )
        ensures
            final(self).callbacks() == old(self).callbacks().push(
                Callback { task_id, commands },
            ),
            final(self).pending() == match next_delay {
                Some(delay) => old(self).pending().push(
                    PendingTask { id: task_id, due_at: sat_add(now as int, delay as int) as u64 },
                ),
                None => old(self).pending(),
            },
            final(self).next_id() == old(self).next_id(),
            final(self).applied() == old(self).applied(),
    {
        self.callbacks.push(Callback { task_id, commands });
        match next_delay {
            Some(delay) => {
                let due_at = if delay > u64::MAX - now {
                    u64::MAX
                } else {
                    now + delay
                };
                self.pending.push(PendingTask { id: task_id, due_at });
            },
            None => {},
        }
    }

    /// Hand over every callback that arrived since the previous frame, in
    /// arrival order, for application to the shared state store. Each moves
    /// to the applied history exactly once; the queue is left empty.
    pub fn take_callbacks(&mut self) -> (cbs: Vec<Callback>)
        ensures
            cbs@ == old(self).callbacks(),
            final(self).callbacks() == Seq::<Callback>::empty(),
            final(self).applied() == old(self).applied() + old(self).callbacks(),
            final(self).pending() == old(self).pending(),
            final(self).next_id() == old(self).next_id(),
    {
        let mut cbs: Vec<Callback> = Vec::new();
        std::mem::swap(&mut cbs, &mut self.callbacks);
        proof {
            self.applied@ = self.applied@ + cbs@;
        }
        cbs
    }
}

/// A task is only ever handed out once its due time has passed, and only if
/// it was registered: everything `take_due` returns comes from the pending
/// list and satisfies `due_at <= now`.
pub proof fn lemma_due_only_when_elapsed(s: Seq<PendingTask>, now: int)
    ensures
        forall|t: PendingTask|
            #[trigger] due_part(s, now).contains(t) ==> s.contains(t) && t.due_at <= now,
    decreases s.len(),
{
    if s.len() > 0 {
        lemma_due_only_when_elapsed(s.drop_last(), now);
        assert forall|t: PendingTask| #[trigger] due_part(s, now).contains(t) implies s.contains(
            t,
        ) && t.due_at <= now by {
            if due_part(s.drop_last(), now).contains(t) {
                let i = choose|i: int|
                    0 <= i < s.drop_last().len() && s.drop_last()[i] == t;
                assert(s[i] == t);
            } else {
                assert(t == s.last());
                assert(s[s.len() - 1] == t);
            }
        }
    }
}

/// An execution re-registered with delay `d` at completion time `c` has
/// `due_at = c + d`, so before `c + d` elapses the new registration adds
/// nothing to the due set: the task is not re-invoked early.
pub proof fn lemma_reschedule_waits(s: Seq<PendingTask>, entry: PendingTask, now: int)
    requires
        entry.due_at > now,
    ensures
        due_part(s.push(entry), now) == due_part(s, now),
{
    assert(s.push(entry).drop_last() =~= s);
    assert(s.push(entry).last() == entry);
    assert(due_part(s.push(entry), now) =~= due_part(s, now));
}

/// One operation on the callback queue: a task execution completes and its
/// callback arrives, or a frame takes the whole batch for application.
pub enum CallbackOp {
    Arrive(Callback),
    TakeAll,
}

/// Every callback the operations deliver, in completion order.
pub open spec fn arrived_of(ops: Seq<CallbackOp>) -> Seq<Callback>
    decreases ops.len(),
{
    if ops.len() == 0 {
        Seq::empty()
    } else {
        arrived_of(ops.drop_last()) + match ops.last() {
            CallbackOp::Arrive(cb) => seq![cb],
            CallbackOp::TakeAll => Seq::<Callback>::empty(),
        }
    }
}

/// The callback queue after a sequence of operations, as the pair of its
/// queued callbacks and its applied history — exactly the transitions
/// `complete` and `take_callbacks` promise.
pub open spec fn run_callback_ops(
    queued: Seq<Callback>,
    applied: Seq<Callback>,
    ops: Seq<CallbackOp>,
) -> (Seq<Callback>, Seq<Callback>)
    decreases ops.len(),
{
    if ops.len() == 0 {
        (queued, applied)
    } else {
        let prev = run_callback_ops(queued, applied, ops.drop_last());
        match ops.last() {
            CallbackOp::Arrive(cb) => (prev.0.push(cb), prev.1),
            CallbackOp::TakeAll => (Seq::empty(), prev.1 + prev.0),
        }
    }
}

/// Every callback is applied exactly once, in arrival order: after any
/// interleaving of completions and per-frame applications, the applied
/// history followed by the still-queued callbacks is exactly the initial
/// contents followed by every callback that arrived, in completion order —
/// FIFO across tasks, none lost, none applied twice.
pub proof fn lemma_callbacks_conserved(
    queued: Seq<Callback>,
    applied: Seq<Callback>,
    ops: Seq<CallbackOp>,
)
    ensures
        ({
            let run = run_callback_ops(queued, applied, ops);
            run.1 + run.0 == (applied + queued) + arrived_of(ops)
        }),
    decreases ops.len(),
{
    if ops.len() > 0 {
        lemma_callbacks_conserved(queued, applied, ops.drop_last());
        let prev = run_callback_ops(queued, applied, ops.drop_last());
        let run = run_callback_ops(queued, applied, ops);
        match ops.last() {
            CallbackOp::Arrive(cb) => {
                assert(run.1 + run.0 =~= (prev.1 + prev.0).push(cb));
                assert((applied + queued) + arrived_of(ops) =~= ((applied + queued) + arrived_of(
                    ops.drop_last(),
                )).push(cb));
            },
            CallbackOp::TakeAll => {
                assert(run.1 + run.0 =~= prev.1 + prev.0);
                assert(arrived_of(ops) =~= arrived_of(ops.drop_last()));
            },
        }
    } else {
        assert(run_callback_ops(queued, applied, ops).1 + run_callback_ops(
            queued,
            applied,
            ops,
        ).0 =~= (applied + queued) + arrived_of(ops));
    }
}

} // verus!
