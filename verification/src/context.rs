//! The per-frame draw-item accumulator and the application's handle on the
//! runtime.
//!
//! `clear` empties the frame's list and pushes a full-size background
//! rectangle at the maximum depth; every `draw` resolves its area and item
//! against the current dimensions and appends at a depth one step nearer
//! than the previous draw call, so insertion order determines paint order.
//! The whole list is drained exactly once per frame by the frame driver.

use vstd::prelude::*;

use crate::events::{Event, EventQueue, KeyboardEvent};
use crate::geometry::{Size, SizeView};
use crate::items::{
    resolve_area, resolve_area_spec, resolve_item, resolve_item_spec, Area, CanvasItem, Color,
    ResolvedArea, Shape,
};
use crate::scheduler::{sat_add, Callback, PendingTask, Scheduler};
use crate::state::{apply_commands, State};

verus! {

/// The depth assigned to the `draw_calls`-th draw call since the last clear
/// or drain: one step nearer than the call before, starting just in front of
/// the background depth `u16::MAX`.
pub open spec fn draw_z(draw_calls: int) -> int {
    65534 - draw_calls
}

/// What the background pushed by `clear` resolves to: the full current
/// dimensions at the maximum depth, behind everything drawn afterwards.
pub open spec fn background_component(s: SizeView, color: Color) -> (ResolvedArea, CanvasItem) {
    (
        resolve_area_spec(Area((0, 0), None), u16::MAX, s),
        resolve_item_spec(
            CanvasItem::Shape(
                Shape::Rectangle(0, (s.logical_width as u32, s.logical_height as u32)),
                color,
            ),
            s.ratio_milli,
        ),
    )
}

/// One call the application makes against the accumulator within a frame.
pub enum CanvasOp {
    Clear(Color),
    Draw(Area, CanvasItem),
}

/// What one call does to the accumulator: `Clear` restarts the list with
/// the background, `Draw` appends at the next depth.
pub open spec fn apply_canvas_op(
    items: Seq<(ResolvedArea, CanvasItem)>,
    draw_calls: int,
    op: CanvasOp,
    s: SizeView,
) -> (Seq<(ResolvedArea, CanvasItem)>, int) {
    match op {
        CanvasOp::Clear(color) => (seq![background_component(s, color)], 0),
        CanvasOp::Draw(area, item) => (
            items.push(
                (
                    resolve_area_spec(area, draw_z(draw_calls) as u16, s),
                    resolve_item_spec(item, s.ratio_milli),
                ),
            ),
            draw_calls + 1,
        ),
    }
}

/// A sequence of calls, first call first.
pub open spec fn run_canvas_ops(
    items: Seq<(ResolvedArea, CanvasItem)>,
    draw_calls: int,
    ops: Seq<CanvasOp>,
    s: SizeView,
) -> (Seq<(ResolvedArea, CanvasItem)>, int)
    decreases ops.len(),
{
    if ops.len() == 0 {
        (items, draw_calls)
    } else {
        let stepped = apply_canvas_op(items, draw_calls, ops[0], s);
        run_canvas_ops(stepped.0, stepped.1, ops.skip(1), s)
    }
}

/// The depth structure an accumulator reached by clears and draws always
/// has: depths strictly decrease along the list, the number of items is the
/// number of draw calls plus possibly the background, and the background,
/// when present, sits first at the maximum depth.
pub open spec fn z_ordered(items: Seq<(ResolvedArea, CanvasItem)>, draw_calls: int) -> bool {
    &&& 0 <= draw_calls
    &&& (items.len() == draw_calls || items.len() == draw_calls + 1)
    &&& (items.len() > 0 ==> items.last().0.z == 65535 - draw_calls)
    &&& (items.len() == draw_calls + 1 ==> items[0].0.z == 65535)
    &&& forall|i: int, j: int|
        #![trigger items[i], items[j]]
        0 <= i < j < items.len() ==> items[j].0.z < items[i].0.z
}

proof fn lemma_run_keeps_z_ordered(
    items: Seq<(ResolvedArea, CanvasItem)>,
    draw_calls: int,
    ops: Seq<CanvasOp>,
    s: SizeView,
)
    requires
        z_ordered(items, draw_calls),
        draw_calls + ops.len() <= 65535,
    ensures
        z_ordered(
            run_canvas_ops(items, draw_calls, ops, s).0,
            run_canvas_ops(items, draw_calls, ops, s).1,
        ),
        run_canvas_ops(items, draw_calls, ops, s).1 <= draw_calls + ops.len(),
    decreases ops.len(),
{
    if ops.len() > 0 {
        let stepped = apply_canvas_op(items, draw_calls, ops[0], s);
        match ops[0] {
            CanvasOp::Clear(color) => {
                assert(z_ordered(stepped.0, stepped.1));
            },
            CanvasOp::Draw(area, item) => {
                let c = (
                    resolve_area_spec(area, draw_z(draw_calls) as u16, s),
                    resolve_item_spec(item, s.ratio_milli),
                );
                assert(draw_calls <= 65534);
                assert(c.0.z == 65534 - draw_calls);
                assert(stepped.0 == items.push(c));
                assert(stepped.0.last() == c);
                assert forall|i: int, j: int|
                    #![trigger stepped.0[i], stepped.0[j]]
                    0 <= i < j < stepped.0.len() implies stepped.0[j].0.z < stepped.0[i].0.z by {
                    if j < items.len() {
                        assert(stepped.0[i] == items[i]);
                        assert(stepped.0[j] == items[j]);
                    } else {
                        assert(stepped.0[j] == c);
                        assert(stepped.0[i] == items[i]);
                        if i < items.len() - 1 {
                            assert(items[i].0.z > items[items.len() - 1].0.z);
                            assert(items.last() == items[items.len() - 1]);
                        } else {
                            assert(items[i] == items.last());
                        }
                    }
                }
                assert(z_ordered(stepped.0, stepped.1));
            },
        }
        lemma_run_keeps_z_ordered(stepped.0, stepped.1, ops.skip(1), s);
    }
}

/// Paint order matches call order, and the background stays in the back.
/// For any sequence of clear and draw calls made within one frame, the
/// resulting list has strictly decreasing depths: every item drawn by a
/// later call is strictly nearer than every earlier one, so later calls
/// paint over earlier ones wherever they overlap. And whenever the
/// background pushed by the last `clear` is present, it sits first at depth
/// `u16::MAX`, strictly further back than every item drawn after it.
pub proof fn lemma_paint_order(ops: Seq<CanvasOp>, s: SizeView)
    requires
        ops.len() <= 65535,
    ensures
        ({
            let run = run_canvas_ops(Seq::empty(), 0, ops, s);
            &&& forall|i: int, j: int|
                #![trigger run.0[i], run.0[j]]
                0 <= i < j < run.0.len() ==> run.0[j].0.z < run.0[i].0.z
            &&& run.0.len() == run.1 + 1 ==> run.0[0].0.z == 65535 && (forall|i: int|
                1 <= i < run.0.len() ==> (#[trigger] run.0[i]).0.z < 65535)
        }),
{
    lemma_run_keeps_z_ordered(Seq::empty(), 0, ops, s);
    let run = run_canvas_ops(Seq::empty(), 0, ops, s);
    if run.0.len() == run.1 + 1 {
        assert forall|i: int| 1 <= i < run.0.len() implies (#[trigger] run.0[i]).0.z < 65535 by {
            assert(run.0[i].0.z < run.0[0].0.z);
        }
    }
}

/// The application's handle on the runtime for the current frame: the
/// draw-item accumulator, the current dimensions, the shared state store,
/// the task scheduler and the queue of events triggered by the application
/// itself.
pub struct CanvasContext {
    components: Vec<(ResolvedArea, CanvasItem)>,
    draw_count: u32,
    scheduler: Scheduler,
    size: Size,
    state: State,
    triggered: EventQueue,
}

impl CanvasContext {
    /// The accumulated frame, in submission order.
    pub closed spec fn items(self) -> Seq<(ResolvedArea, CanvasItem)> {
        self.components@
    }

    /// How many draw calls were made since the last clear or drain.
    pub closed spec fn draw_calls(self) -> int {
        self.draw_count as int
    }

    /// The current dimensions.
    pub closed spec fn size_view(self) -> SizeView {
        self.size@
    }

    /// The shared state store.
    pub closed spec fn state_val(self) -> State {
        self.state
    }

    /// The task scheduler.
    pub closed spec fn scheduler_val(self) -> Scheduler {
        self.scheduler
    }

    /// The queue of events awaiting the next frame.
    pub closed spec fn queue_val(self) -> EventQueue {
        self.triggered
    }

    /// A fresh context for the given dimensions: nothing accumulated,
    /// nothing scheduled, nothing queued, an empty state store.
    pub fn new(size: Size) -> (ctx: CanvasContext)
        ensures
            ctx.items() == Seq::<(ResolvedArea, CanvasItem)>::empty(),
            ctx.draw_calls() == 0,
            ctx.size_view() == size@,
            ctx.state_val()@ == Map::<u64, u64>::empty(),
            ctx.scheduler_val().next_id() == 0,
            ctx.scheduler_val().pending() == Seq::<PendingTask>::empty(),
            ctx.scheduler_val().callbacks() == Seq::<Callback>::empty(),
            ctx.scheduler_val().applied() == Seq::<Callback>::empty(),
            ctx.queue_val().pending() == Seq::<Event>::empty(),
            ctx.queue_val().delivered() == Seq::<Event>::empty(),
    {
        CanvasContext {
            components: Vec::new(),
            draw_count: 0,
            scheduler: Scheduler::new(),
            size,
            state: State::new(),
            triggered: EventQueue::new(),
        }
    }

    /// Empty the frame and push the background: a rectangle covering the
    /// full current dimensions in the given color, at the maximum depth,
    /// behind everything drawn afterwards.
    pub fn clear(&mut self, color: Color)
        ensures
            final(self).items() == apply_canvas_op(
                old(self).items(),
                old(self).draw_calls(),
                CanvasOp::Clear(color),
                old(self).size_view(),
            ).0,
            final(self).draw_calls() == 0,
            final(self).size_view() == old(self).size_view(),
            final(self).state_val() == old(self).state_val(),
            final(self).scheduler_val() == old(self).scheduler_val(),
            final(self).queue_val() == old(self).queue_val(),
    {
        self.components.clear();
        let (logical_width, logical_height) = self.size.logical();
        let background_area = resolve_area(Area((0, 0), None), u16::MAX, &self.size);
        let background_item = resolve_item(
            CanvasItem::Shape(Shape::Rectangle(0, (logical_width, logical_height)), color),
            &self.size,
        );
        self.components.push((background_area, background_item));
        self.draw_count = 0;
        proof {
            assert(self.components@ =~= seq![
                background_component(old(self).size_view(), color),
            ]);
        }
    }

    /// Resolve the area and item against the current dimensions and append
    /// them at the next depth: one step nearer than the previous draw call.
    pub fn draw(&mut self, area: Area, item: CanvasItem)
        requires
            old(self).draw_calls() < 65535,
        ensures
            final(self).items() == apply_canvas_op(
                old(self).items(),
                old(self).draw_calls(),
                CanvasOp::Draw(area, item),
                old(self).size_view(),
            ).0,
            final(self).draw_calls() == old(self).draw_calls() + 1,
            final(self).size_view() == old(self).size_view(),
            final(self).state_val() == old(self).state_val(),
            final(self).scheduler_val() == old(self).scheduler_val(),
            final(self).queue_val() == old(self).queue_val(),
    {
        let z = (65534 - self.draw_count) as u16;
        let resolved_area = resolve_area(area, z, &self.size);
        let resolved_item = resolve_item(item, &self.size);
        self.components.push((resolved_area, resolved_item));
        self.draw_count = self.draw_count + 1;
    }

    /// Remove and return the whole frame, in submission order, and reset the
    /// depth counter. Called exactly once per frame by the frame driver,
    /// after the application's tick callback returns.
    pub fn drain(&mut self) -> (items: Vec<(ResolvedArea, CanvasItem)>)
        ensures
            items@ == old(self).items(),
            final(self).items() == Seq::<(ResolvedArea, CanvasItem)>::empty(),
            final(self).draw_calls() == 0,
            final(self).size_view() == old(self).size_view(),
            final(self).state_val() == old(self).state_val(),
            final(self).scheduler_val() == old(self).scheduler_val(),
            final(self).queue_val() == old(self).queue_val(),
    {
        let mut items: Vec<(ResolvedArea, CanvasItem)> = Vec::new();
        std::mem::swap(&mut items, &mut self.components);
        self.draw_count = 0;
        items
    }

    /// The shared state store, mutable only on the owning thread.
    pub fn state(&mut self) -> (r: &mut State)
        ensures
            *r == old(self).state_val(),
            final(self).state_val() == *final(r),
            final(self).items() == old(self).items(),
            final(self).draw_calls() == old(self).draw_calls(),
            final(self).size_view() == old(self).size_view(),
            final(self).scheduler_val() == old(self).scheduler_val(),
            final(self).queue_val() == old(self).queue_val(),
    {
        &mut self.state
    }

    /// The shared state store, read-only.
    pub fn state_ref(&self) -> (r: &State)
        ensures
            *r == self.state_val(),
    {
        &self.state
    }

    /// The current dimensions.
    pub fn current_size(&self) -> (s: Size)
        ensures
            s@ == self.size_view(),
    {
        self.size
    }

    /// Register background work at time `now`: it must not run before
    /// `delay_ms` elapses, and its callback will mutate the shared state at
    /// the frame driver's fixed point. Returns the task's identifier.
    pub fn schedule_task(&mut self, now: u64, delay_ms: u64) -> (id: u64)
        ensures
            id == old(self).scheduler_val().next_id(),
            final(self).scheduler_val().next_id() == sat_add(old(self).scheduler_val().next_id(), 1),
            final(self).scheduler_val().pending() == old(self).scheduler_val().pending().push(
                PendingTask { id, due_at: sat_add(now as int, delay_ms as int) as u64 },
            ),
            final(self).scheduler_val().callbacks() == old(self).scheduler_val().callbacks(),
            final(self).scheduler_val().applied() == old(self).scheduler_val().applied(),
            final(self).items() == old(self).items(),
            final(self).draw_calls() == old(self).draw_calls(),
            final(self).size_view() == old(self).size_view(),
            final(self).state_val() == old(self).state_val(),
            final(self).queue_val() == old(self).queue_val(),
    {
        self.scheduler.schedule(now, delay_ms)
    }

    /// Enqueue a keyboard event for the next frame, as if the platform had
    /// delivered it: dispatched once, in order, never during the current
    /// dispatch.
    pub fn trigger_keyboard(&mut self, event: KeyboardEvent)
        ensures
            final(self).queue_val().pending() == old(self).queue_val().pending().push(
                Event::Keyboard(event),
            ),
            final(self).queue_val().delivered() == old(self).queue_val().delivered(),
            final(self).items() == old(self).items(),
            final(self).draw_calls() == old(self).draw_calls(),
            final(self).size_view() == old(self).size_view(),
            final(self).state_val() == old(self).state_val(),
            final(self).scheduler_val() == old(self).scheduler_val(),
    {
        self.triggered.enqueue(Event::Keyboard(event));
    }

    /// Enqueue any event for the next frame.
    pub(crate) fn enqueue_event(&mut self, event: Event)
        ensures
            final(self).queue_val().pending() == old(self).queue_val().pending().push(event),
            final(self).queue_val().delivered() == old(self).queue_val().delivered(),
            final(self).items() == old(self).items(),
            final(self).draw_calls() == old(self).draw_calls(),
            final(self).size_view() == old(self).size_view(),
            final(self).state_val() == old(self).state_val(),
            final(self).scheduler_val() == old(self).scheduler_val(),
    {
        self.triggered.enqueue(event);
    }

    /// Remove and return the whole pending event batch for dispatch.
    pub(crate) fn drain_events(&mut self) -> (batch: Vec<Event>)
        ensures
            batch@ == old(self).queue_val().pending(),
            final(self).queue_val().pending() == Seq::<Event>::empty(),
            final(self).queue_val().delivered() == old(self).queue_val().delivered() + old(
                self,
            ).queue_val().pending(),
            final(self).items() == old(self).items(),
            final(self).draw_calls() == old(self).draw_calls(),
            final(self).size_view() == old(self).size_view(),
            final(self).state_val() == old(self).state_val(),
            final(self).scheduler_val() == old(self).scheduler_val(),
    {
        self.triggered.drain()
    }

    /// Hand over the callbacks that arrived since the previous frame.
    pub(crate) fn take_callbacks(&mut self) -> (cbs: Vec<Callback>)
        ensures
            cbs@ == old(self).scheduler_val().callbacks(),
            final(self).scheduler_val().callbacks() == Seq::<Callback>::empty(),
            final(self).scheduler_val().applied() == old(self).scheduler_val().applied() + old(
                self,
            ).scheduler_val().callbacks(),
            final(self).scheduler_val().pending() == old(self).scheduler_val().pending(),
            final(self).scheduler_val().next_id() == old(self).scheduler_val().next_id(),
            final(self).items() == old(self).items(),
            final(self).draw_calls() == old(self).draw_calls(),
            final(self).size_view() == old(self).size_view(),
            final(self).state_val() == old(self).state_val(),
            final(self).queue_val() == old(self).queue_val(),
    {
        self.scheduler.take_callbacks()
    }

    /// Apply one callback's commands to the shared state store, in order.
    pub(crate) fn apply_callback(&mut self, cb: &Callback)
        ensures
            final(self).state_val()@ == apply_commands(cb.commands@, old(self).state_val()@),
            final(self).items() == old(self).items(),
            final(self).draw_calls() == old(self).draw_calls(),
            final(self).size_view() == old(self).size_view(),
            final(self).scheduler_val() == old(self).scheduler_val(),
            final(self).queue_val() == old(self).queue_val(),
    {
        self.state.apply_all(&cb.commands);
    }

    /// Hand out every task execution due at `now`.
    pub(crate) fn take_due(&mut self, now: u64) -> (due: Vec<PendingTask>)
        ensures
            due@ == crate::scheduler::due_part(old(self).scheduler_val().pending(), now as int),
            final(self).scheduler_val().pending() == crate::scheduler::rest_part(
                old(self).scheduler_val().pending(),
                now as int,
            ),
            final(self).scheduler_val().callbacks() == old(self).scheduler_val().callbacks(),
            final(self).scheduler_val().applied() == old(self).scheduler_val().applied(),
            final(self).scheduler_val().next_id() == old(self).scheduler_val().next_id(),
            final(self).items() == old(self).items(),
            final(self).draw_calls() == old(self).draw_calls(),
            final(self).size_view() == old(self).size_view(),
            final(self).state_val() == old(self).state_val(),
            final(self).queue_val() == old(self).queue_val(),
    {
        self.scheduler.take_due(now)
    }

    /// Report one completed task execution.
    pub(crate) fn complete_task(
        &mut self,
        task_id: u64,
        now: u64,
        next_delay: Option<u64>,
        commands: Vec<crate::state::StateCommand>,
    )
        ensures
            final(self).scheduler_val().callbacks() == old(self).scheduler_val().callbacks().push(
                Callback { task_id, commands },
            ),
            final(self).scheduler_val().pending() == match next_delay {
                Some(delay) => old(self).scheduler_val().pending().push(
                    PendingTask { id: task_id, due_at: sat_add(now as int, delay as int) as u64 },
                ),
                None => old(self).scheduler_val().pending(),
            },
            final(self).scheduler_val().next_id() == old(self).scheduler_val().next_id(),
            final(self).scheduler_val().applied() == old(self).scheduler_val().applied(),
            final(self).items() == old(self).items(),
            final(self).draw_calls() == old(self).draw_calls(),
            final(self).size_view() == old(self).size_view(),
            final(self).state_val() == old(self).state_val(),
            final(self).queue_val() == old(self).queue_val(),
    {
        self.scheduler.complete(task_id, now, next_delay, commands);
    }

    /// Replace the current dimensions; the frame driver calls this when the
    /// window resizes.
    pub(crate) fn set_size(&mut self, size: Size)
        ensures
            final(self).size_view() == size@,
            final(self).items() == old(self).items(),
            final(self).draw_calls() == old(self).draw_calls(),
            final(self).state_val() == old(self).state_val(),
            final(self).scheduler_val() == old(self).scheduler_val(),
            final(self).queue_val() == old(self).queue_val(),
    {
        self.size = size;
    }
}

} // verus!
