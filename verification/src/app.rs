//! The frame driver.
//!
//! `CanvasApp` orchestrates one frame in a fixed order: drain the event
//! queue and dispatch each event to the application, apply every scheduler
//! callback that arrived since the previous frame to the shared state
//! store, run the application's tick callback, and drain the accumulated
//! draw items for the meshing and rendering collaborators outside this
//! crate. Resize requests reconfigure the surface model and rebuild the
//! dimensions before the application is notified.

use vstd::prelude::*;

use crate::context::CanvasContext;
use crate::events::{Event, KeyboardEvent, MouseEvent};
use crate::geometry::Size;
use crate::items::{CanvasItem, ResolvedArea};
use crate::scheduler::{due_part, rest_part, sat_add, Callback, PendingTask};
use crate::state::{apply_commands, StateCommand};
use crate::surface::{initial_surface_view, resize_view, SurfaceManager, SurfaceView};

verus! {

/// The callback interface an application implements. All coordinates handed
/// to the application are logical pixels. The runtime makes no assumption
/// about what a callback does: each receives the context and may draw,
/// schedule work, mutate the shared state or trigger events freely.
pub trait CanvasAppTrait: Sized {
    /// Create the application state; `width` and `height` are the logical
    /// dimensions at startup, the same ones the context's dimensions hold.
    fn new(ctx: &mut CanvasContext, width: u32, height: u32) -> Self
        requires
            width as int == old(ctx).size_view().logical_width,
            height as int == old(ctx).size_view().logical_height,
    ;

    /// The window was resized to the given logical dimensions, the same
    /// ones the context's dimensions hold.
    fn on_resize(&mut self, ctx: &mut CanvasContext, width: u32, height: u32)
        requires
            width as int == old(ctx).size_view().logical_width,
            height as int == old(ctx).size_view().logical_height,
    ;

    /// One frame is being prepared; draw here.
    fn on_tick(&mut self, ctx: &mut CanvasContext);

    /// A mouse event arrived, its position already in logical pixels.
    fn on_mouse(&mut self, ctx: &mut CanvasContext, event: MouseEvent);

    /// A keyboard event arrived.
    fn on_keyboard(&mut self, ctx: &mut CanvasContext, event: KeyboardEvent);
}

/// The frame driver: owns the context the application draws into, the
/// surface configuration, and the application itself.
pub struct CanvasApp<A: CanvasAppTrait> {
    context: CanvasContext,
    surface: SurfaceManager,
    app: A,
}

impl<A: CanvasAppTrait> CanvasApp<A> {
    /// The application's context.
    pub closed spec fn context_val(self) -> CanvasContext {
        self.context
    }

    /// The surface configuration.
    pub closed spec fn surface_view(self) -> SurfaceView {
        self.surface@
    }

    /// Create the driver: configure the surface for the requested physical
    /// dimensions (clamped to the device maximum), derive the logical
    /// dimensions, and hand a fresh context to the application's
    /// constructor. Afterwards the context holds exactly the dimensions the
    /// surface was configured with, at the given ratio.
    pub fn new(width: u32, height: u32, ratio_milli: u32, max_dimension: u32) -> (s: Self)
        requires
            ratio_milli >= 1,
        ensures
            ({
                let configured = resize_view(
                    initial_surface_view(max_dimension as int),
                    width as int,
                    height as int,
                );
                &&& s.surface_view() == configured
                &&& s.context_val().size_view() == Size::of(
                    configured.width,
                    configured.height,
                    ratio_milli as int,
                )
            }),
    {
        let mut surface = SurfaceManager::new(max_dimension);
        let (w, h) = surface.resize(width, height);
        let size = Size::new(w, h, ratio_milli);
        let mut context = CanvasContext::new(size);
        let (logical_width, logical_height) = size.logical();
        let app = A::new(&mut context, logical_width, logical_height);
        // no context operation changes the dimensions, but the constructor
        // receives the context opaquely; restate the size so the contract
        // carries past that call
        context.set_size(size);
        CanvasApp { context, surface, app }
    }

    /// The current dimensions.
    pub fn size(&self) -> (s: Size)
        ensures
            s@ == self.context_val().size_view(),
    {
        self.context.current_size()
    }

    /// Look one field of the shared state store up.
    pub fn state_get(&self, key: u64) -> (r: Option<u64>)
        ensures
            r == if self.context_val().state_val()@.dom().contains(key) {
                Some(self.context_val().state_val()@[key])
            } else {
                None::<u64>
            },
    {
        self.context.state_ref().get(key)
    }

    /// The configured surface dimensions.
    pub fn surface_dimensions(&self) -> (r: (u32, u32))
        ensures
            r.0 == self.surface_view().width,
            r.1 == self.surface_view().height,
    {
        self.surface.dimensions()
    }

    /// How often the multisample and the depth-stencil target were created.
    pub fn surface_recreations(&self) -> (r: (u64, u64))
        ensures
            r.0 == self.surface_view().msaa_recreations,
            r.1 == self.surface_view().depth_recreations,
    {
        self.surface.recreations()
    }

    /// The window was resized. A zero ratio is degenerate input: the whole
    /// request is ignored. Otherwise the surface is reconfigured exactly
    /// where both dimensions are positive and differ from the current ones
    /// (a zero dimension leaves it untouched), the context's dimensions are
    /// rebuilt atomically from the configured surface dimensions and the
    /// given ratio, and the application is notified with the new logical
    /// dimensions before the next tick runs.
    pub fn on_resize(&mut self, width: u32, height: u32, ratio_milli: u32)
        ensures
            ratio_milli == 0 ==> *final(self) == *old(self),
            ratio_milli >= 1 ==> ({
                let configured = resize_view(
                    old(self).surface_view(),
                    width as int,
                    height as int,
                );
                &&& final(self).surface_view() == configured
                &&& final(self).context_val().size_view() == Size::of(
                    configured.width,
                    configured.height,
                    ratio_milli as int,
                )
            }),
    {
        if ratio_milli == 0 {
            return ;
        }
        let (w, h) = self.surface.resize(width, height);
        let size = Size::new(w, h, ratio_milli);
        self.context.set_size(size);
        let (logical_width, logical_height) = size.logical();
        self.app.on_resize(&mut self.context, logical_width, logical_height);
        // the callback cannot alter the dimensions, but it receives the
        // context opaquely; restate the size so the contract carries past
        // that call
        self.context.set_size(size);
    }

    /// Prepare one frame, strictly in order: dispatch the pending event
    /// batch (events arriving during dispatch wait for the next frame),
    /// apply the scheduler callbacks that arrived since the previous frame
    /// to the shared state store, run the application's tick callback, and
    /// drain the accumulated draw items. The returned items, in submission
    /// order, belong to this frame alone: the accumulator is left empty.
    pub fn prepare(&mut self) -> (items: Vec<(ResolvedArea, CanvasItem)>)
        ensures
            final(self).context_val().items() == Seq::<(ResolvedArea, CanvasItem)>::empty(),
            final(self).context_val().draw_calls() == 0,
            final(self).context_val().size_view() == old(self).context_val().size_view(),
            final(self).surface_view() == old(self).surface_view(),
    {
        let size = self.context.current_size();
        let mut batch = self.context.drain_events();
        while batch.len() > 0
            invariant
                self.surface == old(self).surface,
            decreases batch@.len(),
        {
            let event = batch.remove(0);
            match event {
                Event::Keyboard(e) => self.app.on_keyboard(&mut self.context, e),
                Event::Mouse(e) => {
                    let size = self.context.current_size();
                    let scaled = MouseEvent {
                        state: e.state,
                        position: (
                            size.scale_logical(e.position.0),
                            size.scale_logical(e.position.1),
                        ),
                    };
                    self.app.on_mouse(&mut self.context, scaled);
                },
            }
        }
        let mut callbacks = self.context.take_callbacks();
        while callbacks.len() > 0
            invariant
                self.surface == old(self).surface,
            decreases callbacks@.len(),
        {
            let cb = callbacks.remove(0);
            self.context.apply_callback(&cb);
        }
        self.app.on_tick(&mut self.context);
        let items = self.context.drain();
        // no callback can alter the dimensions; restate them so the whole
        // frame, and the frames that follow, keep one mapping
        self.context.set_size(size);
        items
    }

    /// Apply one callback to the shared state store, outside the batched
    /// per-frame application point.
    pub fn process_callback(&mut self, cb: &Callback)
        ensures
            final(self).context_val().state_val()@ == apply_commands(
                cb.commands@,
                old(self).context_val().state_val()@,
            ),
            final(self).context_val().items() == old(self).context_val().items(),
            final(self).context_val().draw_calls() == old(self).context_val().draw_calls(),
            final(self).context_val().size_view() == old(self).context_val().size_view(),
            final(self).context_val().scheduler_val() == old(self).context_val().scheduler_val(),
            final(self).context_val().queue_val() == old(self).context_val().queue_val(),
            final(self).surface_view() == old(self).surface_view(),
    {
        self.context.apply_callback(cb);
    }

    /// A mouse event arrived from the platform, its position in physical
    /// pixels; it is queued and will be dispatched, rescaled to logical
    /// pixels, when the next frame prepares.
    pub fn on_mouse(&mut self, event: MouseEvent)
        ensures
            final(self).context_val().queue_val().pending() == old(
                self,
            ).context_val().queue_val().pending().push(Event::Mouse(event)),
            final(self).context_val().queue_val().delivered() == old(
                self,
            ).context_val().queue_val().delivered(),
            final(self).context_val().items() == old(self).context_val().items(),
            final(self).context_val().draw_calls() == old(self).context_val().draw_calls(),
            final(self).context_val().size_view() == old(self).context_val().size_view(),
            final(self).context_val().state_val() == old(self).context_val().state_val(),
            final(self).context_val().scheduler_val() == old(self).context_val().scheduler_val(),
            final(self).surface_view() == old(self).surface_view(),
    {
        self.context.enqueue_event(Event::Mouse(event));
    }

    /// A keyboard event arrived from the platform; it is queued and will be
    /// dispatched when the next frame prepares.
    pub fn on_keyboard(&mut self, event: KeyboardEvent)
        ensures
            final(self).context_val().queue_val().pending() == old(
                self,
            ).context_val().queue_val().pending().push(Event::Keyboard(event)),
            final(self).context_val().queue_val().delivered() == old(
                self,
            ).context_val().queue_val().delivered(),
            final(self).context_val().items() == old(self).context_val().items(),
            final(self).context_val().draw_calls() == old(self).context_val().draw_calls(),
            final(self).context_val().size_view() == old(self).context_val().size_view(),
            final(self).context_val().state_val() == old(self).context_val().state_val(),
            final(self).context_val().scheduler_val() == old(self).context_val().scheduler_val(),
            final(self).surface_view() == old(self).surface_view(),
    {
        self.context.enqueue_event(Event::Keyboard(event));
    }

    /// Hand out every scheduled task execution that is due at `now`. The
    /// worker outside the frame thread runs each and reports it back through
    /// [`CanvasApp::complete_task`].
    pub fn take_due_tasks(&mut self, now: u64) -> (due: Vec<PendingTask>)
        ensures
            due@ == due_part(old(self).context_val().scheduler_val().pending(), now as int),
            final(self).context_val().scheduler_val().pending() == rest_part(
                old(self).context_val().scheduler_val().pending(),
                now as int,
            ),
            final(self).context_val().scheduler_val().callbacks() == old(
                self,
            ).context_val().scheduler_val().callbacks(),
            final(self).context_val().scheduler_val().applied() == old(
                self,
            ).context_val().scheduler_val().applied(),
            final(self).context_val().scheduler_val().next_id() == old(
                self,
            ).context_val().scheduler_val().next_id(),
            final(self).context_val().items() == old(self).context_val().items(),
            final(self).context_val().draw_calls() == old(self).context_val().draw_calls(),
            final(self).context_val().size_view() == old(self).context_val().size_view(),
            final(self).context_val().state_val() == old(self).context_val().state_val(),
            final(self).context_val().queue_val() == old(self).context_val().queue_val(),
            final(self).surface_view() == old(self).surface_view(),
    {
        self.context.take_due(now)
    }

    /// Report one completed task execution at time `now`: its commands are
    /// queued as a callback, in arrival order, and the task is re-registered
    /// with `due_at = now + delay` exactly when it returned a delay.
    pub fn complete_task(
        &mut self,
        task_id: u64,
        now: u64,
        next_delay: Option<u64>,
        commands: Vec<StateCommand>,
    )
        ensures
            final(self).context_val().scheduler_val().callbacks() == old(
                self,
            ).context_val().scheduler_val().callbacks().push(Callback { task_id, commands }),
            final(self).context_val().scheduler_val().pending() == match next_delay {
                Some(delay) => old(self).context_val().scheduler_val().pending().push(
                    PendingTask { id: task_id, due_at: sat_add(now as int, delay as int) as u64 },
                ),
                None => old(self).context_val().scheduler_val().pending(),
            },
            final(self).context_val().scheduler_val().next_id() == old(
                self,
            ).context_val().scheduler_val().next_id(),
            final(self).context_val().scheduler_val().applied() == old(
                self,
            ).context_val().scheduler_val().applied(),
            final(self).context_val().items() == old(self).context_val().items(),
            final(self).context_val().draw_calls() == old(self).context_val().draw_calls(),
            final(self).context_val().size_view() == old(self).context_val().size_view(),
            final(self).context_val().state_val() == old(self).context_val().state_val(),
            final(self).context_val().queue_val() == old(self).context_val().queue_val(),
            final(self).surface_view() == old(self).surface_view(),
    {
        self.context.complete_task(task_id, now, next_delay, commands);
    }
}

} // verus!
