use canvas_runtime::state::StateCommand;
use canvas_runtime::{
    Area, CanvasApp, CanvasAppTrait, CanvasContext, CanvasItem, Color, KeyboardEvent,
    KeyboardState, Key, MouseEvent, MouseState, Shape,
};

const WHITE: Color = Color(255, 255, 255, 255);
const BLACK: Color = Color(0, 0, 0, 255);

const LOGICAL_W: u64 = 10;
const LOGICAL_H: u64 = 11;
const KEY_COUNT: u64 = 12;
const MOUSE_X: u64 = 13;
const MOUSE_Y: u64 = 14;

/// Paints a background plus one full-screen rectangle each frame and records
/// everything it observes in the shared state store.
struct ProbeApp;

impl CanvasAppTrait for ProbeApp {
    fn new(ctx: &mut CanvasContext, width: u32, height: u32) -> ProbeApp {
        ctx.state().set(LOGICAL_W, width as u64);
        ctx.state().set(LOGICAL_H, height as u64);
        ProbeApp
    }

    fn on_resize(&mut self, ctx: &mut CanvasContext, width: u32, height: u32) {
        ctx.state().set(LOGICAL_W, width as u64);
        ctx.state().set(LOGICAL_H, height as u64);
    }

    fn on_tick(&mut self, ctx: &mut CanvasContext) {
        ctx.clear(WHITE);
        ctx.draw(Area((0, 0), None), CanvasItem::Shape(Shape::Rectangle(0, (400, 300)), BLACK));
    }

    fn on_mouse(&mut self, ctx: &mut CanvasContext, event: MouseEvent) {
        ctx.state().set(MOUSE_X, event.position.0 as u64);
        ctx.state().set(MOUSE_Y, event.position.1 as u64);
    }

    fn on_keyboard(&mut self, ctx: &mut CanvasContext, event: KeyboardEvent) {
        let count = ctx.state().get(KEY_COUNT).unwrap_or(0);
        ctx.state().set(KEY_COUNT, count + 1);
        // re-trigger the same key: it must only arrive next frame
        ctx.trigger_keyboard(event);
    }
}

fn enter() -> KeyboardEvent {
    KeyboardEvent { state: KeyboardState::Pressed, key: Key::Named(canvas_runtime::NamedKey::Enter) }
}

#[test]
fn end_to_end_frame_lifecycle() {
    // physical 800x600 at ratio 2.0: logical 400x300
    let mut driver = CanvasApp::<ProbeApp>::new(800, 600, 2000, 8192);
    assert_eq!(driver.size().logical(), (400, 300));
    assert_eq!(driver.state_get(LOGICAL_W), Some(400));
    assert_eq!(driver.state_get(LOGICAL_H), Some(300));

    // one frame: background first at maximum depth, the draw right in front
    let items = driver.prepare();
    assert_eq!(items.len(), 2);
    assert_eq!(items[0].0.z, u16::MAX);
    assert_eq!(items[1].0.z, u16::MAX - 1);
    assert_eq!((items[0].0.w, items[0].0.h), (800, 600));

    // resize to zero: configuration and targets untouched
    let before = driver.surface_recreations();
    driver.on_resize(0, 0, 2000);
    assert_eq!(driver.surface_dimensions(), (800, 600));
    assert_eq!(driver.surface_recreations(), before);
    assert_eq!(driver.size().logical(), (400, 300));

    // resize to 1600x1200 at ratio 2.0: logical 800x600, both targets
    // recreated together, exactly one more pair
    driver.on_resize(1600, 1200, 2000);
    assert_eq!(driver.surface_dimensions(), (1600, 1200));
    assert_eq!(driver.size().logical(), (800, 600));
    assert_eq!(driver.state_get(LOGICAL_W), Some(800));
    assert_eq!(driver.state_get(LOGICAL_H), Some(600));
    let after = driver.surface_recreations();
    assert_eq!(after.0, before.0 + 1);
    assert_eq!(after.1, before.1 + 1);
}

#[test]
fn degenerate_resize_requests() {
    let mut driver = CanvasApp::<ProbeApp>::new(800, 600, 2000, 8192);
    // a zero ratio is ignored entirely
    driver.on_resize(1024, 768, 0);
    assert_eq!(driver.surface_dimensions(), (800, 600));
    assert_eq!(driver.size().logical(), (400, 300));
    // zero dimensions leave the surface untouched, but the mapping is still
    // rebuilt with the given ratio: 800/3 rounds to 267, 600/3 to 200
    let before = driver.surface_recreations();
    driver.on_resize(0, 0, 3000);
    assert_eq!(driver.surface_dimensions(), (800, 600));
    assert_eq!(driver.surface_recreations(), before);
    assert_eq!(driver.size().logical(), (267, 200));
    assert_eq!(driver.state_get(LOGICAL_W), Some(267));
    assert_eq!(driver.state_get(LOGICAL_H), Some(200));
}

#[test]
fn mouse_positions_reach_the_application_in_logical_pixels() {
    let mut driver = CanvasApp::<ProbeApp>::new(800, 600, 2000, 8192);
    driver.on_mouse(MouseEvent { state: MouseState::Pressed, position: (100, 50) });
    // not dispatched until the frame prepares
    assert_eq!(driver.state_get(MOUSE_X), None);
    driver.prepare();
    assert_eq!(driver.state_get(MOUSE_X), Some(50));
    assert_eq!(driver.state_get(MOUSE_Y), Some(25));
}

#[test]
fn events_triggered_during_dispatch_arrive_next_frame() {
    let mut driver = CanvasApp::<ProbeApp>::new(800, 600, 2000, 8192);
    driver.on_keyboard(enter());
    // each frame delivers exactly the batch pending when it began; the
    // handler re-triggers the key, so every frame sees exactly one more
    for frame in 1..=1000u64 {
        driver.prepare();
        assert_eq!(driver.state_get(KEY_COUNT), Some(frame), "frame {}", frame);
    }
}

#[test]
fn completed_tasks_mutate_state_at_the_frame_point() {
    let mut driver = CanvasApp::<ProbeApp>::new(800, 600, 2000, 8192);
    let due = driver.take_due_tasks(u64::MAX);
    assert_eq!(due.len(), 0);
    // a worker reports two completions; their commands apply in arrival
    // order when the next frame prepares
    driver.complete_task(40, 5, None, vec![StateCommand::Put(1, 1)]);
    driver.complete_task(41, 6, Some(10), vec![StateCommand::Put(1, 2)]);
    assert_eq!(driver.state_get(1), None);
    driver.prepare();
    assert_eq!(driver.state_get(1), Some(2));
    // the second task asked to run again, no earlier than 6 + 10
    assert_eq!(driver.take_due_tasks(15).len(), 0);
    let due = driver.take_due_tasks(16);
    assert_eq!(due.len(), 1);
    assert_eq!(due[0].id, 41);
    assert_eq!(due[0].due_at, 16);
}

#[test]
fn process_callback_applies_commands_directly() {
    let mut driver = CanvasApp::<ProbeApp>::new(800, 600, 2000, 8192);
    let cb = canvas_runtime::scheduler::Callback {
        task_id: 7,
        commands: vec![StateCommand::Put(3, 30), StateCommand::Put(3, 31)],
    };
    driver.process_callback(&cb);
    assert_eq!(driver.state_get(3), Some(31));
}
