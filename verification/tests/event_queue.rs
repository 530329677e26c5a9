use canvas_runtime::{Event, EventQueue, Key, KeyboardEvent, KeyboardState, MouseEvent, MouseState};

fn key(c: char) -> Event {
    Event::Keyboard(KeyboardEvent {
        state: KeyboardState::Pressed,
        key: Key::Character(c.to_string()),
    })
}

#[test]
fn drain_returns_events_in_arrival_order() {
    let mut q = EventQueue::new();
    q.enqueue(key('a'));
    q.enqueue(Event::Mouse(MouseEvent { state: MouseState::Moved, position: (3, 4) }));
    q.enqueue(key('b'));
    assert_eq!(q.len(), 3);
    let batch = q.drain();
    assert_eq!(batch.len(), 3);
    assert_eq!(batch[0], key('a'));
    assert_eq!(batch[1], Event::Mouse(MouseEvent { state: MouseState::Moved, position: (3, 4) }));
    assert_eq!(batch[2], key('b'));
    assert_eq!(q.len(), 0);
    assert_eq!(q.drain().len(), 0);
}

#[test]
fn events_during_dispatch_wait_for_the_next_batch() {
    // 1000 enqueue/drain cycles: what is enqueued after a drain starts is
    // never part of that drain's batch, and every event comes out exactly
    // once, in order.
    let mut q = EventQueue::new();
    let mut delivered: Vec<Event> = Vec::new();
    let mut enqueued: Vec<Event> = Vec::new();
    q.enqueue(key('s'));
    enqueued.push(key('s'));
    for cycle in 0..1000u32 {
        let batch = q.drain();
        // exactly the one event enqueued during the previous cycle
        assert_eq!(batch.len(), 1, "cycle {}", cycle);
        // enqueue while "dispatching" the batch: must not appear now
        let c = char::from(b'a' + (cycle % 26) as u8);
        q.enqueue(key(c));
        enqueued.push(key(c));
        delivered.extend(batch);
        assert_eq!(q.len(), 1);
    }
    delivered.extend(q.drain());
    assert_eq!(delivered, enqueued);
}
