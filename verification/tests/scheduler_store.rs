use canvas_runtime::scheduler::Scheduler;
use canvas_runtime::state::{State, StateCommand};

#[test]
fn tasks_run_no_earlier_than_their_delay() {
    let mut s = Scheduler::new();
    let id = s.schedule(0, 10);
    assert_eq!(id, 0);
    assert_eq!(s.take_due(5).len(), 0);
    assert_eq!(s.take_due(9).len(), 0);
    let due = s.take_due(10);
    assert_eq!(due.len(), 1);
    assert_eq!(due[0].id, id);
    assert_eq!(due[0].due_at, 10);
    // handed out exactly once
    assert_eq!(s.take_due(10).len(), 0);
}

#[test]
fn completion_with_delay_reschedules_late_enough() {
    let mut s = Scheduler::new();
    let id = s.schedule(0, 10);
    let task = s.take_due(10).remove(0);
    s.complete(task.id, 10, Some(5), vec![StateCommand::Put(1, 1)]);
    // re-invoked only after at least the returned delay elapses
    assert_eq!(s.take_due(14).len(), 0);
    let again = s.take_due(15);
    assert_eq!(again.len(), 1);
    assert_eq!(again[0].id, id);
    assert_eq!(again[0].due_at, 15);
}

#[test]
fn completion_without_delay_ends_the_task() {
    let mut s = Scheduler::new();
    let id = s.schedule(0, 1);
    let task = s.take_due(1).remove(0);
    s.complete(task.id, 1, None, vec![StateCommand::Put(id, 7)]);
    assert_eq!(s.take_due(u64::MAX).len(), 0);
}

#[test]
fn callbacks_arrive_in_completion_order_across_tasks() {
    let mut s = Scheduler::new();
    let a = s.schedule(0, 1);
    let b = s.schedule(0, 1);
    assert_ne!(a, b);
    let due = s.take_due(1);
    assert_eq!(due.len(), 2);
    // task b completes first
    s.complete(b, 2, None, vec![StateCommand::Put(100, 1)]);
    s.complete(a, 3, None, vec![StateCommand::Put(100, 2)]);
    let cbs = s.take_callbacks();
    assert_eq!(cbs.len(), 2);
    assert_eq!(cbs[0].task_id, b);
    assert_eq!(cbs[1].task_id, a);
    // handed over exactly once
    assert_eq!(s.take_callbacks().len(), 0);
}

#[test]
fn store_accessors() {
    let mut st = State::new();
    assert_eq!(st.get(1), None);
    st.set(1, 10);
    st.set(2, 20);
    assert_eq!(st.get(1), Some(10));
    assert_eq!(st.get(2), Some(20));
    st.set(1, 11);
    assert_eq!(st.get(1), Some(11));
    st.remove(1);
    assert_eq!(st.get(1), None);
    assert_eq!(st.get(2), Some(20));
    st.remove(99);
    assert_eq!(st.get(2), Some(20));
}

#[test]
fn commands_apply_in_order() {
    let mut st = State::default();
    st.apply_all(&vec![
        StateCommand::Put(1, 5),
        StateCommand::Put(2, 6),
        StateCommand::Put(1, 7),
        StateCommand::Remove(2),
    ]);
    assert_eq!(st.get(1), Some(7));
    assert_eq!(st.get(2), None);
}
