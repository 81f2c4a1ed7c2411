use axasync::executor::{init, spawn, Executor};
use axasync::oneshot::Outcome;
use axasync::Poll;

// Drives every ready task once per turn, the way `run` does; `poll` plays
// the role of the task's computation and says whether it completed.
fn run_all(ex: &mut Executor, mut poll: impl FnMut(&mut Executor, usize) -> bool) {
    while let Some(id) = ex.begin_poll() {
        let done = poll(ex, id);
        ex.end_poll(id, done);
    }
}

#[test]
fn test_global_spawn() {
    let mut slot: Option<Executor> = None;
    init(&mut slot);
    let ex = slot.as_mut().unwrap();
    let mut completed = false;
    let mut handle = spawn::<()>(ex);
    run_all(ex, |_, _| {
        completed = true;
        true
    });
    assert!(completed);
    assert!(handle.output.send(()).is_ok());
    assert!(matches!(handle.output.poll(handle.task), Poll::Ready(Outcome::Completed(()))));
}

#[test]
fn init_is_idempotent() {
    let mut slot: Option<Executor> = None;
    init(&mut slot);
    let h = spawn::<u32>(slot.as_mut().unwrap());
    init(&mut slot);
    // the executor made first is kept, with its task
    assert_eq!(slot.as_mut().unwrap().begin_poll(), Some(h.task));
}

#[test]
fn ready_tasks_are_served_in_spawn_order() {
    let mut ex = Executor::new();
    let a = ex.spawn::<()>().task;
    let b = ex.spawn::<()>().task;
    let c = ex.spawn::<()>().task;
    assert_eq!(ex.begin_poll(), Some(a));
    assert!(ex.end_poll(a, true));
    assert_eq!(ex.begin_poll(), Some(b));
    assert!(ex.end_poll(b, true));
    assert_eq!(ex.begin_poll(), Some(c));
    assert!(!ex.end_poll(c, true));
    assert_eq!(ex.begin_poll(), None);
    assert!(ex.is_idle());
}

#[test]
fn many_wakes_between_polls_queue_once() {
    let mut ex = Executor::new();
    let t = ex.spawn::<()>().task;
    let other = ex.spawn::<()>().task;
    assert_eq!(ex.begin_poll(), Some(t));
    // suspended with no wake: it waits
    assert!(ex.end_poll(t, false));
    assert_eq!(ex.begin_poll(), Some(other));
    assert!(!ex.end_poll(other, true));
    for _ in 0..5 {
        ex.wake(t);
    }
    assert_eq!(ex.begin_poll(), Some(t));
    assert!(!ex.end_poll(t, true));
    assert_eq!(ex.begin_poll(), None);
}

#[test]
fn wakes_during_a_poll_requeue_once() {
    let mut ex = Executor::new();
    let t = ex.spawn::<()>().task;
    assert_eq!(ex.begin_poll(), Some(t));
    ex.wake(t);
    ex.wake(t);
    ex.wake(t);
    assert!(ex.end_poll(t, false));
    assert_eq!(ex.begin_poll(), Some(t));
    assert!(!ex.end_poll(t, false));
    assert_eq!(ex.begin_poll(), None);
}

#[test]
fn waking_a_done_or_unknown_task_does_nothing() {
    let mut ex = Executor::new();
    let t = ex.spawn::<()>().task;
    assert_eq!(ex.begin_poll(), Some(t));
    ex.end_poll(t, true);
    ex.wake(t);
    ex.wake(t + 10);
    assert!(ex.is_idle());
}

#[test]
fn task_woken_by_another_runs_again() {
    let mut ex = Executor::new();
    let waiter = ex.spawn::<()>().task;
    let waker = ex.spawn::<()>().task;
    let mut polls = vec![0u32; 2];
    run_all(&mut ex, |ex, id| {
        polls[id] += 1;
        if id == waker {
            ex.wake(waiter);
            true
        } else {
            polls[id] == 2
        }
    });
    assert_eq!(polls, vec![2, 1]);
}

#[test]
fn join_handle_reports_abandonment() {
    let mut ex = Executor::new();
    let mut h = ex.spawn::<u8>();
    let t = ex.begin_poll().unwrap();
    assert!(matches!(h.poll(99), Poll::Pending));
    // the task is dropped before completing
    ex.end_poll(t, true);
    assert_eq!(h.output.abandon(), Some(99));
    assert!(matches!(h.poll(99), Poll::Ready(Outcome::Abandoned)));
}

#[test]
fn join_handle_yields_output() {
    let mut ex = Executor::new();
    let mut h = ex.spawn::<u8>();
    assert!(matches!(h.output.send(5), Ok(None)));
    assert!(matches!(h.poll(1), Poll::Ready(Outcome::Completed(5))));
}
