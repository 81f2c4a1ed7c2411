use axasync::time::{Sleep, Timeout, TimeoutError};
use axasync::timer::{check_timer_events, init_timer_waker, wake_at, TimerList, TimerWakers, TIMER_CAPACITY};
use axasync::Poll;

const MS: u64 = 1_000_000;

fn timers() -> TimerWakers {
    let mut t = TimerWakers::new();
    init_timer_waker(&mut t);
    t
}

#[test]
fn sleep_pending_before_deadline_ready_after() {
    let mut t = timers();
    let mut s = Sleep::new(1_000, 500 * MS);
    assert_eq!(s.deadline(), 1_000 + 500 * MS);
    let d = s.deadline();
    assert!(!s.poll(d - 1, 1, &mut t));
    assert!(s.poll(d, 1, &mut t));
    assert!(s.poll(d + 5, 1, &mut t));
}

#[test]
fn sleep_registers_once_per_waker() {
    let mut t = timers();
    let mut s = Sleep::until(100);
    assert!(!s.poll(10, 1, &mut t));
    assert!(!s.poll(20, 1, &mut t));
    // the same handle is not registered twice
    assert_eq!(check_timer_events(&mut t, 100), vec![1]);
    assert!(!s.poll(30, 2, &mut t));
    assert_eq!(check_timer_events(&mut t, 99), Vec::<usize>::new());
    assert_eq!(check_timer_events(&mut t, 100), vec![2]);
}

#[test]
fn sleep_deadline_saturates() {
    let s = Sleep::new(u64::MAX - 1, 10);
    assert_eq!(s.deadline(), u64::MAX);
}

#[test]
fn sleep_reset() {
    let mut s = Sleep::until(5);
    s.reset(100, 50);
    assert_eq!(s.deadline(), 150);
    s.reset_until(7);
    assert_eq!(s.deadline(), 7);
}

#[test]
fn timeout_fires_before_slow_computation() {
    let mut t = timers();
    let start = 0u64;
    let done_at = start + 2000 * MS;
    let mut to = Timeout::new(start, 500 * MS);
    let mut now = start;
    let outcome = loop {
        let inner = if now >= done_at { Poll::Ready(42u32) } else { Poll::Pending };
        match to.poll(inner, now, 1, &mut t) {
            Poll::Ready(r) => break r,
            Poll::Pending => now += 100 * MS,
        }
    };
    assert_eq!(outcome, Err(TimeoutError));
    assert_eq!(now, 500 * MS);
}

#[test]
fn timeout_passes_inner_result() {
    let mut t = timers();
    let mut to = Timeout::until(10);
    assert!(matches!(to.poll(Poll::Ready(3u8), 50, 1, &mut t), Poll::Ready(Ok(3))));
    assert!(matches!(to.poll(Poll::<u8>::Pending, 5, 1, &mut t), Poll::Pending));
}

#[test]
fn timer_list_orders_by_deadline() {
    let mut l = TimerList::new();
    assert_eq!(l.next_deadline(), None);
    assert!(l.set(30, 'c'));
    assert!(l.set(10, 'a'));
    assert!(l.set(20, 'b'));
    assert!(l.set(10, 'x'));
    assert_eq!(l.next_deadline(), Some(10));
    assert_eq!(l.expire_one(5), None);
    assert_eq!(l.expire_one(100), Some((10, 'a')));
    assert_eq!(l.expire_one(100), Some((10, 'x')));
    assert_eq!(l.expire_one(15), None);
    assert_eq!(l.expire_one(20), Some((20, 'b')));
    assert_eq!(l.expire_one(30), Some((30, 'c')));
    // nothing comes out twice
    assert_eq!(l.expire_one(u64::MAX), None);
    assert_eq!(l.len(), 0);
}

#[test]
fn timer_list_full_drops_insertion() {
    let mut l = TimerList::with_capacity(2);
    assert!(l.set(1, 1u8));
    assert!(l.set(2, 2u8));
    assert!(!l.set(0, 3u8));
    assert_eq!(l.len(), 2);
    assert_eq!(l.expire_one(10), Some((1, 1)));
    let d = TimerList::<u8>::new();
    assert_eq!(d.len(), 0);
    assert_eq!(TIMER_CAPACITY, 1024);
}

#[test]
fn wake_at_before_init_is_dropped() {
    let mut t = TimerWakers::new();
    assert!(!wake_at(&mut t, 1, 1));
    assert_eq!(check_timer_events(&mut t, 10), Vec::<usize>::new());
    init_timer_waker(&mut t);
    assert!(wake_at(&mut t, 5, 2));
    assert!(wake_at(&mut t, 3, 3));
    init_timer_waker(&mut t);
    assert_eq!(check_timer_events(&mut t, 10), vec![3, 2]);
    assert_eq!(check_timer_events(&mut t, 10), Vec::<usize>::new());
}
