use axasync::oneshot::{channel, Outcome};
use axasync::Poll;

#[test]
fn send_then_poll_yields_value() {
    let mut ch = channel::<u32>();
    assert!(matches!(ch.send(7), Ok(None)));
    assert!(matches!(ch.poll(1), Poll::Ready(Outcome::Completed(7))));
}

#[test]
fn second_send_is_rejected() {
    let mut ch = channel::<u32>();
    assert!(ch.send(1).is_ok());
    assert!(matches!(ch.send(2), Err(2)));
    assert!(matches!(ch.poll(1), Poll::Ready(Outcome::Completed(1))));
}

#[test]
fn poll_before_send_registers_latest_waker() {
    let mut ch = channel::<u32>();
    assert!(matches!(ch.poll(3), Poll::Pending));
    assert!(matches!(ch.poll(4), Poll::Pending));
    // the later registration replaces the earlier one
    assert!(matches!(ch.send(9), Ok(Some(4))));
    assert!(matches!(ch.poll(4), Poll::Ready(Outcome::Completed(9))));
}

#[test]
fn dropped_sender_is_reported() {
    let mut ch = channel::<u32>();
    assert!(matches!(ch.poll(5), Poll::Pending));
    assert_eq!(ch.abandon(), Some(5));
    assert!(matches!(ch.poll(5), Poll::Ready(Outcome::Abandoned)));
    assert!(matches!(ch.send(1), Err(1)));
}

#[test]
fn abandon_after_send_keeps_value() {
    let mut ch = channel::<u32>();
    assert!(ch.send(3).is_ok());
    assert_eq!(ch.abandon(), None);
    assert!(matches!(ch.poll(0), Poll::Ready(Outcome::Completed(3))));
}
