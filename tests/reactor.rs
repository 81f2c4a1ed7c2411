use axasync::backend::ManualBackend;
use axasync::error::{io_error, ErrorKind};
use axasync::reactor::{Completion, IoOperation, IoReactor, RequestId, SocketAddr};
use axasync::Poll;

fn reactor() -> IoReactor<ManualBackend> {
    IoReactor::new(ManualBackend::new())
}

#[test]
fn completion_reaches_its_future() {
    let mut r = reactor();
    let op = IoOperation::Read { socket: 3, buf: 0x1000, len: 64 };
    let f = r.submit_operation(op).unwrap();
    assert_eq!(f.id(), RequestId(1));
    // the operation reached the backend
    assert_eq!(r.backend().submissions(), &vec![(RequestId(1), op)]);
    assert!(matches!(r.poll_future(&f, 9), Poll::Pending));
    assert_eq!(r.poll(), Vec::<usize>::new());
    r.backend_mut().finish(f.id(), Completion::Read(64));
    assert_eq!(r.poll(), vec![9]);
    assert!(matches!(r.poll_future(&f, 9), Poll::Ready(Ok(Completion::Read(64)))));
    // taken once
    assert!(matches!(r.poll_future(&f, 9), Poll::Pending));
    // a second completion for the same request is ignored
    r.backend_mut().finish(f.id(), Completion::Read(1));
    assert_eq!(r.poll(), Vec::<usize>::new());
    assert!(matches!(r.poll_future(&f, 9), Poll::Pending));
}

#[test]
fn identifiers_increase() {
    let mut r = reactor();
    let a = r.submit_operation(IoOperation::Accept { socket: 1 }).unwrap();
    let b = r.submit_operation(IoOperation::Accept { socket: 1 }).unwrap();
    assert_eq!(a.id(), RequestId(1));
    assert_eq!(b.id(), RequestId(2));
    assert_eq!(r.backend().submissions().len(), 2);
}

#[test]
fn dropped_future_leaves_no_slot() {
    let mut r = reactor();
    let f = r.submit_operation(IoOperation::Recv { socket: 1, buf: 0, len: 8 }).unwrap();
    let id = f.id();
    r.drop_future(f);
    // nothing completed: the sweep still removes the abandoned slot
    assert_eq!(r.poll(), Vec::<usize>::new());
    // a late completion for it is ignored without panicking
    assert_eq!(r.complete(vec![(id, Completion::Recv(8))]), Vec::<usize>::new());
}

#[test]
fn completion_for_dropped_future_is_discarded() {
    let mut r = reactor();
    let f = r.submit_operation(IoOperation::Write { socket: 1, buf: 0, len: 4 }).unwrap();
    let g = r.submit_operation(IoOperation::Send { socket: 1, buf: 0, len: 5 }).unwrap();
    assert!(matches!(r.poll_future(&f, 1), Poll::Pending));
    assert!(matches!(r.poll_future(&g, 2), Poll::Pending));
    let fid = f.id();
    r.drop_future(f);
    r.backend_mut().finish(fid, Completion::Write(4));
    r.backend_mut().finish(g.id(), Completion::Send(5));
    // only the live future's handle is woken
    assert_eq!(r.poll(), vec![2]);
    assert!(matches!(r.poll_future(&g, 2), Poll::Ready(Ok(Completion::Send(5)))));
}

#[test]
fn wakes_follow_completion_order() {
    let mut r = reactor();
    let f = r.submit_operation(IoOperation::Accept { socket: 1 }).unwrap();
    let g = r.submit_operation(IoOperation::Accept { socket: 1 }).unwrap();
    assert!(matches!(r.poll_future(&f, 5), Poll::Pending));
    assert!(matches!(r.poll_future(&g, 6), Poll::Pending));
    assert_eq!(r.complete(vec![(g.id(), Completion::Accept(8)), (f.id(), Completion::Accept(7))]), vec![6, 5]);
}

#[test]
fn error_completion_is_an_error() {
    let mut r = reactor();
    let f = r.submit_operation(IoOperation::Connect { socket: 1, addr: SocketAddr { ip: 0x7f000001, port: 80 } }).unwrap();
    let err = io_error(ErrorKind::ConnectionRefused, "refused");
    assert_eq!(r.complete(vec![(f.id(), Completion::Error(err)), (RequestId(77), Completion::Connect)]), Vec::<usize>::new());
    match r.poll_future(&f, 1) {
        Poll::Ready(Err(e)) => {
            assert_eq!(e.kind(), ErrorKind::ConnectionRefused);
            assert_eq!(e.message(), "refused");
        }
        _ => panic!("expected an error"),
    }
}

#[test]
fn future_from_error_is_resolved() {
    let mut r = reactor();
    let f = r.from_error(io_error(ErrorKind::NotConnected, "no peer")).unwrap();
    assert_eq!(f.id(), RequestId(1));
    match r.poll_future(&f, 1) {
        Poll::Ready(Err(e)) => assert_eq!(e.kind(), ErrorKind::NotConnected),
        _ => panic!("expected the error"),
    }
    let g = r.submit_operation(IoOperation::Accept { socket: 2 }).unwrap();
    assert_eq!(g.id(), RequestId(2));
}

#[test]
fn reactor_init_and_shutdown() {
    let mut slot: Option<IoReactor<ManualBackend>> = None;
    axasync::reactor::init(&mut slot, ManualBackend::new());
    let f = slot.as_mut().unwrap().submit_operation(IoOperation::Accept { socket: 1 }).unwrap();
    axasync::reactor::init(&mut slot, ManualBackend::new());
    // the first reactor is kept
    let g = slot.as_mut().unwrap().submit_operation(IoOperation::Accept { socket: 1 }).unwrap();
    assert_eq!(f.id(), RequestId(1));
    assert_eq!(g.id(), RequestId(2));
    axasync::reactor::shutdown(&mut slot);
    assert!(slot.is_none());
}
