use axasync::backend::{perform, perform_on, SocketDevice, SocketKind, SyncBackend};
use axasync::errno::AxError;
use axasync::error::ErrorKind;
use axasync::reactor::{Completion, IoOperation, IoReactor, RequestId, SocketAddr, SocketHandle};
use axasync::Poll;

// Socket 1 is TCP, socket 2 is UDP, anything else is unknown. Reads and
// receives return the requested length; socket 1 refuses to accept.
struct Fake;

impl SocketDevice for Fake {
    fn kind(&self, socket: SocketHandle) -> SocketKind {
        match socket {
            1 => SocketKind::Tcp,
            2 => SocketKind::Udp,
            _ => SocketKind::Unknown,
        }
    }

    fn recv(&mut self, _socket: SocketHandle, _buf: usize, len: usize) -> Result<usize, AxError> {
        Ok(len)
    }

    fn send(&mut self, _socket: SocketHandle, _buf: usize, len: usize) -> Result<usize, AxError> {
        Ok(len / 2)
    }

    fn connect(&mut self, _socket: SocketHandle, addr: SocketAddr) -> Result<(), AxError> {
        if addr.port == 0 { Err(AxError::ConnectionRefused) } else { Ok(()) }
    }

    fn accept(&mut self, _socket: SocketHandle) -> Result<SocketHandle, AxError> {
        Err(AxError::WouldBlock)
    }

    fn send_to(&mut self, _socket: SocketHandle, _buf: usize, len: usize, _addr: SocketAddr) -> Result<usize, AxError> {
        Ok(len)
    }

    fn recv_from(&mut self, _socket: SocketHandle, _buf: usize, len: usize) -> Result<(usize, SocketAddr), AxError> {
        Ok((len, SocketAddr { ip: 9, port: 53 }))
    }
}

fn error_of(c: Completion) -> (ErrorKind, String) {
    match c {
        Completion::Error(e) => (e.kind(), e.message().to_string()),
        _ => panic!("expected an error"),
    }
}

#[test]
fn operations_on_supported_sockets() {
    let mut d = Fake;
    assert!(matches!(perform(&mut d, IoOperation::Read { socket: 1, buf: 0, len: 12 }), Completion::Read(12)));
    assert!(matches!(perform(&mut d, IoOperation::Write { socket: 2, buf: 0, len: 12 }), Completion::Write(6)));
    assert!(matches!(perform(&mut d, IoOperation::Connect { socket: 1, addr: SocketAddr { ip: 1, port: 80 } }), Completion::Connect));
    assert!(matches!(perform(&mut d, IoOperation::Send { socket: 2, buf: 0, len: 8 }), Completion::Send(4)));
    assert!(matches!(perform(&mut d, IoOperation::SendTo { socket: 2, buf: 0, len: 8, addr: SocketAddr { ip: 1, port: 1 } }), Completion::SendTo(8)));
    assert!(matches!(perform(&mut d, IoOperation::Recv { socket: 2, buf: 0, len: 3 }), Completion::Recv(3)));
    assert!(matches!(
        perform(&mut d, IoOperation::RecvFrom { socket: 2, buf: 0, len: 3 }),
        Completion::RecvFrom(3, SocketAddr { ip: 9, port: 53 })
    ));
}

#[test]
fn unsupported_sockets_are_rejected() {
    let mut d = Fake;
    assert_eq!(
        error_of(perform(&mut d, IoOperation::Read { socket: 7, buf: 0, len: 1 })),
        (ErrorKind::InvalidInput, "Unknown socket type".to_string())
    );
    assert_eq!(
        error_of(perform(&mut d, IoOperation::Accept { socket: 2 })),
        (ErrorKind::InvalidInput, "Socket is not a TCP socket".to_string())
    );
    assert_eq!(
        error_of(perform(&mut d, IoOperation::Send { socket: 1, buf: 0, len: 1 })),
        (ErrorKind::InvalidInput, "Socket is not a UDP socket".to_string())
    );
}

#[test]
fn device_errors_become_io_errors() {
    let mut d = Fake;
    assert_eq!(
        error_of(perform(&mut d, IoOperation::Accept { socket: 1 })),
        (ErrorKind::WouldBlock, "operation would block".to_string())
    );
    assert_eq!(
        error_of(perform(&mut d, IoOperation::Connect { socket: 1, addr: SocketAddr { ip: 1, port: 0 } })).0,
        ErrorKind::ConnectionRefused
    );
}

#[test]
fn sync_backend_behind_reactor() {
    let mut r = IoReactor::new(SyncBackend::new(Fake));
    let f = r.submit_operation(IoOperation::Read { socket: 1, buf: 0, len: 5 }).unwrap();
    let g = r.submit_operation(IoOperation::Recv { socket: 1, buf: 0, len: 5 }).unwrap();
    assert!(matches!(r.poll_future(&f, 1), Poll::Pending));
    assert_eq!(r.poll(), vec![1]);
    assert!(matches!(r.poll_future(&f, 1), Poll::Ready(Ok(Completion::Read(5)))));
    match r.poll_future(&g, 2) {
        Poll::Ready(Err(e)) => assert_eq!(e.kind(), ErrorKind::InvalidInput),
        _ => panic!("expected the rejection"),
    }
}

#[test]
fn sync_backend_drains_in_order() {
    let mut b = SyncBackend::new(Fake);
    b.perform_and_queue(RequestId(4), IoOperation::Read { socket: 1, buf: 0, len: 1 });
    b.perform_and_queue(RequestId(5), IoOperation::Read { socket: 1, buf: 0, len: 2 });
    let out = b.drain();
    assert_eq!(out.len(), 2);
    assert_eq!(out[0].0, RequestId(4));
    assert_eq!(out[1].0, RequestId(5));
    assert!(b.drain().is_empty());
}

#[test]
fn perform_on_rejects_without_calling_device() {
    let mut d = Fake;
    let c = perform_on(&mut d, SocketKind::Udp, IoOperation::Connect { socket: 1, addr: SocketAddr { ip: 1, port: 0 } });
    assert_eq!(error_of(c), (ErrorKind::InvalidInput, "Socket is not a TCP socket".to_string()));
    assert!(matches!(perform_on(&mut d, SocketKind::Tcp, IoOperation::Read { socket: 2, buf: 0, len: 9 }), Completion::Read(9)));
}
