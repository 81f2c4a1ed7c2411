use axasync::backend::ManualBackend;
use axasync::net::{TcpSocket, UdpSocket};
use axasync::reactor::{IoOperation, IoReactor, RequestId, SocketAddr};

#[test]
fn socket_operations_reach_the_backend() {
    let mut r = IoReactor::new(ManualBackend::new());
    let tcp = TcpSocket::new(3);
    let udp = UdpSocket::new(4);
    let peer = SocketAddr { ip: 0x0a000001, port: 7 };
    assert_eq!(tcp.handle(), 3);
    assert_eq!(udp.handle(), 4);
    let a = tcp.connect(&mut r, peer).unwrap();
    let b = tcp.read(&mut r, 0x100, 16).unwrap();
    let c = udp.send_to(&mut r, 0x200, 8, peer).unwrap();
    let d = udp.recv_from(&mut r, 0x300, 4).unwrap();
    tcp.accept(&mut r).unwrap();
    tcp.write(&mut r, 0x400, 2).unwrap();
    udp.send(&mut r, 0x500, 1).unwrap();
    udp.recv(&mut r, 0x600, 3).unwrap();
    assert_eq!(a.id(), RequestId(1));
    assert_eq!(d.id(), RequestId(4));
    let _ = (b, c);
    assert_eq!(
        r.backend().submissions(),
        &vec![
            (RequestId(1), IoOperation::Connect { socket: 3, addr: peer }),
            (RequestId(2), IoOperation::Read { socket: 3, buf: 0x100, len: 16 }),
            (RequestId(3), IoOperation::SendTo { socket: 4, buf: 0x200, len: 8, addr: peer }),
            (RequestId(4), IoOperation::RecvFrom { socket: 4, buf: 0x300, len: 4 }),
            (RequestId(5), IoOperation::Accept { socket: 3 }),
            (RequestId(6), IoOperation::Write { socket: 3, buf: 0x400, len: 2 }),
            (RequestId(7), IoOperation::Send { socket: 4, buf: 0x500, len: 1 }),
            (RequestId(8), IoOperation::Recv { socket: 4, buf: 0x600, len: 3 }),
        ]
    );
}
