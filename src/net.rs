//! Sockets whose operations run through the I/O reactor.

use vstd::prelude::*;

use crate::error::Error;
use crate::reactor::{submitted_as, AsyncIoBackend, IoFuture, IoOperation, IoReactor, SocketAddr, SocketHandle};

verus! {

/// A stream socket known to the backend by its handle.
pub struct TcpSocket {
    socket: SocketHandle,
}

impl TcpSocket {
    pub closed spec fn handle_spec(&self) -> SocketHandle {
        self.socket
    }

    pub fn new(socket: SocketHandle) -> (r: Self)
        ensures
            r.handle_spec() == socket,
    {
        TcpSocket { socket }
    }

    pub fn handle(&self) -> (r: SocketHandle)
        ensures
            r == self.handle_spec(),
    {
        self.socket
    }


    /// Starts connecting to `addr`. Returns the operation's future, as
    /// [`IoReactor::submit_operation`] does.
    pub fn connect<B: AsyncIoBackend>(&self, reactor: &mut IoReactor<B>, addr: SocketAddr) -> (r: Result<IoFuture, Error>)
        requires
            old(reactor).wf(),
        ensures
            final(reactor).wf(),
            submitted_as(*old(reactor), *final(reactor), r, IoOperation::Connect { socket: self.handle_spec(), addr }),
    {
        reactor.submit_operation(IoOperation::Connect { socket: self.socket, addr })
    }


    /// Starts accepting a connection. Returns the operation's future, as
    /// [`IoReactor::submit_operation`] does.
    pub fn accept<B: AsyncIoBackend>(&self, reactor: &mut IoReactor<B>) -> (r: Result<IoFuture, Error>)
        requires
            old(reactor).wf(),
        ensures
            final(reactor).wf(),
            submitted_as(*old(reactor), *final(reactor), r, IoOperation::Accept { socket: self.handle_spec() }),
    {
        reactor.submit_operation(IoOperation::Accept { socket: self.socket })
    }


    /// Starts reading into the `len` bytes at `buf`. Returns the operation's future, as
    /// [`IoReactor::submit_operation`] does.
    pub fn read<B: AsyncIoBackend>(&self, reactor: &mut IoReactor<B>, buf: usize, len: usize) -> (r: Result<IoFuture, Error>)
        requires
            old(reactor).wf(),
        ensures
            final(reactor).wf(),
            submitted_as(*old(reactor), *final(reactor), r, IoOperation::Read { socket: self.handle_spec(), buf, len }),
    {
        reactor.submit_operation(IoOperation::Read { socket: self.socket, buf, len })
    }


    /// Starts writing the `len` bytes at `buf`. Returns the operation's future, as
    /// [`IoReactor::submit_operation`] does.
    pub fn write<B: AsyncIoBackend>(&self, reactor: &mut IoReactor<B>, buf: usize, len: usize) -> (r: Result<IoFuture, Error>)
        requires
            old(reactor).wf(),
        ensures
            final(reactor).wf(),
            submitted_as(*old(reactor), *final(reactor), r, IoOperation::Write { socket: self.handle_spec(), buf, len }),
    {
        reactor.submit_operation(IoOperation::Write { socket: self.socket, buf, len })
    }

}

/// A datagram socket known to the backend by its handle.
pub struct UdpSocket {
    socket: SocketHandle,
}

impl UdpSocket {
    pub closed spec fn handle_spec(&self) -> SocketHandle {
        self.socket
    }

    pub fn new(socket: SocketHandle) -> (r: Self)
        ensures
            r.handle_spec() == socket,
    {
        UdpSocket { socket }
    }

    pub fn handle(&self) -> (r: SocketHandle)
        ensures
            r == self.handle_spec(),
    {
        self.socket
    }


    /// Starts sending the `len` bytes at `buf` to the connected peer. Returns the operation's future, as
    /// [`IoReactor::submit_operation`] does.
    pub fn send<B: AsyncIoBackend>(&self, reactor: &mut IoReactor<B>, buf: usize, len: usize) -> (r: Result<IoFuture, Error>)
        requires
            old(reactor).wf(),
        ensures
            final(reactor).wf(),
            submitted_as(*old(reactor), *final(reactor), r, IoOperation::Send { socket: self.handle_spec(), buf, len }),
    {
        reactor.submit_operation(IoOperation::Send { socket: self.socket, buf, len })
    }


    /// Starts sending the `len` bytes at `buf` to `addr`. Returns the operation's future, as
    /// [`IoReactor::submit_operation`] does.
    pub fn send_to<B: AsyncIoBackend>(&self, reactor: &mut IoReactor<B>, buf: usize, len: usize, addr: SocketAddr) -> (r: Result<IoFuture, Error>)
        requires
            old(reactor).wf(),
        ensures
            final(reactor).wf(),
            submitted_as(*old(reactor), *final(reactor), r, IoOperation::SendTo { socket: self.handle_spec(), buf, len, addr }),
    {
        reactor.submit_operation(IoOperation::SendTo { socket: self.socket, buf, len, addr })
    }


    /// Starts receiving into the `len` bytes at `buf`. Returns the operation's future, as
    /// [`IoReactor::submit_operation`] does.
    pub fn recv<B: AsyncIoBackend>(&self, reactor: &mut IoReactor<B>, buf: usize, len: usize) -> (r: Result<IoFuture, Error>)
        requires
            old(reactor).wf(),
        ensures
            final(reactor).wf(),
            submitted_as(*old(reactor), *final(reactor), r, IoOperation::Recv { socket: self.handle_spec(), buf, len }),
    {
        reactor.submit_operation(IoOperation::Recv { socket: self.socket, buf, len })
    }


    /// Starts receiving into the `len` bytes at `buf`, with the sender's address. Returns the operation's future, as
    /// [`IoReactor::submit_operation`] does.
    pub fn recv_from<B: AsyncIoBackend>(&self, reactor: &mut IoReactor<B>, buf: usize, len: usize) -> (r: Result<IoFuture, Error>)
        requires
            old(reactor).wf(),
        ensures
            final(reactor).wf(),
            submitted_as(*old(reactor), *final(reactor), r, IoOperation::RecvFrom { socket: self.handle_spec(), buf, len }),
    {
        reactor.submit_operation(IoOperation::RecvFrom { socket: self.socket, buf, len })
    }

}

} // verus!
