//! A reactor backend that performs each operation at once on a synchronous
//! socket device and queues its completion.

use std::collections::VecDeque;
use vstd::prelude::*;

use crate::errno::AxError;
use crate::error::{io_error, Error, ErrorKind};
use crate::reactor::{AsyncIoBackend, Completion, IoOperation, RequestId, SocketAddr, SocketHandle};

verus! {

/// The kind of a socket known to a device.
#[derive(Clone, Copy, Debug, PartialEq, Eq, Structural)]
pub enum SocketKind {
    Tcp,
    Udp,
    Unknown,
}

/// Synchronous, fallible operations on socket-like resources. `buf` and
/// `len` describe the caller's buffer.
pub trait SocketDevice {
    fn kind(&self, socket: SocketHandle) -> SocketKind;

    fn recv(&mut self, socket: SocketHandle, buf: usize, len: usize) -> Result<usize, AxError>;

    fn send(&mut self, socket: SocketHandle, buf: usize, len: usize) -> Result<usize, AxError>;

    fn connect(&mut self, socket: SocketHandle, addr: SocketAddr) -> Result<(), AxError>;

    fn accept(&mut self, socket: SocketHandle) -> Result<SocketHandle, AxError>;

    fn send_to(&mut self, socket: SocketHandle, buf: usize, len: usize, addr: SocketAddr) -> Result<usize, AxError>;

    fn recv_from(&mut self, socket: SocketHandle, buf: usize, len: usize) -> Result<(usize, SocketAddr), AxError>;
}

/// Whether a socket of kind `kind` supports `op`: reads and writes on any
/// known socket, connecting and accepting on TCP, datagrams on UDP.
pub open spec fn supports(kind: SocketKind, op: IoOperation) -> bool {
    match op {
        IoOperation::Read { .. } | IoOperation::Write { .. } => kind != SocketKind::Unknown,
        IoOperation::Connect { .. } | IoOperation::Accept { .. } => kind == SocketKind::Tcp,
        _ => kind == SocketKind::Udp,
    }
}

/// The message of the error for an operation on a socket that does not support it.
pub open spec fn rejection_text(op: IoOperation) -> Seq<char> {
    match op {
        IoOperation::Read { .. } | IoOperation::Write { .. } => "Unknown socket type"@,
        IoOperation::Connect { .. } | IoOperation::Accept { .. } => "Socket is not a TCP socket"@,
        _ => "Socket is not a UDP socket"@,
    }
}

/// Whether `c` is a completion of the kind `op` asks for: its own variant,
/// or an error.
pub open spec fn fits(op: IoOperation, c: Completion) -> bool {
    match c {
        Completion::Error(_) => true,
        Completion::Read(_) => op is Read,
        Completion::Write(_) => op is Write,
        Completion::Connect => op is Connect,
        Completion::Accept(_) => op is Accept,
        Completion::Send(_) => op is Send,
        Completion::SendTo(_) => op is SendTo,
        Completion::Recv(_) => op is Recv,
        Completion::RecvFrom(_, _) => op is RecvFrom,
    }
}

/// Whether `kind` supports `op`.
pub fn supported(kind: SocketKind, op: &IoOperation) -> (r: bool)
    ensures
        r == supports(kind, *op),
{
    match op {
        IoOperation::Read { .. } | IoOperation::Write { .. } => kind != SocketKind::Unknown,
        IoOperation::Connect { .. } | IoOperation::Accept { .. } => kind == SocketKind::Tcp,
        _ => kind == SocketKind::Udp,
    }
}

/// The error for `op` on a socket that does not support it.
pub fn rejection(op: &IoOperation) -> (r: Error)
    ensures
        r.kind_spec() == ErrorKind::InvalidInput,
        r.message_spec() == rejection_text(*op),
{
    match op {
        IoOperation::Read { .. } | IoOperation::Write { .. } => io_error(ErrorKind::InvalidInput, "Unknown socket type"),
        IoOperation::Connect { .. } | IoOperation::Accept { .. } => io_error(ErrorKind::InvalidInput, "Socket is not a TCP socket"),
        _ => io_error(ErrorKind::InvalidInput, "Socket is not a UDP socket"),
    }
}

/// Performs `op` on `device`: an operation that the target socket's kind
/// does not support is rejected with an invalid-input error; otherwise the
/// device's result becomes the completion of the operation's kind, or the
/// I/O error for the device's error.
pub fn perform<D: SocketDevice>(device: &mut D, op: IoOperation) -> (r: Completion)
    ensures
        fits(op, r),
{
    let kind = device.kind(match &op {
        IoOperation::Read { socket, .. } => *socket,
        IoOperation::Write { socket, .. } => *socket,
        IoOperation::Connect { socket, .. } => *socket,
        IoOperation::Accept { socket } => *socket,
        IoOperation::Send { socket, .. } => *socket,
        IoOperation::SendTo { socket, .. } => *socket,
        IoOperation::Recv { socket, .. } => *socket,
        IoOperation::RecvFrom { socket, .. } => *socket,
    });
    perform_on(device, kind, op)
}

/// Performs `op` on `device`, whose target socket is of kind `kind`: an
/// operation that `kind` does not support is rejected with an
/// invalid-input error without calling the device; otherwise the device's
/// result becomes the completion of the operation's kind, or the I/O error
/// for the device's error.
pub fn perform_on<D: SocketDevice>(device: &mut D, kind: SocketKind, op: IoOperation) -> (r: Completion)
    ensures
        fits(op, r),
        !supports(kind, op) ==> (r matches Completion::Error(e) && e.kind_spec() == ErrorKind::InvalidInput
            && e.message_spec() == rejection_text(op)),
{
    if !supported(kind, &op) {
        return Completion::Error(rejection(&op));
    }
    match op {
        IoOperation::Read { socket, buf, len } => match device.recv(socket, buf, len) {
            Ok(n) => Completion::Read(n),
            Err(e) => Completion::Error(Error::from_ax(e)),
        },
        IoOperation::Write { socket, buf, len } => match device.send(socket, buf, len) {
            Ok(n) => Completion::Write(n),
            Err(e) => Completion::Error(Error::from_ax(e)),
        },
        IoOperation::Connect { socket, addr } => match device.connect(socket, addr) {
            Ok(()) => Completion::Connect,
            Err(e) => Completion::Error(Error::from_ax(e)),
        },
        IoOperation::Accept { socket } => match device.accept(socket) {
            Ok(s) => Completion::Accept(s),
            Err(e) => Completion::Error(Error::from_ax(e)),
        },
        IoOperation::Send { socket, buf, len } => match device.send(socket, buf, len) {
            Ok(n) => Completion::Send(n),
            Err(e) => Completion::Error(Error::from_ax(e)),
        },
        IoOperation::SendTo { socket, buf, len, addr } => match device.send_to(socket, buf, len, addr) {
            Ok(n) => Completion::SendTo(n),
            Err(e) => Completion::Error(Error::from_ax(e)),
        },
        IoOperation::Recv { socket, buf, len } => match device.recv(socket, buf, len) {
            Ok(n) => Completion::Recv(n),
            Err(e) => Completion::Error(Error::from_ax(e)),
        },
        IoOperation::RecvFrom { socket, buf, len } => match device.recv_from(socket, buf, len) {
            Ok((n, a)) => Completion::RecvFrom(n, a),
            Err(e) => Completion::Error(Error::from_ax(e)),
        },
    }
}

/// A backend over a synchronous socket device: each operation is performed
/// when submitted and its completion waits to be polled.
pub struct SyncBackend<D> {
    device: D,
    completions: VecDeque<(RequestId, Completion)>,
    log: Ghost<Seq<(RequestId, IoOperation)>>,
}

impl<D: SocketDevice> SyncBackend<D> {
    /// The completions not yet handed out, oldest first.
    pub closed spec fn queued(&self) -> Seq<(RequestId, Completion)> {
        self.completions@
    }

    pub closed spec fn log(&self) -> Seq<(RequestId, IoOperation)> {
        self.log@
    }

    pub fn new(device: D) -> (r: Self)
        ensures
            r.queued() == Seq::<(RequestId, Completion)>::empty(),
            r.log() == Seq::<(RequestId, IoOperation)>::empty(),
    {
        SyncBackend { device, completions: VecDeque::new(), log: Ghost(Seq::empty()) }
    }

    /// Performs `operation` and queues its completion under `id`.
    pub fn perform_and_queue(&mut self, id: RequestId, operation: IoOperation)
        ensures
            final(self).queued().len() == old(self).queued().len() + 1,
            final(self).queued().drop_last() == old(self).queued(),
            final(self).queued().last().0 == id,
            fits(operation, final(self).queued().last().1),
            final(self).log() == old(self).log().push((id, operation)),
    {
        let ghost op = operation;
        proof {
            self.log = Ghost(self.log@.push((id, op)));
        }
        let c = perform(&mut self.device, operation);
        self.completions.push_back((id, c));
        assert(self.completions@.drop_last() =~= old(self).completions@);
    }

    /// Hands out every queued completion, oldest first.
    pub fn drain(&mut self) -> (r: Vec<(RequestId, Completion)>)
        ensures
            r@ == old(self).queued(),
            final(self).queued() == Seq::<(RequestId, Completion)>::empty(),
            final(self).log() == old(self).log(),
    {
        let mut out: Vec<(RequestId, Completion)> = Vec::new();
        while self.completions.len() > 0
            invariant
                out@ + self.completions@ == old(self).completions@,
                self.log@ == old(self).log@,
            decreases self.completions@.len(),
        {
            let ghost before = self.completions@;
            let c = self.completions.pop_front().unwrap();
            out.push(c);
            assert(out@ + self.completions@ =~= old(self).completions@) by {
                assert(before =~= seq![c] + self.completions@);
            }
        }
        assert(out@ =~= old(self).completions@);
        out
    }
}

/// A backend that performs nothing itself: it records what is submitted,
/// and completions are handed to it by whoever stands in for the device.
pub struct ManualBackend {
    submitted: Vec<(RequestId, IoOperation)>,
    completions: VecDeque<(RequestId, Completion)>,
}

impl ManualBackend {
    pub closed spec fn log(&self) -> Seq<(RequestId, IoOperation)> {
        self.submitted@
    }

    /// The completions not yet handed out, oldest first.
    pub closed spec fn queued(&self) -> Seq<(RequestId, Completion)> {
        self.completions@
    }

    pub fn new() -> (r: Self)
        ensures
            r.log() == Seq::<(RequestId, IoOperation)>::empty(),
            r.queued() == Seq::<(RequestId, Completion)>::empty(),
    {
        ManualBackend { submitted: Vec::new(), completions: VecDeque::new() }
    }

    /// The operations submitted so far, with their identifiers.
    pub fn submissions(&self) -> (r: &Vec<(RequestId, IoOperation)>)
        ensures
            r@ == self.log(),
    {
        &self.submitted
    }

    /// Queues the completion `c` of request `id`.
    pub fn finish(&mut self, id: RequestId, c: Completion)
        ensures
            final(self).queued() == old(self).queued().push((id, c)),
            final(self).log() == old(self).log(),
    {
        self.completions.push_back((id, c));
    }

    /// Hands out every queued completion, oldest first.
    pub fn drain(&mut self) -> (r: Vec<(RequestId, Completion)>)
        ensures
            r@ == old(self).queued(),
            final(self).queued() == Seq::<(RequestId, Completion)>::empty(),
            final(self).log() == old(self).log(),
    {
        let mut out: Vec<(RequestId, Completion)> = Vec::new();
        while self.completions.len() > 0
            invariant
                out@ + self.completions@ == old(self).completions@,
                self.submitted@ == old(self).submitted@,
            decreases self.completions@.len(),
        {
            let ghost before = self.completions@;
            let c = self.completions.pop_front().unwrap();
            out.push(c);
            assert(out@ + self.completions@ =~= old(self).completions@) by {
                assert(before =~= seq![c] + self.completions@);
            }
        }
        assert(out@ =~= old(self).completions@);
        out
    }
}

impl AsyncIoBackend for ManualBackend {
    open spec fn submitted(&self) -> Seq<(RequestId, IoOperation)> {
        self.log()
    }

    fn submit(&mut self, id: RequestId, operation: IoOperation) {
        self.submitted.push((id, operation));
    }

    fn poll(&mut self) -> Vec<(RequestId, Completion)> {
        self.drain()
    }
}

impl<D: SocketDevice> AsyncIoBackend for SyncBackend<D> {
    open spec fn submitted(&self) -> Seq<(RequestId, IoOperation)> {
        self.log()
    }

    fn submit(&mut self, id: RequestId, operation: IoOperation) {
        self.perform_and_queue(id, operation)
    }

    fn poll(&mut self) -> Vec<(RequestId, Completion)> {
        self.drain()
    }
}

} // verus!
