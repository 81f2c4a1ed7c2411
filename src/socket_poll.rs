//! What one poll of an asynchronous socket operation does, decided from
//! the socket's state as the network stack reports it.

use vstd::prelude::*;

use crate::errno::AxError;

verus! {

/// The state of a stream socket, as read by one poll.
#[derive(Clone, Copy, Debug, PartialEq, Eq, Structural)]
pub struct StreamState {
    /// The socket's own state: a connection is being set up.
    pub connecting: bool,
    /// The socket's own state: the connection is set up.
    pub connected: bool,
    /// The stack's socket is open.
    pub active: bool,
    /// The peer may still send (for receiving) or the socket may still send.
    pub may_transfer: bool,
    /// Data is queued to be received, or there is room to send.
    pub ready: bool,
}

/// The outcome of one poll of a receive or send.
#[derive(Clone, Copy, Debug, PartialEq, Eq, Structural)]
pub enum TransferStep {
    /// Complete with this error.
    Fail(AxError),
    /// Complete with zero bytes: the peer closed its side.
    EndOfStream,
    /// Move the data now and complete with its length.
    Transfer,
    /// Register the wake handle with the socket and stay pending.
    Wait,
}

/// One poll of a receive. The first poll fails on a socket that is still
/// connecting (would block) or not connected. Then: a closed socket refuses,
/// a peer that may send no more ends the stream, queued data is received,
/// else the receive waits.
pub fn recv_step(first: bool, s: StreamState) -> (r: TransferStep)
    ensures
        first && s.connecting ==> r == TransferStep::Fail(AxError::WouldBlock),
        first && !s.connecting && !s.connected ==> r == TransferStep::Fail(AxError::NotConnected),
        !(first && (s.connecting || !s.connected)) ==> r == if !s.active {
            TransferStep::Fail(AxError::ConnectionRefused)
        } else if !s.may_transfer {
            TransferStep::EndOfStream
        } else if s.ready {
            TransferStep::Transfer
        } else {
            TransferStep::Wait
        },
{
    if first {
        if s.connecting {
            return TransferStep::Fail(AxError::WouldBlock);
        } else if !s.connected {
            return TransferStep::Fail(AxError::NotConnected);
        }
    }
    if !s.active {
        TransferStep::Fail(AxError::ConnectionRefused)
    } else if !s.may_transfer {
        TransferStep::EndOfStream
    } else if s.ready {
        TransferStep::Transfer
    } else {
        TransferStep::Wait
    }
}

/// One poll of a send. The first poll fails as for a receive. Then: a
/// closed socket, or one that may send no more, fails with a reset; room
/// to send means the data is sent, else the send waits.
pub fn send_step(first: bool, s: StreamState) -> (r: TransferStep)
    ensures
        first && s.connecting ==> r == TransferStep::Fail(AxError::WouldBlock),
        first && !s.connecting && !s.connected ==> r == TransferStep::Fail(AxError::NotConnected),
        !(first && (s.connecting || !s.connected)) ==> r == if !s.active || !s.may_transfer {
            TransferStep::Fail(AxError::ConnectionReset)
        } else if s.ready {
            TransferStep::Transfer
        } else {
            TransferStep::Wait
        },
{
    if first {
        if s.connecting {
            return TransferStep::Fail(AxError::WouldBlock);
        } else if !s.connected {
            return TransferStep::Fail(AxError::NotConnected);
        }
    }
    if !s.active || !s.may_transfer {
        TransferStep::Fail(AxError::ConnectionReset)
    } else if s.ready {
        TransferStep::Transfer
    } else {
        TransferStep::Wait
    }
}

/// The outcome of one poll of an accept or a connect.
#[derive(Clone, Copy, Debug, PartialEq, Eq, Structural)]
pub enum EstablishStep {
    Fail(AxError),
    /// Complete successfully (with the accepted connection, for an accept).
    Done,
    Wait,
}

/// One poll of an accept: the first poll fails on a socket that is not
/// listening; then the listen table's answer decides: a connection
/// completes the accept, `WouldBlock` waits, another error fails.
pub fn accept_step(first: bool, listening: bool, table: Result<(), AxError>) -> (r: EstablishStep)
    ensures
        first && !listening ==> r == EstablishStep::Fail(AxError::InvalidInput),
        !(first && !listening) ==> r == match table {
            Ok(()) => EstablishStep::Done,
            Err(AxError::WouldBlock) => EstablishStep::Wait,
            Err(e) => EstablishStep::Fail(e),
        },
{
    if first && !listening {
        return EstablishStep::Fail(AxError::InvalidInput);
    }
    match table {
        Ok(()) => EstablishStep::Done,
        Err(AxError::WouldBlock) => EstablishStep::Wait,
        Err(e) => EstablishStep::Fail(e),
    }
}

/// One poll of a connect once it was started: it waits until the socket
/// is writable, then succeeds if the connection is set up and is refused
/// otherwise.
pub fn connect_step(writable: bool, connected: bool) -> (r: EstablishStep)
    ensures
        !writable ==> r == EstablishStep::Wait,
        writable && connected ==> r == EstablishStep::Done,
        writable && !connected ==> r == EstablishStep::Fail(AxError::ConnectionRefused),
{
    if !writable {
        EstablishStep::Wait
    } else if connected {
        EstablishStep::Done
    } else {
        EstablishStep::Fail(AxError::ConnectionRefused)
    }
}

} // verus!
