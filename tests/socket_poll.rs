use axasync::errno::AxError;
use axasync::socket_poll::{accept_step, connect_step, recv_step, send_step, EstablishStep, StreamState, TransferStep};

fn st(connecting: bool, connected: bool, active: bool, may_transfer: bool, ready: bool) -> StreamState {
    StreamState { connecting, connected, active, may_transfer, ready }
}

#[test]
fn recv_decisions() {
    assert_eq!(recv_step(true, st(true, false, true, true, true)), TransferStep::Fail(AxError::WouldBlock));
    assert_eq!(recv_step(true, st(false, false, true, true, true)), TransferStep::Fail(AxError::NotConnected));
    assert_eq!(recv_step(true, st(false, true, true, true, true)), TransferStep::Transfer);
    // later polls no longer look at the connection flags
    assert_eq!(recv_step(false, st(false, false, true, true, false)), TransferStep::Wait);
    assert_eq!(recv_step(false, st(false, true, false, true, true)), TransferStep::Fail(AxError::ConnectionRefused));
    assert_eq!(recv_step(false, st(false, true, true, false, true)), TransferStep::EndOfStream);
}

#[test]
fn send_decisions() {
    assert_eq!(send_step(true, st(true, false, true, true, true)), TransferStep::Fail(AxError::WouldBlock));
    assert_eq!(send_step(false, st(false, true, true, false, true)), TransferStep::Fail(AxError::ConnectionReset));
    assert_eq!(send_step(false, st(false, true, false, true, true)), TransferStep::Fail(AxError::ConnectionReset));
    assert_eq!(send_step(false, st(false, true, true, true, true)), TransferStep::Transfer);
    assert_eq!(send_step(false, st(false, true, true, true, false)), TransferStep::Wait);
}

#[test]
fn accept_and_connect_decisions() {
    assert_eq!(accept_step(true, false, Ok(())), EstablishStep::Fail(AxError::InvalidInput));
    assert_eq!(accept_step(true, true, Ok(())), EstablishStep::Done);
    assert_eq!(accept_step(false, false, Err(AxError::WouldBlock)), EstablishStep::Wait);
    assert_eq!(accept_step(false, true, Err(AxError::NoMemory)), EstablishStep::Fail(AxError::NoMemory));
    assert_eq!(connect_step(false, true), EstablishStep::Wait);
    assert_eq!(connect_step(true, true), EstablishStep::Done);
    assert_eq!(connect_step(true, false), EstablishStep::Fail(AxError::ConnectionRefused));
}
