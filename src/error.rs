//! Structured I/O errors: a kind and a message.

use vstd::prelude::*;
use vstd::string::StringExecFns;

use crate::errno::{ax_text, linux_text, AxError, LinuxError};

verus! {

/// The kinds of I/O failure.
#[derive(Clone, Copy, Debug, PartialEq, Eq, Structural)]
pub enum ErrorKind {
    NotFound,
    PermissionDenied,
    ConnectionRefused,
    ConnectionReset,
    ConnectionAborted,
    NotConnected,
    AddrInUse,
    AddrNotAvailable,
    BrokenPipe,
    AlreadyExists,
    WouldBlock,
    InvalidInput,
    InvalidData,
    TimedOut,
    WriteZero,
    ReadZero,
    Disconnected,
    Interrupted,
    Other,
    UnexpectedEof,
    OutOfMemory,
}

/// The description of each kind.
pub open spec fn kind_text(k: ErrorKind) -> Seq<char> {
    match k {
        ErrorKind::NotFound => "entity not found"@,
        ErrorKind::PermissionDenied => "permission denied"@,
        ErrorKind::ConnectionRefused => "connection refused"@,
        ErrorKind::ConnectionReset => "connection reset"@,
        ErrorKind::ConnectionAborted => "connection aborted"@,
        ErrorKind::NotConnected => "not connected"@,
        ErrorKind::AddrInUse => "address in use"@,
        ErrorKind::AddrNotAvailable => "address not available"@,
        ErrorKind::BrokenPipe => "broken pipe"@,
        ErrorKind::AlreadyExists => "entity already exists"@,
        ErrorKind::WouldBlock => "operation would block"@,
        ErrorKind::InvalidInput => "invalid input parameter"@,
        ErrorKind::InvalidData => "invalid data"@,
        ErrorKind::TimedOut => "timed out"@,
        ErrorKind::WriteZero => "write zero"@,
        ErrorKind::ReadZero => "read zero"@,
        ErrorKind::Disconnected => "disconnected"@,
        ErrorKind::Interrupted => "operation interrupted"@,
        ErrorKind::Other => "other I/O error"@,
        ErrorKind::UnexpectedEof => "unexpected end of file"@,
        ErrorKind::OutOfMemory => "out of memory"@,
    }
}

impl ErrorKind {
    /// A short description of the kind.
    pub fn as_str(&self) -> (r: &'static str)
        ensures
            r@ == kind_text(*self),
    {
        match *self {
            ErrorKind::NotFound => "entity not found",
            ErrorKind::PermissionDenied => "permission denied",
            ErrorKind::ConnectionRefused => "connection refused",
            ErrorKind::ConnectionReset => "connection reset",
            ErrorKind::ConnectionAborted => "connection aborted",
            ErrorKind::NotConnected => "not connected",
            ErrorKind::AddrInUse => "address in use",
            ErrorKind::AddrNotAvailable => "address not available",
            ErrorKind::BrokenPipe => "broken pipe",
            ErrorKind::AlreadyExists => "entity already exists",
            ErrorKind::WouldBlock => "operation would block",
            ErrorKind::InvalidInput => "invalid input parameter",
            ErrorKind::InvalidData => "invalid data",
            ErrorKind::TimedOut => "timed out",
            ErrorKind::WriteZero => "write zero",
            ErrorKind::ReadZero => "read zero",
            ErrorKind::Disconnected => "disconnected",
            ErrorKind::Interrupted => "operation interrupted",
            ErrorKind::Other => "other I/O error",
            ErrorKind::UnexpectedEof => "unexpected end of file",
            ErrorKind::OutOfMemory => "out of memory",
        }
    }
}

/// An I/O error: its kind and a message.
#[derive(Debug)]
pub struct Error {
    kind: ErrorKind,
    message: String,
}

impl Error {
    pub closed spec fn kind_spec(&self) -> ErrorKind {
        self.kind
    }

    pub closed spec fn message_spec(&self) -> Seq<char> {
        self.message@
    }

    pub fn new(kind: ErrorKind, message: String) -> (r: Self)
        ensures
            r.kind_spec() == kind,
            r.message_spec() == message@,
    {
        Error { kind, message }
    }

    pub fn kind(&self) -> (r: ErrorKind)
        ensures
            r == self.kind_spec(),
    {
        self.kind
    }

    pub fn message(&self) -> (r: &str)
        ensures
            r@ == self.message_spec(),
    {
        self.message.as_str()
    }

    /// The error as text: the kind's description, a colon, and the message.
    pub fn to_string(&self) -> (r: String)
        ensures
            r@ == kind_text(self.kind_spec()) + ": "@ + self.message_spec(),
    {
        String::from_str(self.kind.as_str()).concat(": ").concat(self.message.as_str())
    }

    /// The error of a read that ended before the data it needed.
    pub fn unexpected_eof() -> (r: Self)
        ensures
            r.kind_spec() == ErrorKind::UnexpectedEof,
            r.message_spec() == "unexpected end of file"@,
    {
        Self::new(ErrorKind::UnexpectedEof, "unexpected end of file".to_owned())
    }
}

/// The kind of I/O error a kernel error stands for.
pub open spec fn ax_kind(e: AxError) -> ErrorKind {
    match e {
        AxError::NotFound => ErrorKind::NotFound,
        AxError::PermissionDenied | AxError::PermDenied => ErrorKind::PermissionDenied,
        AxError::ConnectionRefused => ErrorKind::ConnectionRefused,
        AxError::ConnectionReset | AxError::ConnectionResetByPeer => ErrorKind::ConnectionReset,
        AxError::ConnectionAborted => ErrorKind::ConnectionAborted,
        AxError::NotConnected | AxError::TransportEndpointNotConnected => ErrorKind::NotConnected,
        AxError::AddrInUse => ErrorKind::AddrInUse,
        AxError::AddrNotAvailable => ErrorKind::AddrNotAvailable,
        AxError::BrokenPipe => ErrorKind::BrokenPipe,
        AxError::AlreadyExists => ErrorKind::AlreadyExists,
        AxError::WouldBlock => ErrorKind::WouldBlock,
        AxError::InvalidInput => ErrorKind::InvalidInput,
        AxError::TimedOut | AxError::ConnectionTimedOut => ErrorKind::TimedOut,
        AxError::NoMemory => ErrorKind::OutOfMemory,
        AxError::Interrupted => ErrorKind::Interrupted,
        _ => ErrorKind::Other,
    }
}

/// The kind of I/O error a Linux error number stands for.
pub open spec fn linux_kind(e: LinuxError) -> ErrorKind {
    match e {
        LinuxError::ENOENT => ErrorKind::NotFound,
        LinuxError::EPERM | LinuxError::EACCES => ErrorKind::PermissionDenied,
        LinuxError::ECONNREFUSED => ErrorKind::ConnectionRefused,
        LinuxError::ECONNRESET => ErrorKind::ConnectionReset,
        LinuxError::ENOTCONN => ErrorKind::NotConnected,
        LinuxError::EADDRINUSE => ErrorKind::AddrInUse,
        LinuxError::EADDRNOTAVAIL => ErrorKind::AddrNotAvailable,
        LinuxError::EPIPE => ErrorKind::BrokenPipe,
        LinuxError::EEXIST => ErrorKind::AlreadyExists,
        LinuxError::EWOULDBLOCK | LinuxError::EAGAIN => ErrorKind::WouldBlock,
        LinuxError::EINVAL => ErrorKind::InvalidInput,
        LinuxError::ETIMEDOUT => ErrorKind::TimedOut,
        LinuxError::ENOMEM => ErrorKind::OutOfMemory,
        LinuxError::EINTR => ErrorKind::Interrupted,
        _ => ErrorKind::Other,
    }
}

impl Error {
    /// The I/O error for a kernel error; its message is the kernel error's
    /// description.
    pub fn from_ax(error: AxError) -> (r: Error)
        ensures
            r.kind_spec() == ax_kind(error),
            r.message_spec() == ax_text(error),
    {
        let kind = match error {
            AxError::NotFound => ErrorKind::NotFound,
            AxError::PermissionDenied | AxError::PermDenied => ErrorKind::PermissionDenied,
            AxError::ConnectionRefused => ErrorKind::ConnectionRefused,
            AxError::ConnectionReset | AxError::ConnectionResetByPeer => ErrorKind::ConnectionReset,
            AxError::ConnectionAborted => ErrorKind::ConnectionAborted,
            AxError::NotConnected | AxError::TransportEndpointNotConnected => ErrorKind::NotConnected,
            AxError::AddrInUse => ErrorKind::AddrInUse,
            AxError::AddrNotAvailable => ErrorKind::AddrNotAvailable,
            AxError::BrokenPipe => ErrorKind::BrokenPipe,
            AxError::AlreadyExists => ErrorKind::AlreadyExists,
            AxError::WouldBlock => ErrorKind::WouldBlock,
            AxError::InvalidInput => ErrorKind::InvalidInput,
            AxError::TimedOut | AxError::ConnectionTimedOut => ErrorKind::TimedOut,
            AxError::NoMemory => ErrorKind::OutOfMemory,
            AxError::Interrupted => ErrorKind::Interrupted,
            _ => ErrorKind::Other,
        };
        Error::new(kind, String::from_str(error.as_str()))
    }

    /// The I/O error for a Linux error number; its message names the
    /// number's description.
    pub fn from_linux(error: LinuxError) -> (r: Error)
        ensures
            r.kind_spec() == linux_kind(error),
            r.message_spec() == "Linux error: "@ + linux_text(error),
    {
        let kind = match error {
            LinuxError::ENOENT => ErrorKind::NotFound,
            LinuxError::EPERM | LinuxError::EACCES => ErrorKind::PermissionDenied,
            LinuxError::ECONNREFUSED => ErrorKind::ConnectionRefused,
            LinuxError::ECONNRESET => ErrorKind::ConnectionReset,
            LinuxError::ENOTCONN => ErrorKind::NotConnected,
            LinuxError::EADDRINUSE => ErrorKind::AddrInUse,
            LinuxError::EADDRNOTAVAIL => ErrorKind::AddrNotAvailable,
            LinuxError::EPIPE => ErrorKind::BrokenPipe,
            LinuxError::EEXIST => ErrorKind::AlreadyExists,
            LinuxError::EWOULDBLOCK | LinuxError::EAGAIN => ErrorKind::WouldBlock,
            LinuxError::EINVAL => ErrorKind::InvalidInput,
            LinuxError::ETIMEDOUT => ErrorKind::TimedOut,
            LinuxError::ENOMEM => ErrorKind::OutOfMemory,
            LinuxError::EINTR => ErrorKind::Interrupted,
            _ => ErrorKind::Other,
        };
        Error::new(kind, String::from_str("Linux error: ").concat(error.as_str()))
    }
}

/// An error of kind `kind` with the message `message`.
pub fn io_error(kind: ErrorKind, message: &str) -> (r: Error)
    ensures
        r.kind_spec() == kind,
        r.message_spec() == message@,
{
    Error::new(kind, message.to_owned())
}

} // verus!
