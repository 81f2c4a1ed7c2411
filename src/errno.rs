//! Error numbers of the kernel and of the Linux system-call interface.

use vstd::prelude::*;

verus! {

/// Errors of the kernel's own interfaces.
#[derive(Clone, Copy, Debug, PartialEq, Eq, Structural)]
pub enum AxError {
    PermissionDenied,
    NotFound,
    NoProcess,
    Interrupted,
    IoError,
    NoDevice,
    ArgListTooLong,
    ExecFormatError,
    BadFileNumber,
    NoChildProcess,
    Again,
    NoMemory,
    PermDenied,
    BadAddress,
    BlockDeviceRequired,
    Busy,
    AlreadyExists,
    CrossDeviceLink,
    NoSuchDevice,
    NotADirectory,
    IsADirectory,
    InvalidInput,
    FileTableOverflow,
    TooManyOpenFiles,
    NotATty,
    TextFileBusy,
    FileTooLarge,
    NoSpaceLeftOnDevice,
    IllegalSeek,
    ReadOnlyFileSystem,
    TooManyLinks,
    BrokenPipe,
    MathOutOfDomain,
    MathNotRepresentable,
    NotImplemented,
    BlockIoError,
    NonExistantMapping,
    TimedOut,
    ConnectionRefused,
    ConnectionAborted,
    ConnectionInProgress,
    ConnectionTimedOut,
    AlreadyConnected,
    ConnectionReset,
    NotConnected,
    AddrInUse,
    AddrNotAvailable,
    NetworkDown,
    NetworkUnreachable,
    NetworkReset,
    SoftwareConnectionAbort,
    WouldBlock,
    InProgress,
    Unsupported,
    ProtocolFamilyNotSupported,
    ProtocolNotSupported,
    ProtocolWrongType,
    InvalidMemRange,
    DestinationAddressRequired,
    MessageTooLarge,
    WrongProtocolType,
    ProtocolNotAvailable,
    UnknownProtocol,
    NotASocket,
    AddressFamilyNotSupported,
    SocketTypeNotSupported,
    ConnectionResetByPeer,
    TransportEndpointAlreadyConnected,
    TransportEndpointNotConnected,
    HostLookupFailed,
    OperationNotSupportedOnEndpoint,
    SocketShutdown,
    DiskError,
}

/// The description of each kernel error.
pub open spec fn ax_text(e: AxError) -> Seq<char> {
    match e {
        AxError::PermissionDenied => "permission denied"@,
        AxError::NotFound => "not found"@,
        AxError::NoProcess => "no such process"@,
        AxError::Interrupted => "interrupted"@,
        AxError::IoError => "I/O error"@,
        AxError::NoDevice => "no such device or address"@,
        AxError::ArgListTooLong => "argument list too long"@,
        AxError::ExecFormatError => "exec format error"@,
        AxError::BadFileNumber => "bad file number"@,
        AxError::NoChildProcess => "no child processes"@,
        AxError::Again => "try again"@,
        AxError::NoMemory => "out of memory"@,
        AxError::PermDenied => "permission denied"@,
        AxError::BadAddress => "bad address"@,
        AxError::BlockDeviceRequired => "block device required"@,
        AxError::Busy => "device or resource busy"@,
        AxError::AlreadyExists => "file exists"@,
        AxError::CrossDeviceLink => "cross-device link"@,
        AxError::NoSuchDevice => "no such device"@,
        AxError::NotADirectory => "not a directory"@,
        AxError::IsADirectory => "is a directory"@,
        AxError::InvalidInput => "invalid argument"@,
        AxError::FileTableOverflow => "file table overflow"@,
        AxError::TooManyOpenFiles => "too many open files"@,
        AxError::NotATty => "not a typewriter"@,
        AxError::TextFileBusy => "text file busy"@,
        AxError::FileTooLarge => "file too large"@,
        AxError::NoSpaceLeftOnDevice => "no space left on device"@,
        AxError::IllegalSeek => "illegal seek"@,
        AxError::ReadOnlyFileSystem => "read-only file system"@,
        AxError::TooManyLinks => "too many links"@,
        AxError::BrokenPipe => "broken pipe"@,
        AxError::MathOutOfDomain => "math argument out of domain of func"@,
        AxError::MathNotRepresentable => "math result not representable"@,
        AxError::NotImplemented => "function not implemented"@,
        AxError::BlockIoError => "block I/O error"@,
        AxError::NonExistantMapping => "non-existent mapping"@,
        AxError::TimedOut => "timer expired"@,
        AxError::ConnectionRefused => "connection refused"@,
        AxError::ConnectionAborted => "connection aborted"@,
        AxError::ConnectionInProgress => "connection already in progress"@,
        AxError::ConnectionTimedOut => "connection timed out"@,
        AxError::AlreadyConnected => "connection is already connected"@,
        AxError::ConnectionReset => "connection was reset"@,
        AxError::NotConnected => "connection is not connected"@,
        AxError::AddrInUse => "address already in use"@,
        AxError::AddrNotAvailable => "address not available"@,
        AxError::NetworkDown => "network is down"@,
        AxError::NetworkUnreachable => "network is unreachable"@,
        AxError::NetworkReset => "network dropped connection because of reset"@,
        AxError::SoftwareConnectionAbort => "software caused connection abort"@,
        AxError::WouldBlock => "operation would block"@,
        AxError::InProgress => "operation already in progress"@,
        AxError::Unsupported => "operation not supported"@,
        AxError::ProtocolFamilyNotSupported => "protocol family not supported"@,
        AxError::ProtocolNotSupported => "protocol not supported"@,
        AxError::ProtocolWrongType => "protocol wrong type for socket"@,
        AxError::InvalidMemRange => "invalid memory range"@,
        AxError::DestinationAddressRequired => "destination address required"@,
        AxError::MessageTooLarge => "message too large"@,
        AxError::WrongProtocolType => "protocol wrong type for socket"@,
        AxError::ProtocolNotAvailable => "protocol not available"@,
        AxError::UnknownProtocol => "unknown protocol"@,
        AxError::NotASocket => "socket operation on non-socket"@,
        AxError::AddressFamilyNotSupported => "protocol family not supported"@,
        AxError::SocketTypeNotSupported => "socket type not supported"@,
        AxError::ConnectionResetByPeer => "connection reset by peer"@,
        AxError::TransportEndpointAlreadyConnected => "transport endpoint is already connected"@,
        AxError::TransportEndpointNotConnected => "transport endpoint is not connected"@,
        AxError::HostLookupFailed => "hostname lookup failed"@,
        AxError::OperationNotSupportedOnEndpoint => "operation not supported on transport endpoint"@,
        AxError::SocketShutdown => "socket is shut down"@,
        AxError::DiskError => "disk error"@,
    }
}

impl AxError {
    /// A short description of the error.
    pub fn as_str(&self) -> (r: &'static str)
        ensures
            r@ == ax_text(*self),
    {
        match *self {
            AxError::PermissionDenied => "permission denied",
            AxError::NotFound => "not found",
            AxError::NoProcess => "no such process",
            AxError::Interrupted => "interrupted",
            AxError::IoError => "I/O error",
            AxError::NoDevice => "no such device or address",
            AxError::ArgListTooLong => "argument list too long",
            AxError::ExecFormatError => "exec format error",
            AxError::BadFileNumber => "bad file number",
            AxError::NoChildProcess => "no child processes",
            AxError::Again => "try again",
            AxError::NoMemory => "out of memory",
            AxError::PermDenied => "permission denied",
            AxError::BadAddress => "bad address",
            AxError::BlockDeviceRequired => "block device required",
            AxError::Busy => "device or resource busy",
            AxError::AlreadyExists => "file exists",
            AxError::CrossDeviceLink => "cross-device link",
            AxError::NoSuchDevice => "no such device",
            AxError::NotADirectory => "not a directory",
            AxError::IsADirectory => "is a directory",
            AxError::InvalidInput => "invalid argument",
            AxError::FileTableOverflow => "file table overflow",
            AxError::TooManyOpenFiles => "too many open files",
            AxError::NotATty => "not a typewriter",
            AxError::TextFileBusy => "text file busy",
            AxError::FileTooLarge => "file too large",
            AxError::NoSpaceLeftOnDevice => "no space left on device",
            AxError::IllegalSeek => "illegal seek",
            AxError::ReadOnlyFileSystem => "read-only file system",
            AxError::TooManyLinks => "too many links",
            AxError::BrokenPipe => "broken pipe",
            AxError::MathOutOfDomain => "math argument out of domain of func",
            AxError::MathNotRepresentable => "math result not representable",
            AxError::NotImplemented => "function not implemented",
            AxError::BlockIoError => "block I/O error",
            AxError::NonExistantMapping => "non-existent mapping",
            AxError::TimedOut => "timer expired",
            AxError::ConnectionRefused => "connection refused",
            AxError::ConnectionAborted => "connection aborted",
            AxError::ConnectionInProgress => "connection already in progress",
            AxError::ConnectionTimedOut => "connection timed out",
            AxError::AlreadyConnected => "connection is already connected",
            AxError::ConnectionReset => "connection was reset",
            AxError::NotConnected => "connection is not connected",
            AxError::AddrInUse => "address already in use",
            AxError::AddrNotAvailable => "address not available",
            AxError::NetworkDown => "network is down",
            AxError::NetworkUnreachable => "network is unreachable",
            AxError::NetworkReset => "network dropped connection because of reset",
            AxError::SoftwareConnectionAbort => "software caused connection abort",
            AxError::WouldBlock => "operation would block",
            AxError::InProgress => "operation already in progress",
            AxError::Unsupported => "operation not supported",
            AxError::ProtocolFamilyNotSupported => "protocol family not supported",
            AxError::ProtocolNotSupported => "protocol not supported",
            AxError::ProtocolWrongType => "protocol wrong type for socket",
            AxError::InvalidMemRange => "invalid memory range",
            AxError::DestinationAddressRequired => "destination address required",
            AxError::MessageTooLarge => "message too large",
            AxError::WrongProtocolType => "protocol wrong type for socket",
            AxError::ProtocolNotAvailable => "protocol not available",
            AxError::UnknownProtocol => "unknown protocol",
            AxError::NotASocket => "socket operation on non-socket",
            AxError::AddressFamilyNotSupported => "protocol family not supported",
            AxError::SocketTypeNotSupported => "socket type not supported",
            AxError::ConnectionResetByPeer => "connection reset by peer",
            AxError::TransportEndpointAlreadyConnected => "transport endpoint is already connected",
            AxError::TransportEndpointNotConnected => "transport endpoint is not connected",
            AxError::HostLookupFailed => "hostname lookup failed",
            AxError::OperationNotSupportedOnEndpoint => "operation not supported on transport endpoint",
            AxError::SocketShutdown => "socket is shut down",
            AxError::DiskError => "disk error",
        }
    }
}

/// Error numbers of the Linux system-call interface.
#[derive(Clone, Copy, Debug, PartialEq, Eq, Structural)]
pub enum LinuxError {
    EPERM,
    ENOENT,
    ESRCH,
    EINTR,
    EIO,
    ENXIO,
    E2BIG,
    ENOEXEC,
    EBADF,
    ECHILD,
    EAGAIN,
    ENOMEM,
    EACCES,
    EFAULT,
    ENOTBLK,
    EBUSY,
    EEXIST,
    EXDEV,
    ENODEV,
    ENOTDIR,
    EISDIR,
    EINVAL,
    ENFILE,
    EMFILE,
    ENOTTY,
    ETXTBSY,
    EFBIG,
    ENOSPC,
    ESPIPE,
    EROFS,
    EMLINK,
    EPIPE,
    EDOM,
    ERANGE,
    ENOSYS,
    ELOOP,
    ENAMETOOLONG,
    EBADFD,
    EADDRINUSE,
    EADDRNOTAVAIL,
    ENETDOWN,
    ENETUNREACH,
    ENETRESET,
    ECONNRESET,
    ENOBUFS,
    EISCONN,
    ENOTCONN,
    ETIMEDOUT,
    ECONNREFUSED,
    EHOSTUNREACH,
    EALREADY,
    EINPROGRESS,
    EWOULDBLOCK,
    ENOTSOCK,
    EMSGSIZE,
    EPROTOTYPE,
    ENOPROTOOPT,
    EPROTONOSUPPORT,
    EAFNOSUPPORT,
    ENOTSUP,
    ENOSYS2,
    EPROTO,
    EOVERFLOW,
    EBADMSG,
}

/// The number of each error.
pub open spec fn linux_code(e: LinuxError) -> i32 {
    match e {
        LinuxError::EPERM => 1,
        LinuxError::ENOENT => 2,
        LinuxError::ESRCH => 3,
        LinuxError::EINTR => 4,
        LinuxError::EIO => 5,
        LinuxError::ENXIO => 6,
        LinuxError::E2BIG => 7,
        LinuxError::ENOEXEC => 8,
        LinuxError::EBADF => 9,
        LinuxError::ECHILD => 10,
        LinuxError::EAGAIN => 11,
        LinuxError::ENOMEM => 12,
        LinuxError::EACCES => 13,
        LinuxError::EFAULT => 14,
        LinuxError::ENOTBLK => 15,
        LinuxError::EBUSY => 16,
        LinuxError::EEXIST => 17,
        LinuxError::EXDEV => 18,
        LinuxError::ENODEV => 19,
        LinuxError::ENOTDIR => 20,
        LinuxError::EISDIR => 21,
        LinuxError::EINVAL => 22,
        LinuxError::ENFILE => 23,
        LinuxError::EMFILE => 24,
        LinuxError::ENOTTY => 25,
        LinuxError::ETXTBSY => 26,
        LinuxError::EFBIG => 27,
        LinuxError::ENOSPC => 28,
        LinuxError::ESPIPE => 29,
        LinuxError::EROFS => 30,
        LinuxError::EMLINK => 31,
        LinuxError::EPIPE => 32,
        LinuxError::EDOM => 33,
        LinuxError::ERANGE => 34,
        LinuxError::ENOSYS => 35,
        LinuxError::ELOOP => 36,
        LinuxError::ENAMETOOLONG => 37,
        LinuxError::EBADFD => 38,
        LinuxError::EADDRINUSE => 39,
        LinuxError::EADDRNOTAVAIL => 40,
        LinuxError::ENETDOWN => 41,
        LinuxError::ENETUNREACH => 42,
        LinuxError::ENETRESET => 43,
        LinuxError::ECONNRESET => 44,
        LinuxError::ENOBUFS => 45,
        LinuxError::EISCONN => 46,
        LinuxError::ENOTCONN => 47,
        LinuxError::ETIMEDOUT => 48,
        LinuxError::ECONNREFUSED => 49,
        LinuxError::EHOSTUNREACH => 50,
        LinuxError::EALREADY => 51,
        LinuxError::EINPROGRESS => 52,
        LinuxError::EWOULDBLOCK => 53,
        LinuxError::ENOTSOCK => 54,
        LinuxError::EMSGSIZE => 55,
        LinuxError::EPROTOTYPE => 56,
        LinuxError::ENOPROTOOPT => 57,
        LinuxError::EPROTONOSUPPORT => 58,
        LinuxError::EAFNOSUPPORT => 59,
        LinuxError::ENOTSUP => 60,
        LinuxError::ENOSYS2 => 61,
        LinuxError::EPROTO => 62,
        LinuxError::EOVERFLOW => 63,
        LinuxError::EBADMSG => 64,
    }
}

/// The description of each error.
pub open spec fn linux_text(e: LinuxError) -> Seq<char> {
    match e {
        LinuxError::EPERM => "Operation not permitted"@,
        LinuxError::ENOENT => "No such file or directory"@,
        LinuxError::ESRCH => "No such process"@,
        LinuxError::EINTR => "Interrupted system call"@,
        LinuxError::EIO => "I/O error"@,
        LinuxError::ENXIO => "No such device or address"@,
        LinuxError::E2BIG => "Argument list too long"@,
        LinuxError::ENOEXEC => "Exec format error"@,
        LinuxError::EBADF => "Bad file number"@,
        LinuxError::ECHILD => "No child processes"@,
        LinuxError::EAGAIN => "Try again"@,
        LinuxError::ENOMEM => "Out of memory"@,
        LinuxError::EACCES => "Permission denied"@,
        LinuxError::EFAULT => "Bad address"@,
        LinuxError::ENOTBLK => "Block device required"@,
        LinuxError::EBUSY => "Device or resource busy"@,
        LinuxError::EEXIST => "File exists"@,
        LinuxError::EXDEV => "Cross-device link"@,
        LinuxError::ENODEV => "No such device"@,
        LinuxError::ENOTDIR => "Not a directory"@,
        LinuxError::EISDIR => "Is a directory"@,
        LinuxError::EINVAL => "Invalid argument"@,
        LinuxError::ENFILE => "File table overflow"@,
        LinuxError::EMFILE => "Too many open files"@,
        LinuxError::ENOTTY => "Not a typewriter"@,
        LinuxError::ETXTBSY => "Text file busy"@,
        LinuxError::EFBIG => "File too large"@,
        LinuxError::ENOSPC => "No space left on device"@,
        LinuxError::ESPIPE => "Illegal seek"@,
        LinuxError::EROFS => "Read-only file system"@,
        LinuxError::EMLINK => "Too many links"@,
        LinuxError::EPIPE => "Broken pipe"@,
        LinuxError::EDOM => "Math argument out of domain of func"@,
        LinuxError::ERANGE => "Math result not representable"@,
        LinuxError::ENOSYS => "Function not implemented"@,
        LinuxError::ELOOP => "Too many symbolic links encountered"@,
        LinuxError::ENAMETOOLONG => "File name too long"@,
        LinuxError::EBADFD => "File descriptor in bad state"@,
        LinuxError::EADDRINUSE => "Address already in use"@,
        LinuxError::EADDRNOTAVAIL => "Cannot assign requested address"@,
        LinuxError::ENETDOWN => "Network is down"@,
        LinuxError::ENETUNREACH => "Network is unreachable"@,
        LinuxError::ENETRESET => "Network dropped connection because of reset"@,
        LinuxError::ECONNRESET => "Connection reset by peer"@,
        LinuxError::ENOBUFS => "No buffer space available"@,
        LinuxError::EISCONN => "Transport endpoint is already connected"@,
        LinuxError::ENOTCONN => "Transport endpoint is not connected"@,
        LinuxError::ETIMEDOUT => "Connection timed out"@,
        LinuxError::ECONNREFUSED => "Connection refused"@,
        LinuxError::EHOSTUNREACH => "No route to host"@,
        LinuxError::EALREADY => "Operation already in progress"@,
        LinuxError::EINPROGRESS => "Operation now in progress"@,
        LinuxError::EWOULDBLOCK => "Operation would block"@,
        LinuxError::ENOTSOCK => "Socket operation on non-socket"@,
        LinuxError::EMSGSIZE => "Message too long"@,
        LinuxError::EPROTOTYPE => "Protocol wrong type for socket"@,
        LinuxError::ENOPROTOOPT => "Protocol not available"@,
        LinuxError::EPROTONOSUPPORT => "Protocol not supported"@,
        LinuxError::EAFNOSUPPORT => "Address family not supported by protocol"@,
        LinuxError::ENOTSUP => "Operation not supported on transport endpoint"@,
        LinuxError::ENOSYS2 => "Function not implemented"@,
        LinuxError::EPROTO => "Protocol error"@,
        LinuxError::EOVERFLOW => "Value too large for defined data type"@,
        LinuxError::EBADMSG => "Not a data message"@,
    }
}

impl LinuxError {
    /// The error number.
    pub fn code(self) -> (r: i32)
        ensures
            r == linux_code(self),
            1 <= r <= 64,
    {
        match self {
            LinuxError::EPERM => 1,
            LinuxError::ENOENT => 2,
            LinuxError::ESRCH => 3,
            LinuxError::EINTR => 4,
            LinuxError::EIO => 5,
            LinuxError::ENXIO => 6,
            LinuxError::E2BIG => 7,
            LinuxError::ENOEXEC => 8,
            LinuxError::EBADF => 9,
            LinuxError::ECHILD => 10,
            LinuxError::EAGAIN => 11,
            LinuxError::ENOMEM => 12,
            LinuxError::EACCES => 13,
            LinuxError::EFAULT => 14,
            LinuxError::ENOTBLK => 15,
            LinuxError::EBUSY => 16,
            LinuxError::EEXIST => 17,
            LinuxError::EXDEV => 18,
            LinuxError::ENODEV => 19,
            LinuxError::ENOTDIR => 20,
            LinuxError::EISDIR => 21,
            LinuxError::EINVAL => 22,
            LinuxError::ENFILE => 23,
            LinuxError::EMFILE => 24,
            LinuxError::ENOTTY => 25,
            LinuxError::ETXTBSY => 26,
            LinuxError::EFBIG => 27,
            LinuxError::ENOSPC => 28,
            LinuxError::ESPIPE => 29,
            LinuxError::EROFS => 30,
            LinuxError::EMLINK => 31,
            LinuxError::EPIPE => 32,
            LinuxError::EDOM => 33,
            LinuxError::ERANGE => 34,
            LinuxError::ENOSYS => 35,
            LinuxError::ELOOP => 36,
            LinuxError::ENAMETOOLONG => 37,
            LinuxError::EBADFD => 38,
            LinuxError::EADDRINUSE => 39,
            LinuxError::EADDRNOTAVAIL => 40,
            LinuxError::ENETDOWN => 41,
            LinuxError::ENETUNREACH => 42,
            LinuxError::ENETRESET => 43,
            LinuxError::ECONNRESET => 44,
            LinuxError::ENOBUFS => 45,
            LinuxError::EISCONN => 46,
            LinuxError::ENOTCONN => 47,
            LinuxError::ETIMEDOUT => 48,
            LinuxError::ECONNREFUSED => 49,
            LinuxError::EHOSTUNREACH => 50,
            LinuxError::EALREADY => 51,
            LinuxError::EINPROGRESS => 52,
            LinuxError::EWOULDBLOCK => 53,
            LinuxError::ENOTSOCK => 54,
            LinuxError::EMSGSIZE => 55,
            LinuxError::EPROTOTYPE => 56,
            LinuxError::ENOPROTOOPT => 57,
            LinuxError::EPROTONOSUPPORT => 58,
            LinuxError::EAFNOSUPPORT => 59,
            LinuxError::ENOTSUP => 60,
            LinuxError::ENOSYS2 => 61,
            LinuxError::EPROTO => 62,
            LinuxError::EOVERFLOW => 63,
            LinuxError::EBADMSG => 64,
        }
    }

    /// A short description of the error.
    pub fn as_str(self) -> (r: &'static str)
        ensures
            r@ == linux_text(self),
    {
        match self {
            LinuxError::EPERM => "Operation not permitted",
            LinuxError::ENOENT => "No such file or directory",
            LinuxError::ESRCH => "No such process",
            LinuxError::EINTR => "Interrupted system call",
            LinuxError::EIO => "I/O error",
            LinuxError::ENXIO => "No such device or address",
            LinuxError::E2BIG => "Argument list too long",
            LinuxError::ENOEXEC => "Exec format error",
            LinuxError::EBADF => "Bad file number",
            LinuxError::ECHILD => "No child processes",
            LinuxError::EAGAIN => "Try again",
            LinuxError::ENOMEM => "Out of memory",
            LinuxError::EACCES => "Permission denied",
            LinuxError::EFAULT => "Bad address",
            LinuxError::ENOTBLK => "Block device required",
            LinuxError::EBUSY => "Device or resource busy",
            LinuxError::EEXIST => "File exists",
            LinuxError::EXDEV => "Cross-device link",
            LinuxError::ENODEV => "No such device",
            LinuxError::ENOTDIR => "Not a directory",
            LinuxError::EISDIR => "Is a directory",
            LinuxError::EINVAL => "Invalid argument",
            LinuxError::ENFILE => "File table overflow",
            LinuxError::EMFILE => "Too many open files",
            LinuxError::ENOTTY => "Not a typewriter",
            LinuxError::ETXTBSY => "Text file busy",
            LinuxError::EFBIG => "File too large",
            LinuxError::ENOSPC => "No space left on device",
            LinuxError::ESPIPE => "Illegal seek",
            LinuxError::EROFS => "Read-only file system",
            LinuxError::EMLINK => "Too many links",
            LinuxError::EPIPE => "Broken pipe",
            LinuxError::EDOM => "Math argument out of domain of func",
            LinuxError::ERANGE => "Math result not representable",
            LinuxError::ENOSYS => "Function not implemented",
            LinuxError::ELOOP => "Too many symbolic links encountered",
            LinuxError::ENAMETOOLONG => "File name too long",
            LinuxError::EBADFD => "File descriptor in bad state",
            LinuxError::EADDRINUSE => "Address already in use",
            LinuxError::EADDRNOTAVAIL => "Cannot assign requested address",
            LinuxError::ENETDOWN => "Network is down",
            LinuxError::ENETUNREACH => "Network is unreachable",
            LinuxError::ENETRESET => "Network dropped connection because of reset",
            LinuxError::ECONNRESET => "Connection reset by peer",
            LinuxError::ENOBUFS => "No buffer space available",
            LinuxError::EISCONN => "Transport endpoint is already connected",
            LinuxError::ENOTCONN => "Transport endpoint is not connected",
            LinuxError::ETIMEDOUT => "Connection timed out",
            LinuxError::ECONNREFUSED => "Connection refused",
            LinuxError::EHOSTUNREACH => "No route to host",
            LinuxError::EALREADY => "Operation already in progress",
            LinuxError::EINPROGRESS => "Operation now in progress",
            LinuxError::EWOULDBLOCK => "Operation would block",
            LinuxError::ENOTSOCK => "Socket operation on non-socket",
            LinuxError::EMSGSIZE => "Message too long",
            LinuxError::EPROTOTYPE => "Protocol wrong type for socket",
            LinuxError::ENOPROTOOPT => "Protocol not available",
            LinuxError::EPROTONOSUPPORT => "Protocol not supported",
            LinuxError::EAFNOSUPPORT => "Address family not supported by protocol",
            LinuxError::ENOTSUP => "Operation not supported on transport endpoint",
            LinuxError::ENOSYS2 => "Function not implemented",
            LinuxError::EPROTO => "Protocol error",
            LinuxError::EOVERFLOW => "Value too large for defined data type",
            LinuxError::EBADMSG => "Not a data message",
        }
    }

    /// The error whose number is `value`, if there is one.
    pub fn from_code(value: i32) -> (r: Option<LinuxError>)
        ensures
            r matches Some(e) ==> linux_code(e) == value,
            r is None <==> (value < 1 || value > 64),
    {
        match value {
            1 => Some(LinuxError::EPERM),
            2 => Some(LinuxError::ENOENT),
            3 => Some(LinuxError::ESRCH),
            4 => Some(LinuxError::EINTR),
            5 => Some(LinuxError::EIO),
            6 => Some(LinuxError::ENXIO),
            7 => Some(LinuxError::E2BIG),
            8 => Some(LinuxError::ENOEXEC),
            9 => Some(LinuxError::EBADF),
            10 => Some(LinuxError::ECHILD),
            11 => Some(LinuxError::EAGAIN),
            12 => Some(LinuxError::ENOMEM),
            13 => Some(LinuxError::EACCES),
            14 => Some(LinuxError::EFAULT),
            15 => Some(LinuxError::ENOTBLK),
            16 => Some(LinuxError::EBUSY),
            17 => Some(LinuxError::EEXIST),
            18 => Some(LinuxError::EXDEV),
            19 => Some(LinuxError::ENODEV),
            20 => Some(LinuxError::ENOTDIR),
            21 => Some(LinuxError::EISDIR),
            22 => Some(LinuxError::EINVAL),
            23 => Some(LinuxError::ENFILE),
            24 => Some(LinuxError::EMFILE),
            25 => Some(LinuxError::ENOTTY),
            26 => Some(LinuxError::ETXTBSY),
            27 => Some(LinuxError::EFBIG),
            28 => Some(LinuxError::ENOSPC),
            29 => Some(LinuxError::ESPIPE),
            30 => Some(LinuxError::EROFS),
            31 => Some(LinuxError::EMLINK),
            32 => Some(LinuxError::EPIPE),
            33 => Some(LinuxError::EDOM),
            34 => Some(LinuxError::ERANGE),
            35 => Some(LinuxError::ENOSYS),
            36 => Some(LinuxError::ELOOP),
            37 => Some(LinuxError::ENAMETOOLONG),
            38 => Some(LinuxError::EBADFD),
            39 => Some(LinuxError::EADDRINUSE),
            40 => Some(LinuxError::EADDRNOTAVAIL),
            41 => Some(LinuxError::ENETDOWN),
            42 => Some(LinuxError::ENETUNREACH),
            43 => Some(LinuxError::ENETRESET),
            44 => Some(LinuxError::ECONNRESET),
            45 => Some(LinuxError::ENOBUFS),
            46 => Some(LinuxError::EISCONN),
            47 => Some(LinuxError::ENOTCONN),
            48 => Some(LinuxError::ETIMEDOUT),
            49 => Some(LinuxError::ECONNREFUSED),
            50 => Some(LinuxError::EHOSTUNREACH),
            51 => Some(LinuxError::EALREADY),
            52 => Some(LinuxError::EINPROGRESS),
            53 => Some(LinuxError::EWOULDBLOCK),
            54 => Some(LinuxError::ENOTSOCK),
            55 => Some(LinuxError::EMSGSIZE),
            56 => Some(LinuxError::EPROTOTYPE),
            57 => Some(LinuxError::ENOPROTOOPT),
            58 => Some(LinuxError::EPROTONOSUPPORT),
            59 => Some(LinuxError::EAFNOSUPPORT),
            60 => Some(LinuxError::ENOTSUP),
            61 => Some(LinuxError::ENOSYS2),
            62 => Some(LinuxError::EPROTO),
            63 => Some(LinuxError::EOVERFLOW),
            64 => Some(LinuxError::EBADMSG),
            _ => None,
        }
    }
}

} // verus!
