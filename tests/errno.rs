use axasync::errno::{AxError, LinuxError};
use axasync::error::{Error, ErrorKind};

#[test]
fn linux_codes_and_descriptions() {
    assert_eq!(LinuxError::EPERM.code(), 1);
    assert_eq!(LinuxError::EAGAIN.code(), 11);
    assert_eq!(LinuxError::EBADMSG.code(), 64);
    assert_eq!(LinuxError::ENOENT.as_str(), "No such file or directory");
    assert_eq!(LinuxError::EWOULDBLOCK.as_str(), "Operation would block");
}

#[test]
fn linux_from_code() {
    assert_eq!(LinuxError::from_code(1), Some(LinuxError::EPERM));
    assert_eq!(LinuxError::from_code(49), Some(LinuxError::ECONNREFUSED));
    assert_eq!(LinuxError::from_code(64), Some(LinuxError::EBADMSG));
    assert_eq!(LinuxError::from_code(0), None);
    assert_eq!(LinuxError::from_code(65), None);
    assert_eq!(LinuxError::from_code(-3), None);
    for c in 1..=64 {
        assert_eq!(LinuxError::from_code(c).unwrap().code(), c);
    }
}

#[test]
fn kernel_error_descriptions() {
    assert_eq!(AxError::NotFound.as_str(), "not found");
    assert_eq!(AxError::TimedOut.as_str(), "timer expired");
    assert_eq!(AxError::DiskError.as_str(), "disk error");
}

#[test]
fn io_error_from_kernel_error() {
    let e = Error::from_ax(AxError::PermDenied);
    assert_eq!(e.kind(), ErrorKind::PermissionDenied);
    assert_eq!(e.message(), "permission denied");
    assert_eq!(Error::from_ax(AxError::ConnectionTimedOut).kind(), ErrorKind::TimedOut);
    assert_eq!(Error::from_ax(AxError::NoMemory).kind(), ErrorKind::OutOfMemory);
    assert_eq!(Error::from_ax(AxError::Busy).kind(), ErrorKind::Other);
}

#[test]
fn io_error_from_linux_error() {
    let e = Error::from_linux(LinuxError::EAGAIN);
    assert_eq!(e.kind(), ErrorKind::WouldBlock);
    assert_eq!(e.message(), "Linux error: Try again");
    assert_eq!(Error::from_linux(LinuxError::EACCES).kind(), ErrorKind::PermissionDenied);
    assert_eq!(Error::from_linux(LinuxError::EINTR).kind(), ErrorKind::Interrupted);
    assert_eq!(Error::from_linux(LinuxError::ELOOP).kind(), ErrorKind::Other);
}
