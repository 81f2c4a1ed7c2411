use axasync::buf::{BufReader, BufWriter, WriteResult, DEFAULT_BUF_SIZE};
use axasync::error::{io_error, Error, ErrorKind};
use axasync::Poll;

#[test]
fn kind_descriptions() {
    assert_eq!(ErrorKind::NotFound.as_str(), "entity not found");
    assert_eq!(ErrorKind::WouldBlock.as_str(), "operation would block");
    assert_eq!(ErrorKind::Other.as_str(), "other I/O error");
    assert_eq!(ErrorKind::OutOfMemory.as_str(), "out of memory");
}

#[test]
fn error_fields() {
    let e = Error::new(ErrorKind::TimedOut, String::from("late"));
    assert_eq!(e.kind(), ErrorKind::TimedOut);
    assert_eq!(e.message(), "late");
    let eof = Error::unexpected_eof();
    assert_eq!(eof.kind(), ErrorKind::UnexpectedEof);
    assert_eq!(eof.message(), "unexpected end of file");
    let e = io_error(ErrorKind::BrokenPipe, "gone");
    assert_eq!(e.kind(), ErrorKind::BrokenPipe);
    assert_eq!(e.message(), "gone");
    assert_eq!(e.to_string(), "broken pipe: gone");
    assert_eq!(Error::unexpected_eof().to_string(), "unexpected end of file: unexpected end of file");
}

#[test]
fn reader_hands_out_buffered_bytes() {
    let mut r = BufReader::with_capacity(4, "inner");
    assert!(r.needs_fill());
    assert!(r.bypasses(3));
    assert!(!r.bypasses(0));
    r.fill(vec![1, 2, 3]);
    assert_eq!(r.buffer(), &[1, 2, 3]);
    assert!(!r.bypasses(3));
    assert_eq!(r.consume(2), vec![1, 2]);
    assert_eq!(r.buffer(), &[3]);
    assert_eq!(r.consume(5), vec![3]);
    assert!(r.needs_fill());
    assert_eq!(r.consume(5), Vec::<u8>::new());
    r.fill(vec![9]);
    r.discard_buffer();
    assert_eq!(r.buffer(), &[] as &[u8]);
    assert_eq!(*r.get_ref(), "inner");
    *r.get_mut() = "other";
    assert_eq!(r.into_inner(), "other");
    let d = BufReader::new(0u8);
    assert_eq!(d.buffer().len(), 0);
}

#[test]
fn writer_buffers_up_to_capacity() {
    let mut w = BufWriter::with_capacity(4, Vec::<u8>::new());
    assert!(w.bypasses(4));
    assert!(!w.bypasses(3));
    assert_eq!(w.write_to_buffer(&[1, 2, 3]), 3);
    assert_eq!(w.write_to_buffer(&[4, 5]), 1);
    assert!(w.is_full());
    assert_eq!(w.write_to_buffer(&[6]), 0);
    assert_eq!(w.buffer(), &[1, 2, 3, 4]);
    assert_eq!(DEFAULT_BUF_SIZE, 8192);
    let n = BufWriter::new(());
    assert_eq!(n.buffer().len(), 0);
    w.get_mut().push(1);
    assert_eq!(w.get_ref().len(), 1);
    assert_eq!(w.into_inner(), vec![1]);
}

#[test]
fn flush_steps() {
    let mut w = BufWriter::with_capacity(8, ());
    // an empty buffer is flushed at once
    assert!(matches!(w.flush_start(), Some(Poll::Ready(Ok(())))));
    w.write_to_buffer(&[1, 2, 3, 4, 5]);
    assert!(w.flush_start().is_none());
    // partial write: keep going
    assert!(w.flush_step(WriteResult::Wrote(2), false).is_none());
    assert_eq!(w.buffer(), &[3, 4, 5]);
    // writer stalls after progress: the flush ends well
    assert!(matches!(w.flush_step(WriteResult::Pending, true), Some(Poll::Ready(Ok(())))));
    // writer stalls with no progress: pending
    assert!(matches!(w.flush_step(WriteResult::Pending, false), Some(Poll::Pending)));
    // the rest is written
    assert!(matches!(w.flush_step(WriteResult::Wrote(3), true), Some(Poll::Ready(Ok(())))));
    assert_eq!(w.buffer().len(), 0);
}

#[test]
fn flush_write_zero_is_an_error() {
    let mut w = BufWriter::with_capacity(8, ());
    w.write_to_buffer(&[1]);
    match w.flush_step(WriteResult::Wrote(0), false) {
        Some(Poll::Ready(Err(e))) => assert_eq!(e.kind(), ErrorKind::WriteZero),
        _ => panic!("expected WriteZero"),
    }
    assert!(matches!(w.flush_step(WriteResult::Wrote(0), true), Some(Poll::Ready(Ok(())))));
    let e = io_error(ErrorKind::BrokenPipe, "x");
    match w.flush_step(WriteResult::Failed(e), false) {
        Some(Poll::Ready(Err(e))) => assert_eq!(e.kind(), ErrorKind::BrokenPipe),
        _ => panic!("expected the writer's error"),
    }
    assert_eq!(w.buffer(), &[1]);
}

use axasync::io::{Chain, ChainSource, ReadExact, ReadToEnd, WriteAll};

#[test]
fn read_exact_progress() {
    let mut r = ReadExact::new(5);
    assert!(r.step(Poll::Ready(Ok(2))).is_none());
    assert_eq!(r.filled(), 2);
    // pending keeps what was read
    assert!(matches!(r.step(Poll::Pending), Some(Poll::Pending)));
    assert_eq!(r.filled(), 2);
    assert!(matches!(r.step(Poll::Ready(Ok(3))), Some(Poll::Ready(Ok(())))));
    let mut short = ReadExact::new(4);
    match short.step(Poll::Ready(Ok(0))) {
        Some(Poll::Ready(Err(e))) => {
            assert_eq!(e.kind(), ErrorKind::UnexpectedEof);
            assert_eq!(e.message(), "unexpected end of file");
        }
        _ => panic!("expected end of file"),
    }
}

#[test]
fn write_all_progress() {
    let mut w = WriteAll::new(3);
    assert!(w.step(Poll::Ready(Ok(1))).is_none());
    assert_eq!(w.written(), 1);
    assert!(matches!(w.step(Poll::Ready(Ok(2))), Some(Poll::Ready(Ok(())))));
    let mut z = WriteAll::new(3);
    match z.step(Poll::Ready(Ok(0))) {
        Some(Poll::Ready(Err(e))) => {
            assert_eq!(e.kind(), ErrorKind::WriteZero);
            assert_eq!(e.message(), "write zero bytes");
        }
        _ => panic!("expected WriteZero"),
    }
    let mut f = WriteAll::new(3);
    match f.step(Poll::Ready(Err(io_error(ErrorKind::BrokenPipe, "p")))) {
        Some(Poll::Ready(Err(e))) => assert_eq!(e.kind(), ErrorKind::BrokenPipe),
        _ => panic!("expected the writer's error"),
    }
}

#[test]
fn read_to_end_accumulates() {
    let mut r = ReadToEnd::new();
    assert!(r.step(Poll::Ready(Ok(3)), &[1, 2, 3]).is_none());
    assert!(matches!(r.step(Poll::Pending, &[]), Some(Poll::Pending)));
    assert!(r.step(Poll::Ready(Ok(2)), &[4, 5]).is_none());
    assert!(matches!(r.step(Poll::Ready(Ok(0)), &[]), Some(Poll::Ready(Ok(5)))));
    assert_eq!(r.into_data(), vec![1, 2, 3, 4, 5]);
}

#[test]
fn chain_switches_at_end_of_first() {
    let mut c = Chain::new("a", "b");
    assert_eq!(c.source(), ChainSource::First);
    assert!(matches!(c.first_step(Poll::Ready(Ok(4))), Some(Poll::Ready(Ok(4)))));
    assert_eq!(c.source(), ChainSource::First);
    assert!(matches!(c.first_step(Poll::Pending), Some(Poll::Pending)));
    assert!(c.first_step(Poll::Ready(Ok(0))).is_none());
    assert_eq!(c.source(), ChainSource::Second);
    assert_eq!(*c.first_mut(), "a");
    assert_eq!(*c.second_mut(), "b");
}
