//! Progress of the composite reads and writes: reading an exact length,
//! writing a whole buffer, reading to the end, and reading two sources in
//! turn. Each takes what one poll of the inner reader or writer gave.

use vstd::prelude::*;

use crate::error::{io_error, Error, ErrorKind};
use crate::Poll;

verus! {

/// What one poll of an inner reader or writer gave: a byte count, an
/// error, or pending.
pub type InnerPoll = Poll<Result<usize, Error>>;

/// Reading exactly `len` bytes.
pub struct ReadExact {
    len: usize,
    filled: usize,
}

impl ReadExact {
    pub closed spec fn len_spec(&self) -> nat {
        self.len as nat
    }

    /// Bytes read so far.
    pub closed spec fn filled_spec(&self) -> nat {
        self.filled as nat
    }

    pub fn new(len: usize) -> (r: Self)
        ensures
            r.len_spec() == len,
            r.filled_spec() == 0,
    {
        ReadExact { len, filled: 0 }
    }

    /// Where the next read goes: the offset of the unfilled part.
    pub fn filled(&self) -> (r: usize)
        ensures
            r == self.filled_spec(),
    {
        self.filled
    }

    /// Takes one poll of the inner reader on the unfilled part. Returns the
    /// outcome once decided; `None` means: read again. A read of zero bytes
    /// before the end is an unexpected end of file.
    pub fn step(&mut self, res: InnerPoll) -> (r: Option<Poll<Result<(), Error>>>)
        requires
            old(self).filled_spec() < old(self).len_spec(),
            res matches Poll::Ready(Ok(n)) ==> n <= old(self).len_spec() - old(self).filled_spec(),
        ensures
            final(self).len_spec() == old(self).len_spec(),
            match res {
                Poll::Ready(Ok(n)) => if n == 0 {
                    final(self).filled_spec() == old(self).filled_spec()
                        && (r matches Some(Poll::Ready(Err(e))) && e.kind_spec() == ErrorKind::UnexpectedEof)
                } else {
                    &&& final(self).filled_spec() == old(self).filled_spec() + n
                    &&& final(self).filled_spec() == final(self).len_spec() ==> (r matches Some(Poll::Ready(Ok(()))))
                    &&& final(self).filled_spec() < final(self).len_spec() ==> (r is None)
                },
                Poll::Ready(Err(e)) => final(self).filled_spec() == old(self).filled_spec()
                    && r == Some(Poll::<Result<(), Error>>::Ready(Err(e))),
                Poll::Pending => final(self).filled_spec() == old(self).filled_spec()
                    && (r matches Some(Poll::Pending)),
            },
    {
        match res {
            Poll::Ready(Ok(n)) => {
                if n == 0 {
                    return Some(Poll::Ready(Err(Error::unexpected_eof())));
                }
                self.filled = self.filled + n;
                if self.filled == self.len {
                    Some(Poll::Ready(Ok(())))
                } else {
                    None
                }
            },
            Poll::Ready(Err(e)) => Some(Poll::Ready(Err(e))),
            Poll::Pending => Some(Poll::Pending),
        }
    }
}

/// Writing a whole buffer of `len` bytes.
pub struct WriteAll {
    len: usize,
    written: usize,
}

impl WriteAll {
    pub closed spec fn len_spec(&self) -> nat {
        self.len as nat
    }

    /// Bytes written so far.
    pub closed spec fn written_spec(&self) -> nat {
        self.written as nat
    }

    pub fn new(len: usize) -> (r: Self)
        ensures
            r.len_spec() == len,
            r.written_spec() == 0,
    {
        WriteAll { len, written: 0 }
    }

    /// Where the next write starts: the offset of the unwritten part.
    pub fn written(&self) -> (r: usize)
        ensures
            r == self.written_spec(),
    {
        self.written
    }

    /// Takes one poll of the inner writer on the unwritten part. Returns
    /// the outcome once decided; `None` means: write again. A write of
    /// zero bytes before the end fails.
    pub fn step(&mut self, res: InnerPoll) -> (r: Option<Poll<Result<(), Error>>>)
        requires
            old(self).written_spec() < old(self).len_spec(),
            res matches Poll::Ready(Ok(n)) ==> n <= old(self).len_spec() - old(self).written_spec(),
        ensures
            final(self).len_spec() == old(self).len_spec(),
            match res {
                Poll::Ready(Ok(n)) => if n == 0 {
                    final(self).written_spec() == old(self).written_spec()
                        && (r matches Some(Poll::Ready(Err(e))) && e.kind_spec() == ErrorKind::WriteZero)
                } else {
                    &&& final(self).written_spec() == old(self).written_spec() + n
                    &&& final(self).written_spec() == final(self).len_spec() ==> (r matches Some(Poll::Ready(Ok(()))))
                    &&& final(self).written_spec() < final(self).len_spec() ==> (r is None)
                },
                Poll::Ready(Err(e)) => final(self).written_spec() == old(self).written_spec()
                    && r == Some(Poll::<Result<(), Error>>::Ready(Err(e))),
                Poll::Pending => final(self).written_spec() == old(self).written_spec()
                    && (r matches Some(Poll::Pending)),
            },
    {
        match res {
            Poll::Ready(Ok(n)) => {
                if n == 0 {
                    return Some(Poll::Ready(Err(io_error(ErrorKind::WriteZero, "write zero bytes"))));
                }
                self.written = self.written + n;
                if self.written == self.len {
                    Some(Poll::Ready(Ok(())))
                } else {
                    None
                }
            },
            Poll::Ready(Err(e)) => Some(Poll::Ready(Err(e))),
            Poll::Pending => Some(Poll::Pending),
        }
    }
}

/// Reading until the reader reports its end, appending to a buffer.
pub struct ReadToEnd {
    buf: Vec<u8>,
}

impl ReadToEnd {
    /// The bytes read so far.
    pub closed spec fn data(&self) -> Seq<u8> {
        self.buf@
    }

    pub fn new() -> (r: Self)
        ensures
            r.data() == Seq::<u8>::empty(),
    {
        ReadToEnd { buf: Vec::new() }
    }

    /// Takes one poll of the inner reader, which read the bytes of `chunk`
    /// when it gave a count. Returns the outcome once decided (the total
    /// count at the end); `None` means: read again.
    pub fn step(&mut self, res: InnerPoll, chunk: &[u8]) -> (r: Option<Poll<Result<usize, Error>>>)
        requires
            res matches Poll::Ready(Ok(n)) ==> n == chunk@.len(),
            old(self).data().len() + chunk@.len() <= usize::MAX,
        ensures
            match res {
                Poll::Ready(Ok(n)) => if n == 0 {
                    final(self).data() == old(self).data()
                        && r == Some(Poll::<Result<usize, Error>>::Ready(Ok(old(self).data().len() as usize)))
                } else {
                    final(self).data() == old(self).data() + chunk@ && r is None
                },
                Poll::Ready(Err(e)) => final(self).data() == old(self).data()
                    && r == Some(Poll::<Result<usize, Error>>::Ready(Err(e))),
                Poll::Pending => final(self).data() == old(self).data() && (r matches Some(Poll::Pending)),
            },
    {
        match res {
            Poll::Ready(Ok(n)) => {
                if n == 0 {
                    return Some(Poll::Ready(Ok(self.buf.len())));
                }
                let mut i: usize = 0;
                while i < chunk.len()
                    invariant
                        i <= chunk@.len(),
                        self.buf@ == old(self).buf@ + chunk@.subrange(0, i as int),
                    decreases chunk@.len() - i,
                {
                    self.buf.push(chunk[i]);
                    i = i + 1;
                    assert(self.buf@ =~= old(self).buf@ + chunk@.subrange(0, i as int));
                }
                assert(chunk@.subrange(0, chunk@.len() as int) =~= chunk@);
                None
            },
            Poll::Ready(Err(e)) => Some(Poll::Ready(Err(e))),
            Poll::Pending => Some(Poll::Pending),
        }
    }

    /// The bytes read.
    pub fn into_data(self) -> (r: Vec<u8>)
        ensures
            r@ == self.data(),
    {
        self.buf
    }
}

/// Two readers read in turn: the first until its end, then the second.
pub struct Chain<T, U> {
    first: T,
    second: U,
    done_first: bool,
}

/// Which reader of a [`Chain`] a read goes to.
#[derive(Clone, Copy, Debug, PartialEq, Eq, Structural)]
pub enum ChainSource {
    First,
    Second,
}

impl<T, U> Chain<T, U> {
    pub closed spec fn first_done(&self) -> bool {
        self.done_first
    }

    pub fn new(first: T, second: U) -> (r: Self)
        ensures
            !r.first_done(),
    {
        Chain { first, second, done_first: false }
    }

    /// The reader the next read goes to.
    pub fn source(&self) -> (r: ChainSource)
        ensures
            r == if self.first_done() { ChainSource::Second } else { ChainSource::First },
    {
        if self.done_first {
            ChainSource::Second
        } else {
            ChainSource::First
        }
    }

    /// Takes what one poll of the first reader gave. Returns the read's
    /// result, or `None` when the first reader has ended and the read goes
    /// on to the second.
    pub fn first_step(&mut self, res: InnerPoll) -> (r: Option<InnerPoll>)
        requires
            !old(self).first_done(),
        ensures
            (res matches Poll::Ready(Ok(0usize))) ==> r is None && final(self).first_done(),
            !(res matches Poll::Ready(Ok(0usize))) ==> r == Some(res) && !final(self).first_done(),
    {
        match res {
            Poll::Ready(Ok(0)) => {
                self.done_first = true;
                None
            },
            other => Some(other),
        }
    }

    pub fn first_mut(&mut self) -> (r: &mut T)
        ensures
            final(self).first_done() == old(self).first_done(),
    {
        &mut self.first
    }

    pub fn second_mut(&mut self) -> (r: &mut U)
        ensures
            final(self).first_done() == old(self).first_done(),
    {
        &mut self.second
    }
}

} // verus!
