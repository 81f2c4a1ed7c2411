//! Buffering in front of an asynchronous reader or writer.
//!
//! The inner reader or writer is polled by the caller; these types keep
//! the buffer and decide what each poll does with it.

use vstd::prelude::*;

use crate::error::{io_error, Error, ErrorKind};
use crate::Poll;

verus! {

/// Buffer size of a reader or writer made by `new`.
pub const DEFAULT_BUF_SIZE: usize = 8192;

/// A buffer of unread bytes in front of a reader.
pub struct BufReader<R> {
    inner: R,
    buf: Vec<u8>,
    pos: usize,
    cap: usize,
    capacity: usize,
}

impl<R> BufReader<R> {
    pub closed spec fn inner_spec(&self) -> R {
        self.inner
    }

    /// The bytes read from the inner reader and not yet handed out.
    pub closed spec fn buffered(&self) -> Seq<u8> {
        self.buf@.subrange(self.pos as int, self.cap as int)
    }

    pub closed spec fn capacity(&self) -> nat {
        self.capacity as nat
    }

    pub closed spec fn wf(&self) -> bool {
        &&& self.pos <= self.cap
        &&& self.cap <= self.buf@.len()
        &&& self.buf@.len() <= self.capacity
    }

    pub fn new(inner: R) -> (r: Self)
        ensures
            r.wf(),
            r.inner_spec() == inner,
            r.buffered() == Seq::<u8>::empty(),
            r.capacity() == DEFAULT_BUF_SIZE,
    {
        Self::with_capacity(DEFAULT_BUF_SIZE, inner)
    }

    pub fn with_capacity(capacity: usize, inner: R) -> (r: Self)
        ensures
            r.wf(),
            r.inner_spec() == inner,
            r.buffered() == Seq::<u8>::empty(),
            r.capacity() == capacity,
    {
        let r = BufReader { inner, buf: Vec::new(), pos: 0, cap: 0, capacity };
        assert(r.buffered() =~= Seq::<u8>::empty());
        r
    }

    pub fn get_ref(&self) -> (r: &R)
        ensures
            *r == self.inner_spec(),
    {
        &self.inner
    }

    pub fn get_mut(&mut self) -> (r: &mut R)
        ensures
            *r == old(self).inner_spec(),
            final(self).inner_spec() == *final(r),
            final(self).buffered() == old(self).buffered(),
            final(self).capacity() == old(self).capacity(),
            final(self).wf() == old(self).wf(),
    {
        &mut self.inner
    }

    pub fn into_inner(self) -> (r: R)
        ensures
            r == self.inner_spec(),
    {
        self.inner
    }

    /// The buffered bytes.
    pub fn buffer(&self) -> (r: &[u8])
        requires
            self.wf(),
        ensures
            r@ == self.buffered(),
    {
        &self.buf.as_slice()[self.pos..self.cap]
    }

    /// How many bytes one fill of the buffer reads at most.
    pub fn capacity_hint(&self) -> (r: usize)
        ensures
            r == self.capacity(),
    {
        self.capacity
    }

    /// Drops the buffered bytes.
    pub fn discard_buffer(&mut self)
        requires
            old(self).wf(),
        ensures
            final(self).wf(),
            final(self).buffered() == Seq::<u8>::empty(),
            final(self).inner_spec() == old(self).inner_spec(),
            final(self).capacity() == old(self).capacity(),
    {
        self.pos = 0;
        self.cap = 0;
        assert(self.buffered() =~= Seq::<u8>::empty());
    }

    /// Whether a read of `want` bytes goes straight to the inner reader:
    /// nothing is buffered and the read asks for at least one byte.
    pub fn bypasses(&self, want: usize) -> (r: bool)
        requires
            self.wf(),
        ensures
            r == (self.buffered().len() == 0 && want > 0),
    {
        self.pos == self.cap && want > 0
    }

    /// Whether the inner reader must be read into the buffer first.
    pub fn needs_fill(&self) -> (r: bool)
        requires
            self.wf(),
        ensures
            r == (self.buffered().len() == 0),
    {
        self.pos == self.cap
    }

    /// Installs `data`, what one read of the inner reader gave, as the buffer.
    pub fn fill(&mut self, data: Vec<u8>)
        requires
            old(self).wf(),
            data@.len() <= old(self).capacity(),
        ensures
            final(self).wf(),
            final(self).buffered() == data@,
            final(self).inner_spec() == old(self).inner_spec(),
            final(self).capacity() == old(self).capacity(),
    {
        self.cap = data.len();
        self.pos = 0;
        self.buf = data;
        assert(self.buffered() =~= self.buf@);
    }

    /// Hands out up to `want` buffered bytes, oldest first.
    pub fn consume(&mut self, want: usize) -> (r: Vec<u8>)
        requires
            old(self).wf(),
        ensures
            final(self).wf(),
            r@.len() == if want < old(self).buffered().len() { want as int } else { old(self).buffered().len() as int },
            r@ + final(self).buffered() == old(self).buffered(),
            final(self).inner_spec() == old(self).inner_spec(),
            final(self).capacity() == old(self).capacity(),
    {
        let rem = self.cap - self.pos;
        let amt = if want < rem { want } else { rem };
        let mut out: Vec<u8> = Vec::new();
        let mut i: usize = 0;
        while i < amt
            invariant
                self.wf(),
                self.buf@ == old(self).buf@,
                self.pos == old(self).pos,
                self.cap == old(self).cap,
                amt <= self.cap - self.pos,
                i <= amt,
                out@ == self.buf@.subrange(self.pos as int, self.pos + i),
            decreases amt - i,
        {
            out.push(self.buf[self.pos + i]);
            i = i + 1;
            assert(out@ =~= self.buf@.subrange(self.pos as int, self.pos + i));
        }
        self.pos = self.pos + amt;
        assert(out@ + self.buffered() =~= old(self).buffered());
        out
    }
}

/// A buffer of unwritten bytes in front of a writer.
pub struct BufWriter<W> {
    inner: W,
    buf: Vec<u8>,
    capacity: usize,
}

/// What one poll of the inner writer gave.
pub enum WriteResult {
    /// It took this many bytes from the front of what it was given.
    Wrote(usize),
    Failed(Error),
    Pending,
}

impl<W> BufWriter<W> {
    pub closed spec fn inner_spec(&self) -> W {
        self.inner
    }

    /// The bytes accepted and not yet written to the inner writer.
    pub closed spec fn buffered(&self) -> Seq<u8> {
        self.buf@
    }

    pub closed spec fn capacity(&self) -> nat {
        self.capacity as nat
    }

    pub fn new(inner: W) -> (r: Self)
        ensures
            r.inner_spec() == inner,
            r.buffered() == Seq::<u8>::empty(),
            r.capacity() == DEFAULT_BUF_SIZE,
    {
        Self::with_capacity(DEFAULT_BUF_SIZE, inner)
    }

    pub fn with_capacity(capacity: usize, inner: W) -> (r: Self)
        ensures
            r.inner_spec() == inner,
            r.buffered() == Seq::<u8>::empty(),
            r.capacity() == capacity,
    {
        BufWriter { inner, buf: Vec::new(), capacity }
    }

    pub fn get_ref(&self) -> (r: &W)
        ensures
            *r == self.inner_spec(),
    {
        &self.inner
    }

    pub fn get_mut(&mut self) -> (r: &mut W)
        ensures
            *r == old(self).inner_spec(),
            final(self).inner_spec() == *final(r),
            final(self).buffered() == old(self).buffered(),
            final(self).capacity() == old(self).capacity(),
    {
        &mut self.inner
    }

    pub fn into_inner(self) -> (r: W)
        ensures
            r == self.inner_spec(),
    {
        self.inner
    }

    /// The buffered bytes.
    pub fn buffer(&self) -> (r: &[u8])
        ensures
            r@ == self.buffered(),
    {
        self.buf.as_slice()
    }

    /// Whether the buffer is full, so that a write must flush first.
    pub fn is_full(&self) -> (r: bool)
        ensures
            r == (self.buffered().len() >= self.capacity()),
    {
        self.buf.len() >= self.capacity
    }

    /// Whether a write of `len` bytes goes straight to the inner writer
    /// (after the buffer is flushed): it is no smaller than the buffer.
    pub fn bypasses(&self, len: usize) -> (r: bool)
        ensures
            r == (len >= self.capacity()),
    {
        len >= self.capacity
    }

    /// Accepts as much of `data` as the buffer has room for; returns how
    /// many bytes it took.
    pub fn write_to_buffer(&mut self, data: &[u8]) -> (r: usize)
        ensures
            r == if old(self).buffered().len() >= old(self).capacity() {
                0
            } else if data@.len() < old(self).capacity() - old(self).buffered().len() {
                data@.len() as int
            } else {
                old(self).capacity() - old(self).buffered().len()
            },
            final(self).buffered() == old(self).buffered() + data@.subrange(0, r as int),
            final(self).inner_spec() == old(self).inner_spec(),
            final(self).capacity() == old(self).capacity(),
    {
        let available = if self.buf.len() >= self.capacity { 0 } else { self.capacity - self.buf.len() };
        let amt = if data.len() < available { data.len() } else { available };
        let mut i: usize = 0;
        while i < amt
            invariant
                i <= amt,
                amt <= data@.len(),
                self.buf@ == old(self).buf@ + data@.subrange(0, i as int),
                self.inner == old(self).inner,
                self.capacity == old(self).capacity,
            decreases amt - i,
        {
            self.buf.push(data[i]);
            i = i + 1;
            assert(self.buf@ =~= old(self).buf@ + data@.subrange(0, i as int));
        }
        amt
    }

    /// Drops the first `n` buffered bytes, which the inner writer took.
    fn drop_written(&mut self, n: usize)
        requires
            n <= old(self).buffered().len(),
        ensures
            final(self).buffered() == old(self).buffered().skip(n as int),
            final(self).inner_spec() == old(self).inner_spec(),
            final(self).capacity() == old(self).capacity(),
    {
        let mut rest: Vec<u8> = Vec::new();
        let mut i: usize = n;
        while i < self.buf.len()
            invariant
                n <= i <= self.buf@.len(),
                self.buf@ == old(self).buf@,
                rest@ == self.buf@.subrange(n as int, i as int),
            decreases self.buf@.len() - i,
        {
            rest.push(self.buf[i]);
            i = i + 1;
            assert(rest@ =~= self.buf@.subrange(n as int, i as int));
        }
        assert(rest@ =~= old(self).buf@.skip(n as int));
        self.buf = rest;
    }

    /// The start of a flush: an empty buffer is flushed at once (ready,
    /// with success); otherwise `None`: write the buffered bytes.
    pub fn flush_start(&self) -> (r: Option<Poll<Result<(), Error>>>)
        ensures
            self.buffered().len() == 0 ==> (r matches Some(Poll::Ready(Ok(())))),
            self.buffered().len() > 0 ==> r is None,
    {
        if self.buf.len() == 0 {
            Some(Poll::Ready(Ok(())))
        } else {
            None
        }
    }

    /// One step of flushing the buffer: `res` is what the inner writer's
    /// poll gave for the buffered bytes, and `progressed` whether an earlier
    /// step of this flush wrote any. Returns the flush's result once it is
    /// decided; `None` means: write the rest of the buffer again.
    pub fn flush_step(&mut self, res: WriteResult, progressed: bool) -> (r: Option<Poll<Result<(), Error>>>)
        requires
            res matches WriteResult::Wrote(n) ==> n <= old(self).buffered().len(),
        ensures
            final(self).inner_spec() == old(self).inner_spec(),
            final(self).capacity() == old(self).capacity(),
            match res {
                WriteResult::Wrote(n) => {
                    &&& final(self).buffered() == old(self).buffered().skip(n as int)
                    &&& n == 0 && !progressed ==> (r matches Some(Poll::Ready(Err(e)))
                        && e.kind_spec() == ErrorKind::WriteZero)
                    &&& n == 0 && progressed ==> (r matches Some(Poll::Ready(Ok(()))))
                    &&& n > 0 && n == old(self).buffered().len() ==> (r matches Some(Poll::Ready(Ok(()))))
                    &&& n > 0 && n < old(self).buffered().len() ==> (r is None)
                },
                WriteResult::Failed(e) => final(self).buffered() == old(self).buffered()
                    && r == Some(Poll::<Result<(), Error>>::Ready(Err(e))),
                WriteResult::Pending => final(self).buffered() == old(self).buffered()
                    && (progressed ==> r matches Some(Poll::Ready(Ok(()))))
                    && (!progressed ==> r matches Some(Poll::Pending)),
            },
    {
        match res {
            WriteResult::Wrote(n) => {
                self.drop_written(n);
                if n == 0 {
                    if progressed {
                        Some(Poll::Ready(Ok(())))
                    } else {
                        Some(Poll::Ready(Err(io_error(ErrorKind::WriteZero, "failed to write to buffer"))))
                    }
                } else if self.buf.len() == 0 {
                    Some(Poll::Ready(Ok(())))
                } else {
                    None
                }
            },
            WriteResult::Failed(e) => Some(Poll::Ready(Err(e))),
            WriteResult::Pending => {
                if progressed {
                    Some(Poll::Ready(Ok(())))
                } else {
                    Some(Poll::Pending)
                }
            },
        }
    }
}

} // verus!
