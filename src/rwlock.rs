//! Asynchronous reader-writer lock with writer priority on release.

use std::collections::VecDeque;
use vstd::prelude::*;

use crate::WakerId;

verus! {

/// State value of a lock held for writing; any smaller nonzero value is
/// the number of live readers, zero means free.
pub const WRITER: usize = usize::MAX;

/// An asynchronous reader-writer lock.
pub struct RwLock<T> {
    data: T,
    state: usize,
    write_waiters: VecDeque<WakerId>,
    read_waiters: VecDeque<WakerId>,
}

/// Shared access to a [`RwLock`]; handed back to release it.
pub struct RwLockReadGuard {
    held: (),
}

/// Exclusive access to a [`RwLock`]; handed back to release it.
pub struct RwLockWriteGuard {
    held: (),
}

/// What a write release does: the state becomes free; the oldest waiting
/// writer is woken if there is one, else every waiting reader. Returns the
/// woken handles and the writer and reader queues left behind.
pub open spec fn write_release(writers: Seq<WakerId>, readers: Seq<WakerId>) -> (Seq<WakerId>, Seq<WakerId>, Seq<WakerId>) {
    if writers.len() > 0 {
        (seq![writers[0]], writers.drop_first(), readers)
    } else {
        (readers, writers, Seq::empty())
    }
}

impl<T> RwLock<T> {
    /// `0` free, `WRITER` held for writing, else the number of readers.
    pub closed spec fn state(&self) -> usize {
        self.state
    }

    pub closed spec fn value(&self) -> T {
        self.data
    }

    pub closed spec fn write_waiters(&self) -> Seq<WakerId> {
        self.write_waiters@
    }

    pub closed spec fn read_waiters(&self) -> Seq<WakerId> {
        self.read_waiters@
    }

    /// Creates a free lock holding `data`, with no waiters.
    pub fn new(data: T) -> (r: Self)
        ensures
            r.state() == 0,
            r.value() == data,
            r.write_waiters() == Seq::<WakerId>::empty(),
            r.read_waiters() == Seq::<WakerId>::empty(),
    {
        RwLock { data, state: 0, write_waiters: VecDeque::new(), read_waiters: VecDeque::new() }
    }

    /// Takes shared access unless the lock is held for writing (or the
    /// reader count is at its largest value).
    pub fn try_read(&mut self) -> (r: Option<RwLockReadGuard>)
        ensures
            r.is_some() == (old(self).state() < WRITER - 1),
            final(self).state() == if r.is_some() { (old(self).state() + 1) as usize } else { old(self).state() },
            final(self).value() == old(self).value(),
            final(self).write_waiters() == old(self).write_waiters(),
            final(self).read_waiters() == old(self).read_waiters(),
    {
        if self.state < WRITER - 1 {
            self.state = self.state + 1;
            Some(RwLockReadGuard { held: () })
        } else {
            None
        }
    }

    /// Takes exclusive access if the lock is free.
    pub fn try_write(&mut self) -> (r: Option<RwLockWriteGuard>)
        ensures
            r.is_some() == (old(self).state() == 0),
            final(self).state() == if r.is_some() { WRITER } else { old(self).state() },
            final(self).value() == old(self).value(),
            final(self).write_waiters() == old(self).write_waiters(),
            final(self).read_waiters() == old(self).read_waiters(),
    {
        if self.state == 0 {
            self.state = WRITER;
            Some(RwLockWriteGuard { held: () })
        } else {
            None
        }
    }

    /// One poll of a task waiting for shared access: takes it, or appends
    /// `waker` to the reader queue.
    pub fn read(&mut self, waker: WakerId) -> (r: Option<RwLockReadGuard>)
        ensures
            r.is_some() == (old(self).state() < WRITER - 1),
            final(self).state() == if r.is_some() { (old(self).state() + 1) as usize } else { old(self).state() },
            final(self).value() == old(self).value(),
            final(self).write_waiters() == old(self).write_waiters(),
            final(self).read_waiters() == if r.is_some() {
                old(self).read_waiters()
            } else {
                old(self).read_waiters().push(waker)
            },
    {
        match self.try_read() {
            Some(g) => Some(g),
            None => {
                self.read_waiters.push_back(waker);
                None
            },
        }
    }

    /// One poll of a task waiting for exclusive access: takes it, or appends
    /// `waker` to the writer queue.
    pub fn write(&mut self, waker: WakerId) -> (r: Option<RwLockWriteGuard>)
        ensures
            r.is_some() == (old(self).state() == 0),
            final(self).state() == if r.is_some() { WRITER } else { old(self).state() },
            final(self).value() == old(self).value(),
            final(self).read_waiters() == old(self).read_waiters(),
            final(self).write_waiters() == if r.is_some() {
                old(self).write_waiters()
            } else {
                old(self).write_waiters().push(waker)
            },
    {
        match self.try_write() {
            Some(g) => Some(g),
            None => {
                self.write_waiters.push_back(waker);
                None
            },
        }
    }

    /// Releases shared access; when the last reader leaves, returns the
    /// oldest waiting writer, which the caller wakes.
    pub fn read_unlock(&mut self, _guard: RwLockReadGuard) -> (r: Option<WakerId>)
        requires
            old(self).state() != 0,
            old(self).state() != WRITER,
        ensures
            final(self).state() == old(self).state() - 1,
            final(self).value() == old(self).value(),
            final(self).read_waiters() == old(self).read_waiters(),
            (old(self).state() == 1 && old(self).write_waiters().len() > 0) ==> r == Some(old(self).write_waiters()[0])
                && final(self).write_waiters() == old(self).write_waiters().drop_first(),
            !(old(self).state() == 1 && old(self).write_waiters().len() > 0) ==> r.is_none()
                && final(self).write_waiters() == old(self).write_waiters(),
    {
        let prev = self.state;
        self.state = prev - 1;
        if prev == 1 {
            self.write_waiters.pop_front()
        } else {
            None
        }
    }

    /// Releases exclusive access; returns the handles to wake, as
    /// [`write_release`] says.
    pub fn write_unlock(&mut self, _guard: RwLockWriteGuard) -> (r: Vec<WakerId>)
        requires
            old(self).state() == WRITER,
        ensures
            final(self).state() == 0,
            final(self).value() == old(self).value(),
            (r@, final(self).write_waiters(), final(self).read_waiters())
                == write_release(old(self).write_waiters(), old(self).read_waiters()),
    {
        self.state = 0;
        let mut woken: Vec<WakerId> = Vec::new();
        match self.write_waiters.pop_front() {
            Some(w) => {
                woken.push(w);
                assert(woken@ =~= seq![w]);
            },
            None => {
                while self.read_waiters.len() > 0
                    invariant
                        woken@ + self.read_waiters@ == old(self).read_waiters@,
                        self.write_waiters@ == old(self).write_waiters@,
                        self.state == 0,
                        self.data == old(self).data,
                    decreases self.read_waiters.len(),
                {
                    let ghost before = self.read_waiters@;
                    let w = self.read_waiters.pop_front().unwrap();
                    woken.push(w);
                    assert(woken@ + self.read_waiters@ =~= old(self).read_waiters@) by {
                        assert(before =~= seq![w] + self.read_waiters@);
                    };
                }
                assert(woken@ =~= old(self).read_waiters@);
                assert(self.read_waiters@ =~= Seq::<WakerId>::empty());
            },
        }
        woken
    }

    /// The protected value, read while holding shared access.
    pub fn get(&self, _guard: &RwLockReadGuard) -> (r: &T)
        ensures
            *r == self.value(),
    {
        &self.data
    }

    /// Stores `data` as the protected value while holding exclusive access.
    pub fn set(&mut self, _guard: &RwLockWriteGuard, data: T)
        ensures
            final(self).value() == data,
            final(self).state() == old(self).state(),
            final(self).write_waiters() == old(self).write_waiters(),
            final(self).read_waiters() == old(self).read_waiters(),
    {
        self.data = data;
    }
}

/// Writer priority: when a writer releases the lock while a writer `w` is
/// first in the writer queue, exactly `w` is woken, and every waiting
/// reader (however early it registered) stays queued behind it.
pub proof fn lemma_writer_priority(writers: Seq<WakerId>, readers: Seq<WakerId>)
    requires
        writers.len() > 0,
    ensures
        write_release(writers, readers).0 == seq![writers[0]],
        write_release(writers, readers).2 == readers,
{
}

/// A write release with no waiting writer wakes every waiting reader, in
/// registration order, and leaves no reader queued.
pub proof fn lemma_readers_woken_together(readers: Seq<WakerId>)
    ensures
        write_release(Seq::empty(), readers).0 == readers,
        write_release(Seq::empty(), readers).2 == Seq::<WakerId>::empty(),
{
}

} // verus!
