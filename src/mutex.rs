//! Asynchronous mutual exclusion over a FIFO queue of waiting wake handles.

use std::collections::VecDeque;
use vstd::prelude::*;

use crate::WakerId;

verus! {

/// An asynchronous mutex: a locked flag, the protected value and the
/// wake handles of the tasks waiting for the lock, oldest first.
pub struct Mutex<T> {
    data: T,
    locked: bool,
    waiters: VecDeque<WakerId>,
}

/// Proof of holding a [`Mutex`]; handed back to release it.
pub struct MutexGuard {
    held: (),
}

/// Whether an attempt to take a mutex in state `locked` succeeds.
pub open spec fn acquires(locked: bool) -> bool {
    !locked
}

impl<T> Mutex<T> {
    pub closed spec fn is_locked(&self) -> bool {
        self.locked
    }

    pub closed spec fn value(&self) -> T {
        self.data
    }

    /// Waiting wake handles, in registration order.
    pub closed spec fn waiters(&self) -> Seq<WakerId> {
        self.waiters@
    }

    /// Creates an unlocked mutex holding `data`, with no waiters.
    pub fn new(data: T) -> (r: Self)
        ensures
            !r.is_locked(),
            r.value() == data,
            r.waiters() == Seq::<WakerId>::empty(),
    {
        Mutex { data, locked: false, waiters: VecDeque::new() }
    }

    /// Takes the lock if it is free.
    pub fn try_lock(&mut self) -> (r: Option<MutexGuard>)
        ensures
            r.is_some() == acquires(old(self).is_locked()),
            final(self).is_locked(),
            final(self).value() == old(self).value(),
            final(self).waiters() == old(self).waiters(),
    {
        if self.locked {
            None
        } else {
            self.locked = true;
            Some(MutexGuard { held: () })
        }
    }

    /// One poll of a task waiting for the lock with wake handle `waker`:
    /// takes the lock if it is free, else appends `waker` to the queue.
    pub fn lock(&mut self, waker: WakerId) -> (r: Option<MutexGuard>)
        ensures
            r.is_some() == acquires(old(self).is_locked()),
            final(self).is_locked(),
            final(self).value() == old(self).value(),
            final(self).waiters() == if old(self).is_locked() {
                old(self).waiters().push(waker)
            } else {
                old(self).waiters()
            },
    {
        match self.try_lock() {
            Some(g) => Some(g),
            None => {
                // Every change of the lock's state goes through `&mut self`,
                // so no release can come between the attempt and the
                // registration: no second attempt is needed.
                self.waiters.push_back(waker);
                None
            },
        }
    }

    /// Releases the lock held through `guard`; returns the oldest waiter,
    /// which the caller wakes.
    pub fn unlock(&mut self, _guard: MutexGuard) -> (r: Option<WakerId>)
        requires
            old(self).is_locked(),
        ensures
            !final(self).is_locked(),
            final(self).value() == old(self).value(),
            old(self).waiters().len() == 0 ==> r.is_none() && final(self).waiters() == old(self).waiters(),
            old(self).waiters().len() > 0 ==> r == Some(old(self).waiters()[0])
                && final(self).waiters() == old(self).waiters().drop_first(),
    {
        self.locked = false;
        self.waiters.pop_front()
    }

    /// The protected value, read while holding `guard`.
    pub fn get(&self, _guard: &MutexGuard) -> (r: &T)
        ensures
            *r == self.value(),
    {
        &self.data
    }

    /// Stores `data` as the protected value while holding `guard`.
    pub fn set(&mut self, _guard: &MutexGuard, data: T)
        ensures
            final(self).value() == data,
            final(self).is_locked() == old(self).is_locked(),
            final(self).waiters() == old(self).waiters(),
    {
        self.data = data;
    }
}

/// An operation on a mutex: an attempt to take it, or a release by a holder.
pub enum MutexOp {
    Attempt,
    Release,
}

/// The locked flag and the number of holders after `ops`, from a free mutex.
/// An attempt succeeds as [`Mutex::try_lock`] and [`Mutex::lock`] say; a
/// release, made only by a holder, frees the mutex as [`Mutex::unlock`] says.
pub open spec fn after_ops(ops: Seq<MutexOp>) -> (bool, nat)
    decreases ops.len(),
{
    if ops.len() == 0 {
        (false, 0)
    } else {
        let (locked, holders) = after_ops(ops.drop_last());
        match ops.last() {
            MutexOp::Attempt => if acquires(locked) { (true, holders + 1) } else { (locked, holders) },
            MutexOp::Release => if holders > 0 { (false, (holders - 1) as nat) } else { (locked, holders) },
        }
    }
}

/// Mutual exclusion: whatever the order of attempts and releases, at most
/// one task holds the mutex, and it is locked exactly while one does.
pub proof fn lemma_mutual_exclusion(ops: Seq<MutexOp>)
    ensures
        after_ops(ops).1 <= 1,
        after_ops(ops).0 == (after_ops(ops).1 == 1),
    decreases ops.len(),
{
    if ops.len() > 0 {
        lemma_mutual_exclusion(ops.drop_last());
    }
}

} // verus!
