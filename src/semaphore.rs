//! Counting semaphore, and the binary barrier built on it.

use std::collections::VecDeque;
use vstd::prelude::*;

use crate::WakerId;

verus! {

/// A counting semaphore: `permits` available out of `max_permits`, and the
/// wake handles of the tasks waiting for one, oldest first.
pub struct Semaphore {
    permits: usize,
    max_permits: usize,
    waiters: VecDeque<WakerId>,
}

/// One permit taken from a [`Semaphore`]; handed back to release it.
pub struct SemaphorePermit {
    held: (),
}

impl Semaphore {
    pub closed spec fn permits(&self) -> nat {
        self.permits as nat
    }

    pub closed spec fn max(&self) -> nat {
        self.max_permits as nat
    }

    pub closed spec fn waiters(&self) -> Seq<WakerId> {
        self.waiters@
    }

    /// The available permits never exceed the maximum.
    pub open spec fn wf(&self) -> bool {
        self.permits() <= self.max()
    }

    /// Creates a semaphore with `permits` permits, all available.
    pub fn new(permits: usize) -> (r: Self)
        ensures
            r.wf(),
            r.permits() == permits,
            r.max() == permits,
            r.waiters() == Seq::<WakerId>::empty(),
    {
        Semaphore { permits, max_permits: permits, waiters: VecDeque::new() }
    }

    pub fn available_permits(&self) -> (r: usize)
        ensures
            r == self.permits(),
    {
        self.permits
    }

    pub fn max_permits(&self) -> (r: usize)
        ensures
            r == self.max(),
    {
        self.max_permits
    }

    /// Takes a permit if one is available.
    pub fn try_acquire(&mut self) -> (r: Option<SemaphorePermit>)
        requires
            old(self).wf(),
        ensures
            final(self).wf(),
            r.is_some() == (old(self).permits() > 0),
            final(self).permits() == if r.is_some() { old(self).permits() - 1 } else { old(self).permits() as int },
            final(self).max() == old(self).max(),
            final(self).waiters() == old(self).waiters(),
    {
        if self.permits > 0 {
            self.permits = self.permits - 1;
            Some(SemaphorePermit { held: () })
        } else {
            None
        }
    }

    /// One poll of a task waiting for a permit: takes one, or appends
    /// `waker` to the queue.
    pub fn acquire(&mut self, waker: WakerId) -> (r: Option<SemaphorePermit>)
        requires
            old(self).wf(),
        ensures
            final(self).wf(),
            r.is_some() == (old(self).permits() > 0),
            final(self).permits() == if r.is_some() { old(self).permits() - 1 } else { old(self).permits() as int },
            final(self).max() == old(self).max(),
            final(self).waiters() == if r.is_some() {
                old(self).waiters()
            } else {
                old(self).waiters().push(waker)
            },
    {
        match self.try_acquire() {
            Some(p) => Some(p),
            None => {
                self.waiters.push_back(waker);
                None
            },
        }
    }

    /// Gives a permit back; returns the oldest waiter, which the caller
    /// wakes. Giving back more permits than were taken is a caller error.
    pub fn release(&mut self, _permit: SemaphorePermit) -> (r: Option<WakerId>)
        requires
            old(self).wf(),
            old(self).permits() < old(self).max(),
        ensures
            final(self).wf(),
            final(self).permits() == old(self).permits() + 1,
            final(self).max() == old(self).max(),
            old(self).waiters().len() == 0 ==> r.is_none() && final(self).waiters() == old(self).waiters(),
            old(self).waiters().len() > 0 ==> r == Some(old(self).waiters()[0])
                && final(self).waiters() == old(self).waiters().drop_first(),
    {
        self.permits = self.permits + 1;
        self.waiters.pop_front()
    }
}

/// A binary barrier: a semaphore of one permit, released while the permit
/// is available.
pub struct Barrier {
    semaphore: Semaphore,
}

/// Passage through a [`Barrier`]; handed back to release it.
pub struct BarrierGuard {
    permit: SemaphorePermit,
}

impl Barrier {
    pub closed spec fn released(&self) -> bool {
        self.semaphore.permits() == 1
    }

    pub closed spec fn waiters(&self) -> Seq<WakerId> {
        self.semaphore.waiters()
    }

    pub closed spec fn wf(&self) -> bool {
        self.semaphore.wf() && self.semaphore.max() == 1
    }

    /// Creates a barrier, closed if `locked`.
    pub fn new(locked: bool) -> (r: Self)
        ensures
            r.wf(),
            r.released() == !locked,
            r.waiters() == Seq::<WakerId>::empty(),
    {
        let mut semaphore = Semaphore::new(1);
        if locked {
            semaphore.permits = 0;
        }
        Barrier { semaphore }
    }

    /// Passes the barrier if it is released, closing it behind.
    pub fn try_acquire(&mut self) -> (r: Option<BarrierGuard>)
        requires
            old(self).wf(),
        ensures
            final(self).wf(),
            r.is_some() == old(self).released(),
            !final(self).released(),
            final(self).waiters() == old(self).waiters(),
    {
        match self.semaphore.try_acquire() {
            Some(permit) => Some(BarrierGuard { permit }),
            None => None,
        }
    }

    /// One poll of a task waiting at the barrier: passes it, or appends
    /// `waker` to the queue.
    pub fn acquire(&mut self, waker: WakerId) -> (r: Option<BarrierGuard>)
        requires
            old(self).wf(),
        ensures
            final(self).wf(),
            r.is_some() == old(self).released(),
            !final(self).released(),
            final(self).waiters() == if r.is_some() {
                old(self).waiters()
            } else {
                old(self).waiters().push(waker)
            },
    {
        match self.semaphore.acquire(waker) {
            Some(permit) => Some(BarrierGuard { permit }),
            None => None,
        }
    }

    pub fn is_released(&self) -> (r: bool)
        requires
            self.wf(),
        ensures
            r == self.released(),
    {
        self.semaphore.available_permits() > 0
    }

    /// Opens the barrier again; returns the oldest waiter, which the caller
    /// wakes.
    pub fn release(&mut self, guard: BarrierGuard) -> (r: Option<WakerId>)
        requires
            old(self).wf(),
            !old(self).released(),
        ensures
            final(self).wf(),
            final(self).released(),
            old(self).waiters().len() == 0 ==> r.is_none() && final(self).waiters() == old(self).waiters(),
            old(self).waiters().len() > 0 ==> r == Some(old(self).waiters()[0])
                && final(self).waiters() == old(self).waiters().drop_first(),
    {
        let BarrierGuard { permit } = guard;
        self.semaphore.release(permit)
    }
}

} // verus!
