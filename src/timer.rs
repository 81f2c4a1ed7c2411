//! Deadline-ordered timer list, and the wake registrations that drive
//! [`Sleep`](crate::time::Sleep).

use vstd::prelude::*;

use crate::WakerId;

verus! {

/// A point on the monotonic clock, in nanoseconds.
pub type TimeValue = u64;

/// Number of entries a timer list made by [`TimerList::new`] holds.
pub const TIMER_CAPACITY: usize = 1024;

/// Whether the deadlines of `s` never decrease.
pub open spec fn sorted_by_deadline<E>(s: Seq<(TimeValue, E)>) -> bool {
    forall|i: int, j: int| 0 <= i < j < s.len() ==> #[trigger] s[i].0 <= #[trigger] s[j].0
}

/// Pending events ordered by deadline, at most `capacity` of them; events
/// with equal deadlines leave in the order they were set.
pub struct TimerList<E> {
    entries: Vec<(TimeValue, E)>,
    capacity: usize,
}

impl<E> TimerList<E> {
    /// The pending events, nearest deadline first.
    pub closed spec fn entries(&self) -> Seq<(TimeValue, E)> {
        self.entries@
    }

    pub closed spec fn capacity(&self) -> nat {
        self.capacity as nat
    }

    pub open spec fn wf(&self) -> bool {
        &&& sorted_by_deadline(self.entries())
        &&& self.entries().len() <= self.capacity()
    }

    /// Creates an empty list of [`TIMER_CAPACITY`] entries.
    pub fn new() -> (r: Self)
        ensures
            r.wf(),
            r.entries() == Seq::<(TimeValue, E)>::empty(),
            r.capacity() == TIMER_CAPACITY,
    {
        Self::with_capacity(TIMER_CAPACITY)
    }

    /// Creates an empty list of `capacity` entries.
    pub fn with_capacity(capacity: usize) -> (r: Self)
        ensures
            r.wf(),
            r.entries() == Seq::<(TimeValue, E)>::empty(),
            r.capacity() == capacity,
    {
        TimerList { entries: Vec::new(), capacity }
    }

    pub fn len(&self) -> (r: usize)
        ensures
            r == self.entries().len(),
    {
        self.entries.len()
    }

    /// The nearest deadline, which the hardware timer is set to.
    pub fn next_deadline(&self) -> (r: Option<TimeValue>)
        ensures
            self.entries().len() == 0 ==> r.is_none(),
            self.entries().len() > 0 ==> r == Some(self.entries()[0].0),
    {
        if self.entries.len() == 0 {
            None
        } else {
            Some(self.entries[0].0)
        }
    }

    /// Adds `event` due at `deadline`, after every entry due no later; when
    /// the list is full the event is dropped. Returns whether it was added.
    pub fn set(&mut self, deadline: TimeValue, event: E) -> (r: bool)
        requires
            old(self).wf(),
        ensures
            final(self).wf(),
            final(self).capacity() == old(self).capacity(),
            r == (old(self).entries().len() < old(self).capacity()),
            !r ==> final(self).entries() == old(self).entries(),
            r ==> exists|k: int| 0 <= k <= old(self).entries().len()
                && final(self).entries() == old(self).entries().insert(k, (deadline, event))
                && (forall|j: int| 0 <= j < k ==> #[trigger] old(self).entries()[j].0 <= deadline)
                && (forall|j: int| k <= j < old(self).entries().len() ==> #[trigger] old(self).entries()[j].0 > deadline),
    {
        if self.entries.len() >= self.capacity {
            return false;
        }
        let mut k: usize = 0;
        while k < self.entries.len() && self.entries[k].0 <= deadline
            invariant
                k <= self.entries@.len(),
                self.entries@ == old(self).entries@,
                forall|j: int| 0 <= j < k ==> #[trigger] self.entries@[j].0 <= deadline,
            decreases self.entries@.len() - k,
        {
            k = k + 1;
        }
        proof {
            assert forall|j: int| k <= j < old(self).entries().len() implies #[trigger] old(self).entries()[j].0 > deadline by {
                assert(old(self).entries()[k as int].0 > deadline);
                assert(old(self).entries()[k as int].0 <= old(self).entries()[j].0);
            }
        }
        self.entries.insert(k, (deadline, event));
        proof {
            let s = self.entries@;
            let o = old(self).entries@;
            assert forall|i: int, j: int| 0 <= i < j < s.len() implies #[trigger] s[i].0 <= #[trigger] s[j].0 by {
                if j < k {
                    assert(s[i] == o[i] && s[j] == o[j]);
                } else if j == k {
                    assert(s[i] == o[i]);
                } else if i < k {
                    assert(s[i] == o[i] && s[j] == o[j - 1]);
                } else if i == k {
                    assert(s[j] == o[j - 1]);
                } else {
                    assert(s[i] == o[i - 1] && s[j] == o[j - 1]);
                }
            }
        }
        true
    }

    /// Removes and returns the entry with the nearest deadline if that
    /// deadline is no later than `now`.
    pub fn expire_one(&mut self, now: TimeValue) -> (r: Option<(TimeValue, E)>)
        requires
            old(self).wf(),
        ensures
            final(self).wf(),
            final(self).capacity() == old(self).capacity(),
            (old(self).entries().len() > 0 && old(self).entries()[0].0 <= now) ==> r == Some(old(self).entries()[0])
                && final(self).entries() == old(self).entries().drop_first(),
            !(old(self).entries().len() > 0 && old(self).entries()[0].0 <= now) ==> r.is_none()
                && final(self).entries() == old(self).entries(),
    {
        if self.entries.len() == 0 || self.entries[0].0 > now {
            return None;
        }
        let e = self.entries.remove(0);
        proof {
            let s = self.entries@;
            let o = old(self).entries@;
            assert(s =~= o.drop_first());
            assert forall|i: int, j: int| 0 <= i < j < s.len() implies #[trigger] s[i].0 <= #[trigger] s[j].0 by {
                assert(s[i] == o[i + 1] && s[j] == o[j + 1]);
            }
        }
        Some(e)
    }
}

/// An entry comes out of the list at most once: what [`TimerList::expire_one`]
/// returns, followed by what stays, is exactly what was there.
pub proof fn lemma_expired_once<E>(entries: Seq<(TimeValue, E)>)
    requires
        entries.len() > 0,
    ensures
        seq![entries[0]] + entries.drop_first() == entries,
        entries.drop_first().len() == entries.len() - 1,
{
    assert(seq![entries[0]] + entries.drop_first() =~= entries);
}

/// The timer registrations of wake handles: absent until initialised.
pub struct TimerWakers {
    list: Option<TimerList<WakerId>>,
}

impl TimerWakers {
    /// `None` until initialised, then the pending registrations.
    pub closed spec fn pending(&self) -> Option<Seq<(TimeValue, WakerId)>> {
        match self.list {
            Some(l) => Some(l.entries()),
            None => None,
        }
    }

    pub closed spec fn wf(&self) -> bool {
        self.list matches Some(l) ==> l.wf() && l.capacity() == TIMER_CAPACITY
    }

    /// Registrations that are not yet initialised.
    pub fn new() -> (r: Self)
        ensures
            r.wf(),
            r.pending().is_none(),
    {
        TimerWakers { list: None }
    }
}

/// Initialises the registrations with an empty timer list, unless done already.
pub fn init_timer_waker(timers: &mut TimerWakers)
    requires
        old(timers).wf(),
    ensures
        final(timers).wf(),
        old(timers).pending().is_some() ==> final(timers).pending() == old(timers).pending(),
        old(timers).pending().is_none() ==> final(timers).pending() == Some(Seq::<(TimeValue, WakerId)>::empty()),
{
    if timers.list.is_none() {
        timers.list = Some(TimerList::new());
    }
}

/// What registering `waker` at `deadline` leaves: the registrations
/// `before` unchanged if it was dropped (`added` false), else with the new
/// one placed after every registration due no later.
pub open spec fn registered(
    before: Option<Seq<(TimeValue, WakerId)>>,
    after: Option<Seq<(TimeValue, WakerId)>>,
    deadline: TimeValue,
    waker: WakerId,
    added: bool,
) -> bool {
    &&& !added ==> after == before
    &&& added ==> before.is_some() && exists|k: int| 0 <= k <= before.unwrap().len()
        && after == Some(before.unwrap().insert(k, (deadline, waker)))
        && (forall|j: int| 0 <= j < k ==> #[trigger] before.unwrap()[j].0 <= deadline)
        && (forall|j: int| k <= j < before.unwrap().len() ==> #[trigger] before.unwrap()[j].0 > deadline)
}

/// Registers `waker` to be woken at `deadline`. Before initialisation, or
/// when the list is full, the registration is dropped.
pub fn wake_at(timers: &mut TimerWakers, deadline: TimeValue, waker: WakerId) -> (r: bool)
    requires
        old(timers).wf(),
    ensures
        final(timers).wf(),
        old(timers).pending().is_none() ==> !r && final(timers).pending().is_none(),
        old(timers).pending() matches Some(p) ==> r == (p.len() < TIMER_CAPACITY),
        registered(old(timers).pending(), final(timers).pending(), deadline, waker, r),
{
    match &mut timers.list {
        Some(list) => {
            let ghost o = list.entries();
            let r = list.set(deadline, waker);
            proof {
                if r {
                    let k = choose|k: int| 0 <= k <= o.len()
                        && list.entries() == o.insert(k, (deadline, waker))
                        && (forall|j: int| 0 <= j < k ==> #[trigger] o[j].0 <= deadline)
                        && (forall|j: int| k <= j < o.len() ==> #[trigger] o[j].0 > deadline);
                    assert(old(timers).pending().unwrap() == o);
                    assert(final(timers).pending() == Some(o.insert(k, (deadline, waker))));
                    assert(registered(old(timers).pending(), final(timers).pending(), deadline, waker, r));
                }
            }
            r
        },
        None => false,
    }
}

/// The wake handles of the registrations due at `now`, nearest first.
pub open spec fn due(s: Seq<(TimeValue, WakerId)>, now: TimeValue) -> Seq<WakerId>
    decreases s.len(),
{
    if s.len() > 0 && s[0].0 <= now {
        seq![s[0].1] + due(s.drop_first(), now)
    } else {
        Seq::empty()
    }
}

/// Removes every registration due at `now`; returns their wake handles,
/// nearest deadline first, which the caller invokes.
pub fn check_timer_events(timers: &mut TimerWakers, now: TimeValue) -> (r: Vec<WakerId>)
    requires
        old(timers).wf(),
    ensures
        final(timers).wf(),
        old(timers).pending().is_none() ==> r@.len() == 0 && final(timers).pending().is_none(),
        old(timers).pending() matches Some(p) ==> r@ == due(p, now)
            && final(timers).pending() == Some(p.skip(r@.len() as int))
            && (p.len() > r@.len() ==> p[r@.len() as int].0 > now)
            && (forall|j: int| r@.len() <= j < p.len() ==> #[trigger] p[j].0 > now),
{
    let mut woken: Vec<WakerId> = Vec::new();
    match &mut timers.list {
        None => {},
        Some(list) => {
            let ghost p = list.entries();
            loop
                invariant
                    list.wf(),
                    list.capacity() == TIMER_CAPACITY,
                    woken@.len() <= p.len(),
                    list.entries() == p.skip(woken@.len() as int),
                    woken@ + due(list.entries(), now) == due(p, now),
                ensures
                    list.wf(),
                    list.capacity() == TIMER_CAPACITY,
                    woken@.len() <= p.len(),
                    list.entries() == p.skip(woken@.len() as int),
                    woken@ + due(list.entries(), now) == due(p, now),
                    !(list.entries().len() > 0 && list.entries()[0].0 <= now),
                decreases list.entries().len(),
            {
                let ghost before = list.entries();
                match list.expire_one(now) {
                    Some(e) => {
                        woken.push(e.1);
                        proof {
                            assert(list.entries() =~= p.skip(woken@.len() as int));
                            assert(woken@ + due(list.entries(), now) =~= due(p, now));
                        }
                    },
                    None => {
                        break;
                    },
                }
            }
            proof {
                assert(due(list.entries(), now) == Seq::<WakerId>::empty());
                if list.entries().len() > 0 {
                    assert(list.entries()[0] == p[woken@.len() as int]);
                }
                assert(woken@ =~= due(p, now));
                let e = list.entries();
                assert forall|j: int| woken@.len() <= j < p.len() implies #[trigger] p[j].0 > now by {
                    assert(p[j] == e[j - woken@.len()]);
                    if j > woken@.len() {
                        assert(e[0].0 <= e[j - woken@.len()].0);
                    }
                }
            }
        },
    }
    woken
}

} // verus!
