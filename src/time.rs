//! Sleeping until a deadline, and racing a computation against one.

use vstd::prelude::*;

use crate::timer::{registered, wake_at, TimeValue, TimerWakers, TIMER_CAPACITY};
use crate::{Poll, WakerId};

verus! {

/// `now + duration`, or the last point of the clock if that overflows.
pub open spec fn deadline_after(now: TimeValue, duration: u64) -> TimeValue {
    if now + duration > u64::MAX {
        u64::MAX
    } else {
        (now + duration) as TimeValue
    }
}

fn add_duration(now: TimeValue, duration: u64) -> (r: TimeValue)
    ensures
        r == deadline_after(now, duration),
{
    if duration > u64::MAX - now {
        u64::MAX
    } else {
        now + duration
    }
}

/// Whether a sleep until `deadline` is ready at clock value `now`.
pub open spec fn sleep_ready(now: TimeValue, deadline: TimeValue) -> bool {
    now >= deadline
}

/// A computation that completes once the clock reaches its deadline.
pub struct Sleep {
    deadline: TimeValue,
    registered_waker: Option<WakerId>,
}

impl Sleep {
    pub closed spec fn deadline_spec(&self) -> TimeValue {
        self.deadline
    }

    /// The wake handle registered with the timers for this deadline, if any.
    pub closed spec fn registered_waker(&self) -> Option<WakerId> {
        self.registered_waker
    }

    /// A sleep of `duration` nanoseconds from `now`.
    pub fn new(now: TimeValue, duration: u64) -> (r: Self)
        ensures
            r.deadline_spec() == deadline_after(now, duration),
            r.registered_waker().is_none(),
    {
        Self::until(add_duration(now, duration))
    }

    /// A sleep until `deadline`.
    pub fn until(deadline: TimeValue) -> (r: Self)
        ensures
            r.deadline_spec() == deadline,
            r.registered_waker().is_none(),
    {
        Sleep { deadline, registered_waker: None }
    }

    pub fn deadline(&self) -> (r: TimeValue)
        ensures
            r == self.deadline_spec(),
    {
        self.deadline
    }

    /// Moves the deadline to `duration` nanoseconds from `now`.
    pub fn reset(&mut self, now: TimeValue, duration: u64)
        ensures
            final(self).deadline_spec() == deadline_after(now, duration),
            final(self).registered_waker() == old(self).registered_waker(),
    {
        self.deadline = add_duration(now, duration);
    }

    /// Moves the deadline to `deadline`.
    pub fn reset_until(&mut self, deadline: TimeValue)
        ensures
            final(self).deadline_spec() == deadline,
            final(self).registered_waker() == old(self).registered_waker(),
    {
        self.deadline = deadline;
    }

    /// One poll at clock value `now` by a task with wake handle `waker`:
    /// ready once `now` reaches the deadline; before that, registers `waker`
    /// with `timers` unless this same handle is registered already.
    pub fn poll(&mut self, now: TimeValue, waker: WakerId, timers: &mut TimerWakers) -> (r: bool)
        requires
            old(timers).wf(),
        ensures
            final(timers).wf(),
            r == sleep_ready(now, old(self).deadline_spec()),
            final(self).deadline_spec() == old(self).deadline_spec(),
            (r || old(self).registered_waker() == Some(waker)) ==> final(timers).pending() == old(timers).pending()
                && final(self).registered_waker() == old(self).registered_waker(),
            !(r || old(self).registered_waker() == Some(waker)) ==> final(self).registered_waker() == Some(waker)
                && registered(old(timers).pending(), final(timers).pending(), old(self).deadline_spec(), waker,
                    old(timers).pending() matches Some(p) && p.len() < TIMER_CAPACITY),
    {
        if now >= self.deadline {
            return true;
        }
        let fresh = match self.registered_waker {
            Some(w) => w != waker,
            None => true,
        };
        if fresh {
            self.registered_waker = Some(waker);
            let added = wake_at(timers, self.deadline, waker);
        }
        false
    }
}

/// The error of a [`Timeout`] whose deadline came first.
#[derive(Clone, Copy, Debug, PartialEq, Eq, Structural)]
pub struct TimeoutError;

/// What a poll of a timeout yields, given what the poll of the inner
/// computation yielded: its result if it completed, the error once the
/// deadline is reached, else pending.
pub open spec fn timeout_outcome<T>(inner: Poll<T>, now: TimeValue, deadline: TimeValue) -> Poll<Result<T, TimeoutError>> {
    match inner {
        Poll::Ready(v) => Poll::Ready(Ok(v)),
        Poll::Pending => if sleep_ready(now, deadline) {
            Poll::Ready(Err(TimeoutError))
        } else {
            Poll::Pending
        },
    }
}

/// A computation raced against a deadline. The caller polls the inner
/// computation and hands its result to [`Timeout::poll`].
pub struct Timeout {
    sleep: Sleep,
}

impl Timeout {
    pub closed spec fn deadline_spec(&self) -> TimeValue {
        self.sleep.deadline_spec()
    }

    /// A race against `duration` nanoseconds from `now`.
    pub fn new(now: TimeValue, duration: u64) -> (r: Self)
        ensures
            r.deadline_spec() == deadline_after(now, duration),
    {
        Timeout { sleep: Sleep::new(now, duration) }
    }

    /// A race against `deadline`.
    pub fn until(deadline: TimeValue) -> (r: Self)
        ensures
            r.deadline_spec() == deadline,
    {
        Timeout { sleep: Sleep::until(deadline) }
    }

    /// One poll at clock value `now` by a task with wake handle `waker`,
    /// where the inner computation's poll gave `inner`.
    pub fn poll<T>(&mut self, inner: Poll<T>, now: TimeValue, waker: WakerId, timers: &mut TimerWakers) -> (r: Poll<Result<T, TimeoutError>>)
        requires
            old(timers).wf(),
        ensures
            final(timers).wf(),
            r == timeout_outcome(inner, now, old(self).deadline_spec()),
            final(self).deadline_spec() == old(self).deadline_spec(),
    {
        match inner {
            Poll::Ready(v) => Poll::Ready(Ok(v)),
            Poll::Pending => {
                if self.sleep.poll(now, waker, timers) {
                    Poll::Ready(Err(TimeoutError))
                } else {
                    Poll::Pending
                }
            },
        }
    }
}

/// A sleep is pending one nanosecond before its deadline and ready at any
/// point from the deadline on.
pub proof fn lemma_sleep_deadline(deadline: TimeValue, now: TimeValue)
    requires
        deadline > 0,
    ensures
        !sleep_ready((deadline - 1) as TimeValue, deadline),
        now >= deadline ==> sleep_ready(now, deadline),
{
}

/// Timeout race: when the inner computation completes only at `done`,
/// after the deadline, every poll before `done` yields pending before the
/// deadline and the timeout error from the deadline on; the inner result
/// is never delivered before `done`.
pub proof fn lemma_timeout_wins<T>(v: T, done: TimeValue, deadline: TimeValue, now: TimeValue)
    requires
        deadline < done,
        now < done,
    ensures
        ({
            let inner = if now >= done { Poll::Ready(v) } else { Poll::Pending };
            timeout_outcome(inner, now, deadline) == if now >= deadline {
                Poll::<Result<T, TimeoutError>>::Ready(Err(TimeoutError))
            } else {
                Poll::Pending
            }
        }),
{
}

} // verus!
