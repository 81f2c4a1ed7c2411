//! Single-write, single-read result channel.

use vstd::prelude::*;

use crate::{Poll, WakerId};

verus! {

/// What the receiving side of a channel gets: the value sent, or word that
/// the sending side went away without sending.
pub enum Outcome<T> {
    Completed(T),
    Abandoned,
}

/// The states of a channel.
pub enum ChanState<T> {
    /// Nothing sent yet; the last registered wake handle, if any.
    Open(Option<WakerId>),
    /// A value sent and not yet taken.
    Full(T),
    /// The value was taken by the receiver.
    Taken,
    /// The sender went away without sending.
    Abandoned,
}

/// `send(v)`: stores `v` in an open channel and hands back the registered
/// wake handle (to be invoked); anywhere else it gives `v` back.
pub open spec fn send_step<T>(s: ChanState<T>, v: T) -> (ChanState<T>, Result<Option<WakerId>, T>) {
    match s {
        ChanState::Open(w) => (ChanState::Full(v), Ok(w)),
        _ => (s, Err(v)),
    }
}

/// `poll(w)` by the receiver with wake handle `w`: takes a sent value,
/// reports abandonment, or registers `w` in place of any earlier handle.
pub open spec fn poll_step<T>(s: ChanState<T>, w: WakerId) -> (ChanState<T>, Poll<Outcome<T>>) {
    match s {
        ChanState::Open(_) => (ChanState::Open(Some(w)), Poll::Pending),
        ChanState::Full(v) => (ChanState::Taken, Poll::Ready(Outcome::Completed(v))),
        ChanState::Abandoned => (ChanState::Abandoned, Poll::Ready(Outcome::Abandoned)),
        ChanState::Taken => (ChanState::Taken, Poll::Pending),
    }
}

/// The sender going away: an open channel becomes abandoned and its
/// registered wake handle is handed back; otherwise nothing changes.
pub open spec fn abandon_step<T>(s: ChanState<T>) -> (ChanState<T>, Option<WakerId>) {
    match s {
        ChanState::Open(w) => (ChanState::Abandoned, w),
        _ => (s, None),
    }
}

/// The shared cell of a oneshot channel: a value slot written at most once,
/// a completion flag and the last registered wake handle.
pub struct Oneshot<T> {
    value: Option<T>,
    complete: bool,
    abandoned: bool,
    waker: Option<WakerId>,
}

/// Creates an open channel with no registered wake handle.
pub fn channel<T>() -> (r: Oneshot<T>)
    ensures
        r.state() == ChanState::<T>::Open(None),
{
    Oneshot { value: None, complete: false, abandoned: false, waker: None }
}

impl<T> Oneshot<T> {
    pub closed spec fn state(&self) -> ChanState<T> {
        if self.abandoned {
            ChanState::Abandoned
        } else if !self.complete {
            ChanState::Open(self.waker)
        } else {
            match self.value {
                Some(v) => ChanState::Full(v),
                None => ChanState::Taken,
            }
        }
    }

    /// Sends `value`; fails, giving it back, unless the channel is open.
    /// On success returns the wake handle to invoke, if one was registered.
    pub fn send(&mut self, value: T) -> (r: Result<Option<WakerId>, T>)
        ensures
            (final(self).state(), r) == send_step(old(self).state(), value),
    {
        if self.abandoned || self.complete {
            return Err(value);
        }
        self.value = Some(value);
        self.complete = true;
        let w = self.waker;
        self.waker = None;
        Ok(w)
    }

    /// One poll by the receiver with wake handle `waker`.
    pub fn poll(&mut self, waker: WakerId) -> (r: Poll<Outcome<T>>)
        ensures
            (final(self).state(), r) == poll_step(old(self).state(), waker),
    {
        if self.abandoned {
            return Poll::Ready(Outcome::Abandoned);
        }
        if !self.complete {
            self.waker = Some(waker);
            return Poll::Pending;
        }
        match self.value.take() {
            Some(v) => Poll::Ready(Outcome::Completed(v)),
            None => Poll::Pending,
        }
    }

    /// Records that the sender went away; returns the wake handle to invoke
    /// so that the receiver sees the abandonment.
    pub fn abandon(&mut self) -> (r: Option<WakerId>)
        ensures
            (final(self).state(), r) == abandon_step(old(self).state()),
    {
        if self.abandoned || self.complete {
            return None;
        }
        self.abandoned = true;
        let w = self.waker;
        self.waker = None;
        w
    }
}

/// Round trip: in an open channel, `send(v)` succeeds and the next poll
/// yields exactly `v`; a second `send` after the first gives its value back
/// and leaves the sent value in place.
pub proof fn lemma_round_trip<T>(waker: Option<WakerId>, v: T, v2: T, w: WakerId)
    ensures
        send_step(ChanState::Open(waker), v).1 == Ok::<Option<WakerId>, T>(waker),
        poll_step(send_step(ChanState::Open(waker), v).0, w).1 == Poll::Ready(Outcome::Completed(v)),
        send_step(send_step(ChanState::Open(waker), v).0, v2) == (ChanState::Full(v), Err::<Option<WakerId>, T>(v2)),
{
}

/// A channel whose sender went away without sending reports abandonment to
/// the receiver, never a value and never a wait.
pub proof fn lemma_abandoned_reported<T>(waker: Option<WakerId>, w: WakerId)
    ensures
        abandon_step(ChanState::<T>::Open(waker)).1 == waker,
        poll_step(abandon_step(ChanState::<T>::Open(waker)).0, w).1 == Poll::<Outcome<T>>::Ready(Outcome::Abandoned),
{
}

} // verus!
