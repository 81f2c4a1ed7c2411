//! Waiting for events signalled by memory-mapped devices.

use vstd::prelude::*;

use crate::{Poll, WakerId};

verus! {

/// Identity of an awaited device event.
pub type MmioEventId = u64;

/// Where the wake handles of awaited device events are kept until the
/// device signals them.
pub trait MmioEventHandler {
    /// The handler's own invariant, kept by both operations.
    spec fn inv(&self) -> bool;

    /// Registers `waker` for `event_id`; returns whether it was accepted.
    fn register_event(&mut self, event_id: MmioEventId, waker: WakerId) -> (r: bool)
        requires
            old(self).inv(),
        ensures
            final(self).inv(),
    ;

    /// Withdraws the registration of `event_id`; returns whether there was one.
    fn cancel_event(&mut self, event_id: MmioEventId) -> (r: bool)
        requires
            old(self).inv(),
        ensures
            final(self).inv(),
    ;
}

/// A computation that completes when its device event is signalled.
pub struct MmioEvent {
    event_id: MmioEventId,
    registered: bool,
    completed: bool,
}

impl MmioEvent {
    pub closed spec fn id_spec(&self) -> MmioEventId {
        self.event_id
    }

    pub closed spec fn is_registered(&self) -> bool {
        self.registered
    }

    pub closed spec fn is_completed(&self) -> bool {
        self.completed
    }

    /// An event that is neither registered nor completed.
    pub fn new(event_id: MmioEventId) -> (r: Self)
        ensures
            r.id_spec() == event_id,
            !r.is_registered(),
            !r.is_completed(),
    {
        MmioEvent { event_id, registered: false, completed: false }
    }

    pub fn event_id(&self) -> (r: MmioEventId)
        ensures
            r == self.id_spec(),
    {
        self.event_id
    }

    /// Marks the event signalled.
    pub fn complete(&mut self)
        ensures
            final(self).is_completed(),
            final(self).id_spec() == old(self).id_spec(),
            final(self).is_registered() == old(self).is_registered(),
    {
        self.completed = true;
    }

    /// One poll by a task with wake handle `waker`: ready once completed;
    /// on the first poll registers `waker` with `handler`, and an event
    /// whose registration is refused counts as completed, so that it is
    /// not polled forever.
    pub fn poll<H: MmioEventHandler>(&mut self, handler: &mut H, waker: WakerId) -> (r: Poll<MmioEventId>)
        requires
            old(handler).inv(),
        ensures
            final(handler).inv(),
            final(self).id_spec() == old(self).id_spec(),
            old(self).is_completed() ==> r == Poll::Ready(old(self).id_spec())
                && final(self).is_completed() && final(self).is_registered() == old(self).is_registered(),
            !old(self).is_completed() && old(self).is_registered() ==> r is Pending
                && !final(self).is_completed() && final(self).is_registered(),
            !old(self).is_completed() && !old(self).is_registered() ==>
                (r == Poll::Ready(old(self).id_spec()) && final(self).is_completed() && !final(self).is_registered())
                || (r is Pending && !final(self).is_completed() && final(self).is_registered()),
    {
        if self.completed {
            return Poll::Ready(self.event_id);
        }
        if !self.registered {
            if !handler.register_event(self.event_id, waker) {
                self.completed = true;
                return Poll::Ready(self.event_id);
            }
            self.registered = true;
        }
        Poll::Pending
    }

    /// Drops the event: a registration that is still waiting is withdrawn.
    pub fn cancel<H: MmioEventHandler>(self, handler: &mut H) -> (r: bool)
        requires
            old(handler).inv(),
        ensures
            final(handler).inv(),
            r == (self.is_registered() && !self.is_completed()),
    {
        if self.registered && !self.completed {
            handler.cancel_event(self.event_id);
            true
        } else {
            false
        }
    }
}

/// Wake handles of awaited events, at most one per event.
pub struct MmioWakerSet {
    wakers: Vec<(MmioEventId, WakerId)>,
}

/// Whether the events of `s` are distinct.
pub open spec fn distinct_events(s: Seq<(MmioEventId, WakerId)>) -> bool {
    forall|i: int, j: int| 0 <= i < j < s.len() ==> (#[trigger] s[i]).0 != (#[trigger] s[j]).0
}

/// The registration of `id` in `s`, if any.
pub open spec fn waker_of(s: Seq<(MmioEventId, WakerId)>, id: MmioEventId) -> Option<WakerId> {
    if exists|i: int| 0 <= i < s.len() && (#[trigger] s[i]).0 == id {
        Some(s[choose|i: int| 0 <= i < s.len() && (#[trigger] s[i]).0 == id].1)
    } else {
        None
    }
}

impl MmioWakerSet {
    pub closed spec fn entries(&self) -> Seq<(MmioEventId, WakerId)> {
        self.wakers@
    }

    pub open spec fn wf(&self) -> bool {
        distinct_events(self.entries())
    }

    pub fn new() -> (r: Self)
        ensures
            r.wf(),
            r.entries() == Seq::<(MmioEventId, WakerId)>::empty(),
    {
        MmioWakerSet { wakers: Vec::new() }
    }

    fn position(&self, event_id: MmioEventId) -> (r: Option<usize>)
        ensures
            r matches Some(i) ==> i < self.entries().len() && self.entries()[i as int].0 == event_id,
            r is None ==> forall|i: int| 0 <= i < self.entries().len() ==> (#[trigger] self.entries()[i]).0 != event_id,
    {
        let mut i: usize = 0;
        while i < self.wakers.len()
            invariant
                i <= self.wakers@.len(),
                forall|j: int| 0 <= j < i ==> (#[trigger] self.wakers@[j]).0 != event_id,
            decreases self.wakers@.len() - i,
        {
            if self.wakers[i].0 == event_id {
                return Some(i);
            }
            i = i + 1;
        }
        None
    }

    /// Registers `waker` for `event_id`, replacing an earlier registration.
    pub fn register(&mut self, event_id: MmioEventId, waker: WakerId) -> (r: bool)
        requires
            old(self).wf(),
        ensures
            final(self).wf(),
            r,
            waker_of(final(self).entries(), event_id) == Some(waker),
            forall|id: MmioEventId| id != event_id ==> waker_of(final(self).entries(), id) == waker_of(old(self).entries(), id),
    {
        match self.position(event_id) {
            Some(i) => {
                self.wakers.set(i, (event_id, waker));
            },
            None => {
                self.wakers.push((event_id, waker));
            },
        }
        proof {
            let s = self.entries();
            let o = old(self).entries();
            assert forall|a: int, b: int| 0 <= a < b < s.len() implies (#[trigger] s[a]).0 != (#[trigger] s[b]).0 by {
                if a < o.len() && b < o.len() {
                    assert(o[a].0 != o[b].0);
                }
            }
            assert forall|id: MmioEventId| id != event_id implies waker_of(s, id) == waker_of(o, id) by {
                if exists|i: int| 0 <= i < o.len() && (#[trigger] o[i]).0 == id {
                    let i = choose|i: int| 0 <= i < o.len() && (#[trigger] o[i]).0 == id;
                    assert(s[i] == o[i]);
                    let k = choose|k: int| 0 <= k < s.len() && (#[trigger] s[k]).0 == id;
                    assert(k == i);
                } else {
                    assert forall|k: int| 0 <= k < s.len() implies (#[trigger] s[k]).0 != id by {
                        if k < o.len() {
                            assert(s[k].0 == o[k].0 || s[k].0 == event_id);
                        }
                    }
                }
            }
            let k = choose|k: int| 0 <= k < s.len() && (#[trigger] s[k]).0 == event_id;
            assert(waker_of(s, event_id) == Some(waker)) by {
                let w = if s.len() > o.len() { o.len() as int } else { choose|i: int| 0 <= i < o.len() && (#[trigger] o[i]).0 == event_id };
                assert(s[w].0 == event_id);
            }
        }
        true
    }

    /// Removes the registration of `event_id`; returns its wake handle.
    fn take(&mut self, event_id: MmioEventId) -> (r: Option<WakerId>)
        requires
            old(self).wf(),
        ensures
            final(self).wf(),
            r == waker_of(old(self).entries(), event_id),
            waker_of(final(self).entries(), event_id).is_none(),
            forall|id: MmioEventId| id != event_id ==> waker_of(final(self).entries(), id) == waker_of(old(self).entries(), id),
    {
        match self.position(event_id) {
            Some(i) => {
                let (_, w) = self.wakers.remove(i);
                proof {
                    let s = self.entries();
                    let o = old(self).entries();
                    assert forall|a: int, b: int| 0 <= a < b < s.len() implies (#[trigger] s[a]).0 != (#[trigger] s[b]).0 by {
                        let a0 = if a < i { a } else { a + 1 };
                        let b0 = if b < i { b } else { b + 1 };
                        assert(s[a] == o[a0] && s[b] == o[b0]);
                    }
                    let k = choose|k: int| 0 <= k < o.len() && (#[trigger] o[k]).0 == event_id;
                    assert(o[i as int].0 == event_id);
                    assert(k == i);
                    assert forall|k: int| 0 <= k < s.len() implies (#[trigger] s[k]).0 != event_id by {
                        let k0 = if k < i { k } else { k + 1 };
                        assert(s[k] == o[k0]);
                    }
                    assert forall|id: MmioEventId| id != event_id implies waker_of(s, id) == waker_of(o, id) by {
                        if exists|a: int| 0 <= a < o.len() && (#[trigger] o[a]).0 == id {
                            let a = choose|a: int| 0 <= a < o.len() && (#[trigger] o[a]).0 == id;
                            let a1 = if a < i { a } else { a - 1 };
                            assert(a != i);
                            assert(s[a1] == o[a]);
                            let k = choose|k: int| 0 <= k < s.len() && (#[trigger] s[k]).0 == id;
                            let k0 = if k < i { k } else { k + 1 };
                            assert(s[k] == o[k0]);
                        } else {
                            assert forall|k: int| 0 <= k < s.len() implies (#[trigger] s[k]).0 != id by {
                                let k0 = if k < i { k } else { k + 1 };
                                assert(s[k] == o[k0]);
                            }
                        }
                    }
                }
                Some(w)
            },
            None => None,
        }
    }

    /// Withdraws the registration of `event_id`; returns whether there was one.
    pub fn cancel(&mut self, event_id: MmioEventId) -> (r: bool)
        requires
            old(self).wf(),
        ensures
            final(self).wf(),
            r == waker_of(old(self).entries(), event_id).is_some(),
            waker_of(final(self).entries(), event_id).is_none(),
            forall|id: MmioEventId| id != event_id ==> waker_of(final(self).entries(), id) == waker_of(old(self).entries(), id),
    {
        self.take(event_id).is_some()
    }

    /// Signals `event_id`: removes its registration and returns its wake
    /// handle, which the caller invokes.
    pub fn wake_event(&mut self, event_id: MmioEventId) -> (r: Option<WakerId>)
        requires
            old(self).wf(),
        ensures
            final(self).wf(),
            r == waker_of(old(self).entries(), event_id),
            waker_of(final(self).entries(), event_id).is_none(),
            forall|id: MmioEventId| id != event_id ==> waker_of(final(self).entries(), id) == waker_of(old(self).entries(), id),
    {
        self.take(event_id)
    }
}

impl MmioWakerSet {
    /// Removes every registration whose event `predicate` accepts; returns
    /// their wake handles, which the caller invokes.
    pub fn wake_matching<F: Fn(MmioEventId) -> bool>(&mut self, predicate: F) -> (r: Vec<WakerId>)
        requires
            old(self).wf(),
            forall|id: MmioEventId| predicate.requires((id,)),
        ensures
            final(self).wf(),
            forall|i: int| 0 <= i < final(self).entries().len() ==> old(self).entries().contains(#[trigger] final(self).entries()[i]),
            forall|i: int| 0 <= i < old(self).entries().len() ==> {
                let e = #[trigger] old(self).entries()[i];
                (final(self).entries().contains(e) && predicate.ensures((e.0,), false))
                    || (r@.contains(e.1) && predicate.ensures((e.0,), true))
            },
    {
        let mut kept: Vec<(MmioEventId, WakerId)> = Vec::new();
        let mut woken: Vec<WakerId> = Vec::new();
        let ghost old_entries = self.wakers@;
        let ghost mut idx: Seq<int> = Seq::empty();
        let mut i: usize = 0;
        while i < self.wakers.len()
            invariant
                self.wakers@ == old_entries,
                old_entries == old(self).entries(),
                distinct_events(old_entries),
                i <= old_entries.len(),
                forall|id: MmioEventId| predicate.requires((id,)),
                idx.len() == kept@.len(),
                forall|k: int| 0 <= k < kept@.len() ==> 0 <= #[trigger] idx[k] < i && kept@[k] == old_entries[idx[k]],
                forall|a: int, b: int| 0 <= a < b < idx.len() ==> #[trigger] idx[a] < #[trigger] idx[b],
                forall|j: int| 0 <= j < i ==> {
                    let e = #[trigger] old_entries[j];
                    (kept@.contains(e) && predicate.ensures((e.0,), false))
                        || (woken@.contains(e.1) && predicate.ensures((e.0,), true))
                },
            decreases old_entries.len() - i,
        {
            let e = self.wakers[i];
            let ghost kept0 = kept@;
            let ghost woken0 = woken@;
            if predicate(e.0) {
                woken.push(e.1);
                proof {
                    assert forall|j: int| 0 <= j < i + 1 implies {
                        let x = #[trigger] old_entries[j];
                        (kept@.contains(x) && predicate.ensures((x.0,), false))
                            || (woken@.contains(x.1) && predicate.ensures((x.0,), true))
                    } by {
                        if j < i {
                            let x = old_entries[j];
                            if woken0.contains(x.1) {
                                let t = choose|t: int| 0 <= t < woken0.len() && woken0[t] == x.1;
                                assert(woken@[t] == x.1);
                            }
                        } else {
                            assert(woken@[woken0.len() as int] == e.1);
                        }
                    }
                }
            } else {
                kept.push(e);
                proof {
                    idx = idx.push(i as int);
                    assert forall|j: int| 0 <= j < i + 1 implies {
                        let x = #[trigger] old_entries[j];
                        (kept@.contains(x) && predicate.ensures((x.0,), false))
                            || (woken@.contains(x.1) && predicate.ensures((x.0,), true))
                    } by {
                        if j < i {
                            let x = old_entries[j];
                            if kept0.contains(x) {
                                let t = choose|t: int| 0 <= t < kept0.len() && kept0[t] == x;
                                assert(kept@[t] == x);
                            }
                        } else {
                            assert(kept@[kept0.len() as int] == e);
                        }
                    }
                }
            }
            i = i + 1;
        }
        self.wakers = kept;
        proof {
            let s = self.wakers@;
            assert forall|a: int, b: int| 0 <= a < b < s.len() implies (#[trigger] s[a]).0 != (#[trigger] s[b]).0 by {
                assert(idx[a] < idx[b]);
                assert(old_entries[idx[a]].0 != old_entries[idx[b]].0);
            }
            assert forall|k: int| 0 <= k < s.len() implies old(self).entries().contains(#[trigger] s[k]) by {
                assert(old_entries[idx[k]] == s[k]);
            }
        }
        woken
    }
}

impl MmioEventHandler for MmioWakerSet {
    open spec fn inv(&self) -> bool {
        self.wf()
    }

    fn register_event(&mut self, event_id: MmioEventId, waker: WakerId) -> bool {
        self.register(event_id, waker)
    }

    fn cancel_event(&mut self, event_id: MmioEventId) -> bool {
        self.cancel(event_id)
    }
}

} // verus!
