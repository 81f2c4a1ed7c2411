//! A slot holding the wake handle of the task that waits on a resource.

use vstd::prelude::*;

use crate::WakerId;

verus! {

/// The wake handle last registered by the task waiting on a resource.
pub struct AsyncTask {
    waker: Option<WakerId>,
}

impl AsyncTask {
    pub closed spec fn waker_spec(&self) -> Option<WakerId> {
        self.waker
    }

    /// A slot with no handle.
    pub fn new() -> (r: Self)
        ensures
            r.waker_spec().is_none(),
    {
        AsyncTask { waker: None }
    }

    /// Registers `waker`, replacing an earlier handle.
    pub fn set_waker(&mut self, waker: WakerId)
        ensures
            final(self).waker_spec() == Some(waker),
    {
        if let Some(w) = self.waker {
            if w == waker {
                return;
            }
        }
        self.waker = Some(waker);
    }

    /// Takes the registered handle, which the caller invokes.
    pub fn wake(&mut self) -> (r: Option<WakerId>)
        ensures
            r == old(self).waker_spec(),
            final(self).waker_spec().is_none(),
    {
        let w = self.waker;
        self.waker = None;
        w
    }
}

} // verus!
