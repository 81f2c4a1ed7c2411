//! Concurrency core of a cooperative, poll-based kernel runtime.
//!
//! Every component is a state machine whose transitions are verified: the
//! ready queue and wake protocol of the executor ([`executor`]), the oneshot
//! result channel ([`oneshot`]), the deadline-ordered timer list and the
//! sleeps and timeouts built on it ([`timer`], [`time`]), the I/O reactor's
//! table of pending operations and a synchronous backend for it
//! ([`reactor`], [`backend`]), and the asynchronous lock primitives
//! ([`mutex`], [`rwlock`], [`semaphore`]). Around them stand the buffered and
//! composite I/O steps ([`buf`], [`io`]), the decisions of socket operations
//! ([`socket_poll`]), device events and interrupt lines ([`mmio`],
//! [`mmio_event`], [`task_waker`]) and the error types ([`error`], [`errno`]).
//!
//! A wake handle is represented by a [`WakerId`]. No transition invokes one:
//! whatever a transition wakes is handed back to the caller, which invokes
//! the real handles, and each computation is polled by the caller, which
//! hands its outcome to the matching transition.

use vstd::prelude::*;

pub mod backend;
pub mod buf;
pub mod errno;
pub mod error;
pub mod executor;
pub mod io;
pub mod mmio;
pub mod mmio_event;
pub mod mutex;
pub mod net;
pub mod oneshot;
pub mod reactor;
pub mod rwlock;
pub mod semaphore;
pub mod socket_poll;
pub mod task_waker;
pub mod time;
pub mod timer;

verus! {

/// Identity of a wake handle (the task that it re-queues).
pub type WakerId = usize;

/// Result of one poll of a computation.
pub enum Poll<T> {
    Ready(T),
    Pending,
}

} // verus!
