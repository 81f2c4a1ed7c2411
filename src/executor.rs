//! Ready queue and wake protocol of a cooperative executor.
//!
//! Tasks are known by identity. The computations themselves are polled by
//! the caller: [`Executor::begin_poll`] names the next task to poll and
//! [`Executor::end_poll`] takes the outcome of that poll.

use std::collections::VecDeque;
use vstd::prelude::*;

use crate::oneshot::{channel, poll_step, Oneshot, Outcome};
use crate::{Poll, WakerId};

verus! {

/// Identity of a task; it is also the identity of the task's wake handle.
pub type TaskId = WakerId;

/// Where a task stands in the wake protocol.
#[derive(Clone, Copy, PartialEq, Eq, Structural)]
pub enum TaskState {
    /// In the ready queue, waiting for its next poll.
    Queued,
    /// Being polled; `true` once a wake came in during the poll.
    Running(bool),
    /// Suspended, with no wake since its last poll.
    Waiting,
    /// Its computation completed.
    Done,
}

/// Waking task `id`: a suspended task is queued at the back of the ready
/// queue; a task being polled remembers the wake; otherwise nothing changes.
pub open spec fn wake_step(st: Seq<TaskState>, q: Seq<TaskId>, id: TaskId) -> (Seq<TaskState>, Seq<TaskId>) {
    if id < st.len() {
        match st[id as int] {
            TaskState::Waiting => (st.update(id as int, TaskState::Queued), q.push(id)),
            TaskState::Running(_) => (st.update(id as int, TaskState::Running(true)), q),
            _ => (st, q),
        }
    } else {
        (st, q)
    }
}

/// `n` wakes of task `id` in a row.
pub open spec fn wake_n(st: Seq<TaskState>, q: Seq<TaskId>, id: TaskId, n: nat) -> (Seq<TaskState>, Seq<TaskId>)
    decreases n,
{
    if n == 0 {
        (st, q)
    } else {
        let prev = wake_n(st, q, id, (n - 1) as nat);
        wake_step(prev.0, prev.1, id)
    }
}

/// The end of a poll of task `id`: a completed task is done; a suspended
/// one is queued again if it was woken during the poll, else it waits.
pub open spec fn end_step(st: Seq<TaskState>, q: Seq<TaskId>, id: TaskId, completed: bool) -> (Seq<TaskState>, Seq<TaskId>) {
    if completed {
        (st.update(id as int, TaskState::Done), q)
    } else if st[id as int] == TaskState::Running(true) {
        (st.update(id as int, TaskState::Queued), q.push(id))
    } else {
        (st.update(id as int, TaskState::Waiting), q)
    }
}

/// A queue of ready tasks served first in, first out.
pub struct Executor {
    states: Vec<TaskState>,
    ready: VecDeque<TaskId>,
}

/// The handle of a spawned task: its identity, and the channel on which
/// its output is delivered.
pub struct JoinHandle<T> {
    pub task: TaskId,
    pub output: Oneshot<T>,
}

impl<T> JoinHandle<T> {
    /// One poll by a task with wake handle `waker` waiting for the output:
    /// the output once sent, word of abandonment if the task was dropped
    /// before completing, else pending.
    pub fn poll(&mut self, waker: WakerId) -> (r: Poll<Outcome<T>>)
        ensures
            final(self).task == old(self).task,
            (final(self).output.state(), r) == poll_step(old(self).output.state(), waker),
    {
        self.output.poll(waker)
    }
}

impl Executor {
    /// The state of each task, indexed by identity.
    pub closed spec fn states(&self) -> Seq<TaskState> {
        self.states@
    }

    /// The ready queue, front first.
    pub closed spec fn ready(&self) -> Seq<TaskId> {
        self.ready@
    }

    /// The ready queue holds exactly the queued tasks, each once.
    pub open spec fn wf(&self) -> bool {
        &&& forall|i: int| 0 <= i < self.ready().len() ==>
            (#[trigger] self.ready()[i]) < self.states().len()
            && self.states()[self.ready()[i] as int] == TaskState::Queued
        &&& forall|i: int, j: int| 0 <= i < j < self.ready().len() ==>
            #[trigger] self.ready()[i] != #[trigger] self.ready()[j]
        &&& forall|t: TaskId| t < self.states().len() && #[trigger] self.states()[t as int] == TaskState::Queued ==>
            self.ready().contains(t)
    }

    /// Creates an executor with no tasks.
    pub fn new() -> (r: Self)
        ensures
            r.wf(),
            r.states() == Seq::<TaskState>::empty(),
            r.ready() == Seq::<TaskId>::empty(),
    {
        Executor { states: Vec::new(), ready: VecDeque::new() }
    }

    /// Adds a new task at the back of the ready queue and returns its handle.
    pub fn spawn<T>(&mut self) -> (r: JoinHandle<T>)
        requires
            old(self).wf(),
        ensures
            final(self).wf(),
            r.task == old(self).states().len(),
            final(self).states() == old(self).states().push(TaskState::Queued),
            final(self).ready() == old(self).ready().push(r.task),
            r.output.state() == crate::oneshot::ChanState::<T>::Open(None),
    {
        let id = self.states.len();
        self.states.push(TaskState::Queued);
        self.ready.push_back(id);
        proof {
            assert forall|t: TaskId| t < self.states().len() && #[trigger] self.states()[t as int] == TaskState::Queued
                implies self.ready().contains(t) by {
                if t < id {
                    let k = choose|k: int| 0 <= k < old(self).ready().len() && old(self).ready()[k] == t;
                    assert(self.ready()[k] == t);
                } else {
                    assert(self.ready()[self.ready().len() - 1] == t);
                }
            }
        }
        JoinHandle { task: id, output: channel() }
    }

    /// Invokes the wake handle of task `id`, as [`wake_step`] says.
    pub fn wake(&mut self, id: TaskId)
        requires
            old(self).wf(),
        ensures
            final(self).wf(),
            (final(self).states(), final(self).ready()) == wake_step(old(self).states(), old(self).ready(), id),
    {
        if id < self.states.len() {
            match self.states[id] {
                TaskState::Waiting => {
                    self.states.set(id, TaskState::Queued);
                    self.ready.push_back(id);
                    proof {
                        assert forall|t: TaskId| t < self.states().len() && #[trigger] self.states()[t as int] == TaskState::Queued
                            implies self.ready().contains(t) by {
                            if t != id {
                                let k = choose|k: int| 0 <= k < old(self).ready().len() && old(self).ready()[k] == t;
                                assert(self.ready()[k] == t);
                            } else {
                                assert(self.ready()[self.ready().len() - 1] == t);
                            }
                        }
                    }
                },
                TaskState::Running(_) => {
                    self.states.set(id, TaskState::Running(true));
                    proof {
                        assert forall|t: TaskId| t < self.states().len() && #[trigger] self.states()[t as int] == TaskState::Queued
                            implies self.ready().contains(t) by {
                            assert(old(self).states()[t as int] == TaskState::Queued);
                        }
                    }
                },
                _ => {},
            }
        }
    }

    /// Takes the task at the front of the ready queue for polling, if any.
    pub fn begin_poll(&mut self) -> (r: Option<TaskId>)
        requires
            old(self).wf(),
        ensures
            final(self).wf(),
            old(self).ready().len() == 0 ==> r.is_none() && final(self).ready() == old(self).ready()
                && final(self).states() == old(self).states(),
            old(self).ready().len() > 0 ==> r == Some(old(self).ready()[0])
                && final(self).ready() == old(self).ready().drop_first()
                && final(self).states() == old(self).states().update(old(self).ready()[0] as int, TaskState::Running(false)),
    {
        let ghost q0 = self.ready@;
        match self.ready.pop_front() {
            None => None,
            Some(id) => {
                assert(q0[0] == id);
                self.states.set(id, TaskState::Running(false));
                proof {
                    assert forall|i: int| 0 <= i < self.ready().len() implies
                        (#[trigger] self.ready()[i]) < self.states().len()
                        && self.states()[self.ready()[i] as int] == TaskState::Queued by {
                        assert(self.ready()[i] == old(self).ready()[i + 1]);
                    }
                    assert forall|i: int, j: int| 0 <= i < j < self.ready().len() implies
                        #[trigger] self.ready()[i] != #[trigger] self.ready()[j] by {
                        assert(self.ready()[i] == old(self).ready()[i + 1]);
                        assert(self.ready()[j] == old(self).ready()[j + 1]);
                    }
                    assert forall|t: TaskId| t < self.states().len() && #[trigger] self.states()[t as int] == TaskState::Queued
                        implies self.ready().contains(t) by {
                        assert(t != id);
                        assert(old(self).states()[t as int] == TaskState::Queued);
                        assert(old(self).ready().contains(t));
                        assert(q0 == old(self).ready());
                        let k = choose|k: int| 0 <= k < q0.len() && q0[k] == t;
                        assert(k != 0);
                        assert(self.ready()[k - 1] == t);
                    }
                }
                Some(id)
            },
        }
    }

    /// Ends the poll of task `id`, as [`end_step`] says; returns whether
    /// the ready queue is non-empty afterwards.
    pub fn end_poll(&mut self, id: TaskId, completed: bool) -> (r: bool)
        requires
            old(self).wf(),
            id < old(self).states().len(),
            old(self).states()[id as int] is Running,
        ensures
            final(self).wf(),
            (final(self).states(), final(self).ready()) == end_step(old(self).states(), old(self).ready(), id, completed),
            r == (final(self).ready().len() > 0),
    {
        if completed {
            self.states.set(id, TaskState::Done);
        } else if self.states[id] == TaskState::Running(true) {
            self.states.set(id, TaskState::Queued);
            self.ready.push_back(id);
        } else {
            self.states.set(id, TaskState::Waiting);
        }
        proof {
            assert forall|i: int| 0 <= i < old(self).ready().len() implies old(self).ready()[i] != id by {
                let x = old(self).ready()[i];
            }
            assert forall|t: TaskId| t < self.states().len() && #[trigger] self.states()[t as int] == TaskState::Queued
                implies self.ready().contains(t) by {
                if t != id {
                    let k = choose|k: int| 0 <= k < old(self).ready().len() && old(self).ready()[k] == t;
                    assert(self.ready()[k] == t);
                } else {
                    assert(self.ready()[self.ready().len() - 1] == t);
                }
            }
        }
        self.ready.len() > 0
    }

    /// Whether no task is ready.
    pub fn is_idle(&self) -> (r: bool)
        ensures
            r == (self.ready().len() == 0),
    {
        self.ready.len() == 0
    }
}

/// Creates the executor in `slot` unless there is one already.
pub fn init(slot: &mut Option<Executor>)
    requires
        *old(slot) matches Some(e) ==> e.wf(),
    ensures
        *final(slot) matches Some(e) && e.wf(),
        old(slot).is_some() ==> *final(slot) == *old(slot),
        old(slot).is_none() ==> final(slot).unwrap().states() == Seq::<TaskState>::empty(),
{
    if slot.is_none() {
        *slot = Some(Executor::new());
    }
}

/// Spawns a new task on `executor`.
pub fn spawn<T>(executor: &mut Executor) -> (r: JoinHandle<T>)
    requires
        old(executor).wf(),
    ensures
        final(executor).wf(),
        r.task == old(executor).states().len(),
        final(executor).states() == old(executor).states().push(TaskState::Queued),
        final(executor).ready() == old(executor).ready().push(r.task),
        r.output.state() == crate::oneshot::ChanState::<T>::Open(None),
{
    executor.spawn()
}

/// Wake coalescing: any number `n >= 1` of wakes of a suspended task puts
/// it in the ready queue exactly once.
pub proof fn lemma_wakes_coalesce(st: Seq<TaskState>, q: Seq<TaskId>, id: TaskId, n: nat)
    requires
        n >= 1,
        id < st.len(),
        st[id as int] == TaskState::Waiting,
    ensures
        wake_n(st, q, id, n) == (st.update(id as int, TaskState::Queued), q.push(id)),
    decreases n,
{
    let prev = wake_n(st, q, id, (n - 1) as nat);
    if n > 1 {
        lemma_wakes_coalesce(st, q, id, (n - 1) as nat);
        assert(prev.0[id as int] == TaskState::Queued);
    } else {
        assert(prev == (st, q));
    }
}

/// Wake coalescing during a poll: any number `n >= 1` of wakes of a task
/// being polled leave the ready queue alone, and the end of that poll
/// (suspended) puts the task in the ready queue exactly once.
pub proof fn lemma_wakes_during_poll_coalesce(st: Seq<TaskState>, q: Seq<TaskId>, id: TaskId, n: nat, woken: bool)
    requires
        n >= 1,
        id < st.len(),
        st[id as int] == TaskState::Running(woken),
    ensures
        wake_n(st, q, id, n) == (st.update(id as int, TaskState::Running(true)), q),
        end_step(wake_n(st, q, id, n).0, wake_n(st, q, id, n).1, id, false)
            == (st.update(id as int, TaskState::Queued), q.push(id)),
    decreases n,
{
    let prev = wake_n(st, q, id, (n - 1) as nat);
    if n > 1 {
        lemma_wakes_during_poll_coalesce(st, q, id, (n - 1) as nat, woken);
        assert(prev.0[id as int] == TaskState::Running(true));
        assert(prev.0.update(id as int, TaskState::Running(true)) =~= prev.0);
    } else {
        assert(prev == (st, q));
    }
    let s1 = st.update(id as int, TaskState::Running(true));
    assert(s1.update(id as int, TaskState::Queued) =~= st.update(id as int, TaskState::Queued));
}

} // verus!
