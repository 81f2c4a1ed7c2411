//! Broker between asynchronous I/O call sites and a pluggable backend.
//!
//! Each submitted operation gets a fresh request identifier and a slot in
//! the table of pending operations. A completion from the backend resolves
//! the slot if its future is still alive; slots whose futures were dropped
//! are swept out on every poll.

use vstd::prelude::*;

use crate::error::{io_error, Error, ErrorKind};
use crate::{Poll, WakerId};

verus! {

/// Identifier of one submitted operation.
#[derive(Clone, Copy, Debug, PartialEq, Eq, Structural)]
pub struct RequestId(pub u64);

/// Handle of a socket-like resource known to the backend.
pub type SocketHandle = u64;

/// An IPv4 address and port.
#[derive(Clone, Copy, Debug, PartialEq, Eq, Structural)]
pub struct SocketAddr {
    pub ip: u32,
    pub port: u16,
}

/// A request to the backend: the target resource and the buffer (its
/// address and length) or peer address that the operation needs.
#[derive(Clone, Copy, Debug, PartialEq, Eq, Structural)]
pub enum IoOperation {
    Read { socket: SocketHandle, buf: usize, len: usize },
    Write { socket: SocketHandle, buf: usize, len: usize },
    Connect { socket: SocketHandle, addr: SocketAddr },
    Accept { socket: SocketHandle },
    Send { socket: SocketHandle, buf: usize, len: usize },
    SendTo { socket: SocketHandle, buf: usize, len: usize, addr: SocketAddr },
    Recv { socket: SocketHandle, buf: usize, len: usize },
    RecvFrom { socket: SocketHandle, buf: usize, len: usize },
}

/// The result of an operation.
pub enum Completion {
    Read(usize),
    Write(usize),
    Connect,
    Accept(SocketHandle),
    Send(usize),
    SendTo(usize),
    Recv(usize),
    RecvFrom(usize, SocketAddr),
    Error(Error),
}

/// What the future of an operation yields for its completion.
pub open spec fn delivered(c: Completion) -> Result<Completion, Error> {
    match c {
        Completion::Error(e) => Err(e),
        _ => Ok(c),
    }
}

/// A backend that performs operations: it takes them with their
/// identifiers, and later hands back the completions it has.
pub trait AsyncIoBackend {
    /// The operations handed to the backend so far, with their identifiers.
    spec fn submitted(&self) -> Seq<(RequestId, IoOperation)>;

    fn submit(&mut self, id: RequestId, operation: IoOperation)
        ensures
            final(self).submitted() == old(self).submitted().push((id, operation)),
    ;

    fn poll(&mut self) -> Vec<(RequestId, Completion)>;
}

/// A slot of the table of pending operations.
pub struct PendingOp {
    pub id: u64,
    /// Whether the operation's future still exists.
    pub live: bool,
    /// The wake handle of the last poll of the future, if any.
    pub waker: Option<WakerId>,
}

/// The future of a submitted operation; it is polled and dropped through
/// the reactor.
pub struct IoFuture {
    id: RequestId,
}

impl IoFuture {
    pub closed spec fn id_spec(&self) -> u64 {
        self.id.0
    }

    pub fn id(&self) -> (r: RequestId)
        ensures
            r.0 == self.id_spec(),
    {
        self.id
    }
}

pub struct IoReactor<B> {
    backend: B,
    next_id: u64,
    operations: Vec<PendingOp>,
    results: Vec<(u64, Completion)>,
}

/// Whether some slot of `ops` has identifier `id`.
pub open spec fn has_id(ops: Seq<PendingOp>, id: u64) -> bool {
    exists|i: int| 0 <= i < ops.len() && (#[trigger] ops[i]).id == id
}

/// The position of the slot with identifier `id` in `ops`, or -1.
pub open spec fn slot_of(ops: Seq<PendingOp>, id: u64) -> int {
    if has_id(ops, id) {
        choose|i: int| 0 <= i < ops.len() && (#[trigger] ops[i]).id == id
    } else {
        -1
    }
}

/// Resolving the completions `cs` in order against the slots `ops`: the
/// slot of each identifier leaves the table; if its future is alive the
/// completion is delivered and its registered wake handle is woken; a
/// completion with no slot (its future dropped and swept, or already
/// resolved) changes nothing. Gives the slots left, the deliveries, and
/// the woken handles, in order.
pub open spec fn resolve(ops: Seq<PendingOp>, cs: Seq<(RequestId, Completion)>) -> (Seq<PendingOp>, Seq<(u64, Completion)>, Seq<WakerId>)
    decreases cs.len(),
{
    if cs.len() == 0 {
        (ops, Seq::empty(), Seq::empty())
    } else {
        let prev = resolve(ops, cs.drop_last());
        let id = cs.last().0.0;
        let i = slot_of(prev.0, id);
        if i < 0 {
            prev
        } else {
            let op = prev.0[i];
            (
                prev.0.remove(i),
                if op.live { prev.1.push((id, cs.last().1)) } else { prev.1 },
                if op.live && op.waker is Some { prev.2.push(op.waker.unwrap()) } else { prev.2 },
            )
        }
    }
}

/// The slots whose futures are alive.
pub open spec fn live_slots(ops: Seq<PendingOp>) -> Seq<PendingOp> {
    ops.filter(|o: PendingOp| o.live)
}

/// What resolving `cs` does to a reactor: from slots `ops0` and deliveries
/// `res0` it leaves the live slots of [`resolve`], appends its deliveries,
/// and wakes its handles.
pub open spec fn resolved_by(
    ops0: Seq<PendingOp>,
    res0: Seq<(u64, Completion)>,
    ops1: Seq<PendingOp>,
    res1: Seq<(u64, Completion)>,
    woken: Seq<WakerId>,
    cs: Seq<(RequestId, Completion)>,
) -> bool {
    &&& ops1 == live_slots(resolve(ops0, cs).0)
    &&& res1 == res0 + resolve(ops0, cs).1
    &&& woken == resolve(ops0, cs).2
}

/// What submitting `op` does to a reactor (`before` to `after`, with
/// result `r`): it succeeds unless identifiers are exhausted; on success
/// the future has the next identifier, the table gains its live slot, the
/// backend gets the operation under that identifier, and nothing is yet
/// delivered for it; on failure nothing changes.
pub open spec fn submitted_as<B: AsyncIoBackend>(before: IoReactor<B>, after: IoReactor<B>, r: Result<IoFuture, Error>, op: IoOperation) -> bool {
    &&& r.is_ok() == (before.next_id() < u64::MAX)
    &&& after.results() == before.results()
    &&& r matches Ok(f) ==> f.id_spec() == before.next_id()
        && after.next_id() == before.next_id() + 1
        && after.operations() == before.operations().push(PendingOp { id: f.id_spec(), live: true, waker: None })
        && after.submitted() == before.submitted().push((RequestId(f.id_spec()), op))
        && (forall|i: int| 0 <= i < after.results().len() ==> (#[trigger] after.results()[i]).0 != f.id_spec())
    &&& r matches Err(e) ==> e.kind_spec() == ErrorKind::Other
        && after.operations() == before.operations()
        && after.next_id() == before.next_id()
        && after.submitted() == before.submitted()
}

impl<B: AsyncIoBackend> IoReactor<B> {
    /// The table of pending operations.
    pub closed spec fn operations(&self) -> Seq<PendingOp> {
        self.operations@
    }

    /// Completions delivered to live futures and not yet taken by them.
    pub closed spec fn results(&self) -> Seq<(u64, Completion)> {
        self.results@
    }

    /// The operations handed to the backend so far.
    pub closed spec fn submitted(&self) -> Seq<(RequestId, IoOperation)> {
        self.backend.submitted()
    }

    /// The backend.
    pub fn backend(&self) -> (r: &B)
        ensures
            r.submitted() == self.submitted(),
    {
        &self.backend
    }

    /// The backend, to hand it what only it can take (such as completions).
    pub fn backend_mut(&mut self) -> (r: &mut B)
        ensures
            *r == old(self).backend_spec(),
            final(self).backend_spec() == *final(r),
            final(self).operations() == old(self).operations(),
            final(self).results() == old(self).results(),
            final(self).next_id() == old(self).next_id(),
    {
        &mut self.backend
    }

    pub closed spec fn backend_spec(&self) -> B {
        self.backend
    }

    /// The identifier the next submission gets.
    pub closed spec fn next_id(&self) -> u64 {
        self.next_id
    }

    /// Slot identifiers are distinct and were all handed out already.
    pub open spec fn wf(&self) -> bool {
        &&& forall|i: int, j: int| 0 <= i < j < self.operations().len() ==>
            (#[trigger] self.operations()[i]).id != (#[trigger] self.operations()[j]).id
        &&& forall|i: int| 0 <= i < self.operations().len() ==> (#[trigger] self.operations()[i]).id < self.next_id()
        &&& forall|i: int| 0 <= i < self.results().len() ==> (#[trigger] self.results()[i]).0 < self.next_id()
    }

    pub fn new(backend: B) -> (r: Self)
        ensures
            r.wf(),
            r.operations() == Seq::<PendingOp>::empty(),
            r.results() == Seq::<(u64, Completion)>::empty(),
            r.next_id() == 1,
    {
        IoReactor { backend, next_id: 1, operations: Vec::new(), results: Vec::new() }
    }

    /// Submits `operation` under a fresh identifier and returns its future;
    /// fails once identifiers are exhausted.
    pub fn submit_operation(&mut self, operation: IoOperation) -> (r: Result<IoFuture, Error>)
        requires
            old(self).wf(),
        ensures
            final(self).wf(),
            final(self).results() == old(self).results(),
            r.is_ok() == (old(self).next_id() < u64::MAX),
            r matches Ok(f) ==> f.id_spec() == old(self).next_id()
                && final(self).next_id() == old(self).next_id() + 1
                && final(self).operations() == old(self).operations().push(PendingOp { id: f.id_spec(), live: true, waker: None })
                && final(self).submitted() == old(self).submitted().push((RequestId(f.id_spec()), operation))
                && (forall|i: int| 0 <= i < final(self).results().len() ==> (#[trigger] final(self).results()[i]).0 != f.id_spec()),
            r matches Err(e) ==> e.kind_spec() == ErrorKind::Other
                && final(self).operations() == old(self).operations()
                && final(self).next_id() == old(self).next_id()
                && final(self).submitted() == old(self).submitted(),
            submitted_as(*old(self), *final(self), r, operation),
    {
        if self.next_id == u64::MAX {
            return Err(io_error(ErrorKind::Other, "request identifiers exhausted"));
        }
        let id = RequestId(self.next_id);
        self.next_id = self.next_id + 1;
        self.operations.push(PendingOp { id: id.0, live: true, waker: None });
        proof {
            assert forall|i: int| 0 <= i < self.results().len() implies (#[trigger] self.results()[i]).0 < self.next_id() by {
                assert(old(self).results()[i].0 < old(self).next_id());
            }
        }
        self.backend.submit(id, operation);
        Ok(IoFuture { id })
    }

    /// A future that is already resolved with `error`, under a fresh
    /// identifier; fails once identifiers are exhausted.
    pub fn from_error(&mut self, error: Error) -> (r: Result<IoFuture, Error>)
        requires
            old(self).wf(),
        ensures
            final(self).wf(),
            final(self).operations() == old(self).operations(),
            r.is_ok() == (old(self).next_id() < u64::MAX),
            r matches Ok(f) ==> f.id_spec() == old(self).next_id()
                && final(self).next_id() == old(self).next_id() + 1
                && final(self).results() == old(self).results().push((f.id_spec(), Completion::Error(error))),
            r matches Err(e) ==> e.kind_spec() == ErrorKind::Other
                && final(self).results() == old(self).results()
                && final(self).next_id() == old(self).next_id(),
    {
        if self.next_id == u64::MAX {
            return Err(io_error(ErrorKind::Other, "request identifiers exhausted"));
        }
        let id = RequestId(self.next_id);
        self.next_id = self.next_id + 1;
        self.results.push((id.0, Completion::Error(error)));
        proof {
            assert forall|i: int| 0 <= i < self.results().len() implies (#[trigger] self.results()[i]).0 < self.next_id() by {
                if i < old(self).results().len() {
                    assert(old(self).results()[i].0 < old(self).next_id());
                }
            }
        }
        Ok(IoFuture { id })
    }

    fn find_op(&self, id: u64) -> (r: Option<usize>)
        ensures
            r matches Some(i) ==> i < self.operations().len() && self.operations()[i as int].id == id,
            r is None ==> !has_id(self.operations(), id),
    {
        let mut i: usize = 0;
        while i < self.operations.len()
            invariant
                i <= self.operations@.len(),
                forall|j: int| 0 <= j < i ==> (#[trigger] self.operations@[j]).id != id,
            decreases self.operations@.len() - i,
        {
            if self.operations[i].id == id {
                return Some(i);
            }
            i = i + 1;
        }
        None
    }

    fn find_result(&self, id: u64) -> (r: Option<usize>)
        ensures
            r matches Some(i) ==> i < self.results().len() && self.results()[i as int].0 == id,
            r is None ==> forall|j: int| 0 <= j < self.results().len() ==> (#[trigger] self.results()[j]).0 != id,
    {
        let mut i: usize = 0;
        while i < self.results.len()
            invariant
                i <= self.results@.len(),
                forall|j: int| 0 <= j < i ==> (#[trigger] self.results@[j]).0 != id,
            decreases self.results@.len() - i,
        {
            if self.results[i].0 == id {
                return Some(i);
            }
            i = i + 1;
        }
        None
    }

    /// One poll of `future` by a task with wake handle `waker`: takes its
    /// completion if one was delivered, else records `waker` in its slot.
    pub fn poll_future(&mut self, future: &IoFuture, waker: WakerId) -> (r: Poll<Result<Completion, Error>>)
        requires
            old(self).wf(),
        ensures
            final(self).wf(),
            final(self).next_id() == old(self).next_id(),
            (exists|i: int| 0 <= i < old(self).results().len() && (#[trigger] old(self).results()[i]).0 == future.id_spec()
                && r == Poll::Ready(delivered(old(self).results()[i].1))
                && final(self).results() == old(self).results().remove(i))
                || ((forall|i: int| 0 <= i < old(self).results().len() ==> (#[trigger] old(self).results()[i]).0 != future.id_spec())
                && r is Pending
                && final(self).results() == old(self).results()),
            final(self).operations().len() == old(self).operations().len(),
            forall|i: int| 0 <= i < old(self).operations().len() ==> {
                let o = #[trigger] old(self).operations()[i];
                final(self).operations()[i] == if o.id == future.id_spec() && r is Pending {
                    PendingOp { id: o.id, live: o.live, waker: Some(waker) }
                } else {
                    o
                }
            },
    {
        match self.find_result(future.id.0) {
            Some(i) => {
                let (_, c) = self.results.remove(i);
                match c {
                    Completion::Error(e) => Poll::Ready(Err(e)),
                    other => Poll::Ready(Ok(other)),
                }
            },
            None => {
                match self.find_op(future.id.0) {
                    Some(i) => {
                        let live = self.operations[i].live;
                        self.operations.set(i, PendingOp { id: future.id.0, live, waker: Some(waker) });
                        proof {
                            assert forall|j: int| 0 <= j < old(self).operations().len() implies {
                                let o = #[trigger] old(self).operations()[j];
                                self.operations()[j] == if o.id == future.id_spec() {
                                    PendingOp { id: o.id, live: o.live, waker: Some(waker) }
                                } else {
                                    o
                                }
                            } by {
                                if j != i {
                                    assert(old(self).operations()[j].id != old(self).operations()[i as int].id);
                                }
                            }
                        }
                    },
                    None => {},
                }
                Poll::Pending
            },
        }
    }

    /// Drops `future`: its slot no longer resolves anything and goes at the
    /// next poll, and a completion delivered to it is discarded.
    pub fn drop_future(&mut self, future: IoFuture)
        requires
            old(self).wf(),
        ensures
            final(self).wf(),
            final(self).next_id() == old(self).next_id(),
            final(self).operations().len() == old(self).operations().len(),
            forall|i: int| 0 <= i < old(self).operations().len() ==> {
                let o = #[trigger] old(self).operations()[i];
                final(self).operations()[i] == if o.id == future.id_spec() {
                    PendingOp { id: o.id, live: false, waker: o.waker }
                } else {
                    o
                }
            },
            forall|i: int| 0 <= i < final(self).results().len() ==> (#[trigger] final(self).results()[i]).0 != future.id_spec(),
            forall|i: int| 0 <= i < old(self).results().len() && (#[trigger] old(self).results()[i]).0 != future.id_spec()
                ==> final(self).results().contains(old(self).results()[i]),
    {
        let id = future.id.0;
        match self.find_op(id) {
            Some(i) => {
                let waker = self.operations[i].waker;
                self.operations.set(i, PendingOp { id, live: false, waker });
                proof {
                    assert forall|j: int| 0 <= j < old(self).operations().len() implies {
                        let o = #[trigger] old(self).operations()[j];
                        self.operations()[j] == if o.id == id {
                            PendingOp { id: o.id, live: false, waker: o.waker }
                        } else {
                            o
                        }
                    } by {
                        if j != i {
                            assert(old(self).operations()[j].id != old(self).operations()[i as int].id);
                        }
                    }
                }
            },
            None => {},
        }
        let mut kept: Vec<(u64, Completion)> = Vec::new();
        let ghost before = self.results@;
        let ghost ops_mid = self.operations@;
        while self.results.len() > 0
            invariant
                self.operations@ == ops_mid,
                self.next_id == old(self).next_id,
                forall|i: int| 0 <= i < kept@.len() ==> (#[trigger] kept@[i]).0 < self.next_id,
                forall|i: int| 0 <= i < self.results@.len() ==> (#[trigger] self.results@[i]).0 < self.next_id,
                forall|i: int| 0 <= i < kept@.len() ==> (#[trigger] kept@[i]).0 != id,
                forall|i: int| 0 <= i < before.len() && (#[trigger] before[i]).0 != id
                    ==> kept@.contains(before[i]) || self.results@.contains(before[i]),
            decreases self.results@.len(),
        {
            let ghost cur = self.results@;
            let e = self.results.remove(0);
            proof {
                assert forall|i: int| 0 <= i < before.len() && (#[trigger] before[i]).0 != id
                    implies kept@.push(e).contains(before[i]) || self.results@.contains(before[i]) by {
                    if kept@.contains(before[i]) {
                        let k = choose|k: int| 0 <= k < kept@.len() && kept@[k] == before[i];
                        assert(kept@.push(e)[k] == before[i]);
                    } else {
                        let k = choose|k: int| 0 <= k < cur.len() && cur[k] == before[i];
                        if k == 0 {
                            assert(kept@.push(e)[kept@.len() as int] == before[i]);
                        } else {
                            assert(self.results@[k - 1] == before[i]);
                        }
                    }
                }
            }
            if e.0 != id {
                kept.push(e);
            }
        }
        self.results = kept;
    }

    /// Drains the backend's completions and resolves them; returns the
    /// wake handles to invoke.
    pub fn poll(&mut self) -> (r: Vec<WakerId>)
        requires
            old(self).wf(),
        ensures
            final(self).wf(),
            final(self).next_id() == old(self).next_id(),
            exists|cs: Seq<(RequestId, Completion)>|
                resolved_by(old(self).operations(), old(self).results(), final(self).operations(), final(self).results(), r@, cs),
    {
        let ghost ops_now = self.operations();
        let ghost res_now = self.results();
        let completions = self.backend.poll();
        assert(self.operations() == ops_now && self.results() == res_now);
        let ghost cs = completions@;
        let r = self.complete(completions);
        assert(resolved_by(old(self).operations(), old(self).results(), self.operations(), self.results(), r@, cs));
        r
    }

    /// Resolves `completions`, in order, as [`resolve`] says, then sweeps
    /// out every slot whose future was dropped. Returns the wake handles to
    /// invoke.
    #[verifier::rlimit(100)]
    pub fn complete(&mut self, completions: Vec<(RequestId, Completion)>) -> (r: Vec<WakerId>)
        requires
            old(self).wf(),
        ensures
            final(self).wf(),
            final(self).next_id() == old(self).next_id(),
            resolved_by(old(self).operations(), old(self).results(), final(self).operations(), final(self).results(), r@, completions@),
    {
        let ghost cs = completions@;
        let ghost ops0 = self.operations@;
        let mut completions = completions;
        let mut woken: Vec<WakerId> = Vec::new();
        let ghost mut k: int = 0;
        while completions.len() > 0
            invariant
                self.wf(),
                self.next_id == old(self).next_id,
                0 <= k,
                k + completions@.len() == cs.len(),
                completions@ == cs.skip(k),
                self.operations() == resolve(ops0, cs.take(k)).0,
                self.results() == old(self).results() + resolve(ops0, cs.take(k)).1,
                woken@ == resolve(ops0, cs.take(k)).2,
            decreases completions@.len(),
        {
            let ghost cur = completions@;
            let (rid, c) = completions.remove(0);
            assert(cur[0] == cs[k]);
            let ghost pre = cs.take(k);
            let ghost post = cs.take(k + 1);
            proof {
                assert(post.drop_last() =~= pre);
                assert(post.last() == (rid, c));
            }
            self.resolve_one(rid, c, &mut woken);
            proof {
                k = k + 1;
            }
            assert(completions@ =~= cs.skip(k));
        }
        assert(cs.take(k) =~= cs);
        self.sweep();
        woken
    }

    /// Resolves one completion, as one step of [`resolve`].
    fn resolve_one(&mut self, rid: RequestId, c: Completion, woken: &mut Vec<WakerId>)
        requires
            old(self).wf(),
        ensures
            final(self).wf(),
            final(self).next_id() == old(self).next_id(),
            ({
                let i = slot_of(old(self).operations(), rid.0);
                if i < 0 {
                    final(self).operations() == old(self).operations() && final(self).results() == old(self).results()
                        && final(woken)@ == old(woken)@
                } else {
                    let op = old(self).operations()[i];
                    &&& final(self).operations() == old(self).operations().remove(i)
                    &&& final(self).results() == if op.live { old(self).results().push((rid.0, c)) } else { old(self).results() }
                    &&& final(woken)@ == if op.live && op.waker is Some { old(woken)@.push(op.waker.unwrap()) } else { old(woken)@ }
                }
            }),
    {
        let ghost ops_before = self.operations@;
        match self.find_op(rid.0) {
            Some(i) => {
                proof {
                    assert(has_id(ops_before, rid.0));
                    let j = choose|j: int| 0 <= j < ops_before.len() && (#[trigger] ops_before[j]).id == rid.0;
                    if j != i {
                        if j < i {
                            assert(ops_before[j].id != ops_before[i as int].id);
                        } else {
                            assert(ops_before[i as int].id != ops_before[j].id);
                        }
                    }
                    assert(slot_of(ops_before, rid.0) == i);
                }
                let op = self.operations.remove(i);
                proof {
                    assert forall|a: int, b: int| 0 <= a < b < self.operations().len() implies
                        (#[trigger] self.operations()[a]).id != (#[trigger] self.operations()[b]).id by {
                        let a0 = if a < i { a } else { a + 1 };
                        let b0 = if b < i { b } else { b + 1 };
                        assert(self.operations()[a] == ops_before[a0]);
                        assert(self.operations()[b] == ops_before[b0]);
                    }
                    assert forall|a: int| 0 <= a < self.operations().len() implies (#[trigger] self.operations()[a]).id < self.next_id() by {
                        let a0 = if a < i { a } else { a + 1 };
                        assert(self.operations()[a] == ops_before[a0]);
                    }
                }
                if op.live {
                    self.results.push((rid.0, c));
                    proof {
                        assert forall|a: int| 0 <= a < self.results().len() implies (#[trigger] self.results()[a]).0 < self.next_id() by {
                            if a < old(self).results().len() {
                                assert(self.results()[a] == old(self).results()[a]);
                            }
                        }
                    }
                    match op.waker {
                        Some(w) => woken.push(w),
                        None => {},
                    }
                }
            },
            None => {},
        }
    }

    /// Drops every slot whose future is gone.
    fn sweep(&mut self)
        requires
            old(self).wf(),
        ensures
            final(self).wf(),
            final(self).next_id() == old(self).next_id(),
            final(self).results() == old(self).results(),
            forall|i: int| 0 <= i < final(self).operations().len() ==> (#[trigger] final(self).operations()[i]).live,
            forall|i: int| 0 <= i < final(self).operations().len() ==> old(self).operations().contains(#[trigger] final(self).operations()[i]),
            forall|i: int| 0 <= i < old(self).operations().len() && (#[trigger] old(self).operations()[i]).live
                ==> final(self).operations().contains(old(self).operations()[i]),
            final(self).operations() == live_slots(old(self).operations()),
    {
        let mut kept: Vec<PendingOp> = Vec::new();
        let ghost ops0 = self.operations@;
        let ghost mut idx: Seq<int> = Seq::empty();
        proof {
            reveal(Seq::filter);
            assert(ops0.take(0) =~= Seq::<PendingOp>::empty());
        }
        while self.operations.len() > 0
            invariant
                old(self).wf(),
                self.next_id == old(self).next_id,
                self.results@ == old(self).results@,
                ops0 == old(self).operations(),
                self.operations@.len() <= ops0.len(),
                self.operations@ == ops0.skip(ops0.len() - self.operations@.len()),
                idx.len() == kept@.len(),
                forall|i: int| 0 <= i < kept@.len() ==> 0 <= #[trigger] idx[i] < ops0.len() - self.operations@.len()
                    && kept@[i] == ops0[idx[i]],
                forall|i: int, j: int| 0 <= i < j < idx.len() ==> #[trigger] idx[i] < #[trigger] idx[j],
                forall|i: int| 0 <= i < kept@.len() ==> (#[trigger] kept@[i]).live,
                forall|a: int| 0 <= a < ops0.len() - self.operations@.len() && (#[trigger] ops0[a]).live
                    ==> kept@.contains(ops0[a]),
                kept@ == live_slots(ops0.take(ops0.len() - self.operations@.len())),
            decreases self.operations@.len(),
        {
            let ghost done = ops0.len() - self.operations@.len();
            let op = self.operations.remove(0);
            assert(op == ops0[done]);
            proof {
                reveal(Seq::filter);
                let t1 = ops0.take(done + 1);
                assert(t1.drop_last() =~= ops0.take(done));
                assert(t1.last() == op);
                assert(live_slots(t1) == if op.live { live_slots(ops0.take(done)).push(op) } else { live_slots(ops0.take(done)) });
            }
            assert(self.operations@ =~= ops0.skip(ops0.len() - self.operations@.len()));
            if op.live {
                let ghost kept0 = kept@;
                kept.push(op);
                proof {
                    idx = idx.push(done);
                    assert forall|a: int| 0 <= a < ops0.len() - self.operations@.len() && (#[trigger] ops0[a]).live
                        implies kept@.contains(ops0[a]) by {
                        if a < done {
                            let t = choose|t: int| 0 <= t < kept0.len() && kept0[t] == ops0[a];
                            assert(kept@[t] == ops0[a]);
                        } else {
                            assert(kept@[kept0.len() as int] == ops0[a]);
                        }
                    }
                }
            }
        }
        self.operations = kept;
        proof {
            assert(ops0.take(ops0.len() as int) =~= ops0);
            assert forall|i: int| 0 <= i < self.results().len() implies (#[trigger] self.results()[i]).0 < self.next_id() by {
                assert(old(self).results()[i].0 < old(self).next_id());
            }
            assert forall|i: int| 0 <= i < self.operations().len() implies ops0.contains(#[trigger] self.operations()[i]) by {
                assert(ops0[idx[i]] == self.operations()[i]);
            }
            assert forall|i: int, j: int| 0 <= i < j < self.operations().len() implies
                (#[trigger] self.operations()[i]).id != (#[trigger] self.operations()[j]).id by {
                assert(idx[i] < idx[j]);
                assert(ops0[idx[i]].id != ops0[idx[j]].id);
            }
            assert forall|i: int| 0 <= i < self.operations().len() implies (#[trigger] self.operations()[i]).id < self.next_id() by {
                assert(ops0[idx[i]].id < old(self).next_id());
            }
        }
    }
}

/// Creates the reactor in `slot` over `backend`, unless there is one already.
pub fn init<B: AsyncIoBackend>(slot: &mut Option<IoReactor<B>>, backend: B)
    requires
        *old(slot) matches Some(r) ==> r.wf(),
    ensures
        *final(slot) matches Some(r) && r.wf(),
        old(slot).is_some() ==> *final(slot) == *old(slot),
        old(slot).is_none() ==> final(slot).unwrap().operations() == Seq::<PendingOp>::empty()
            && final(slot).unwrap().results() == Seq::<(u64, Completion)>::empty(),
{
    if slot.is_none() {
        *slot = Some(IoReactor::new(backend));
    }
}

/// Removes the reactor from `slot`, dropping what it still holds.
pub fn shutdown<B: AsyncIoBackend>(slot: &mut Option<IoReactor<B>>)
    ensures
        final(slot).is_none(),
{
    *slot = None;
}

/// Whether each delivery of `d` is for a slot of `ops` whose future was alive.
pub open spec fn from_live_slots(ops: Seq<PendingOp>, d: Seq<(u64, Completion)>) -> bool {
    forall|k: int| 0 <= k < d.len() ==> exists|j: int| 0 <= j < ops.len()
        && (#[trigger] ops[j]).id == (#[trigger] d[k]).0 && ops[j].live
}

/// The slots [`resolve`] leaves are slots of `ops`, and each delivery is
/// for a slot of `ops` whose future was alive.
pub proof fn lemma_resolve_from(ops: Seq<PendingOp>, cs: Seq<(RequestId, Completion)>)
    ensures
        forall|i: int| 0 <= i < resolve(ops, cs).0.len() ==> ops.contains(#[trigger] resolve(ops, cs).0[i]),
        from_live_slots(ops, resolve(ops, cs).1),
    decreases cs.len(),
{
    if cs.len() == 0 {
        assert(resolve(ops, cs).1.len() == 0);
        assert(resolve(ops, cs).0 == ops);
    }
    if cs.len() > 0 {
        lemma_resolve_from(ops, cs.drop_last());
        let prev = resolve(ops, cs.drop_last());
        let id = cs.last().0.0;
        let i = slot_of(prev.0, id);
        let cur = resolve(ops, cs);
        if i < 0 {
            assert(cur == prev);
            assert forall|k: int| 0 <= k < cur.1.len() implies exists|j: int| 0 <= j < ops.len()
                && (#[trigger] ops[j]).id == (#[trigger] cur.1[k]).0 && ops[j].live by {
                assert(cur.1[k] == prev.1[k]);
            }
        } else {
            assert forall|a: int| 0 <= a < cur.0.len() implies ops.contains(#[trigger] cur.0[a]) by {
                let a0 = if a < i { a } else { a + 1 };
                assert(cur.0[a] == prev.0[a0]);
                assert(prev.0.contains(prev.0[a0]));
            }
            let op = prev.0[i];
            assert(has_id(prev.0, id));
            assert(op.id == id);
            assert(ops.contains(prev.0[i]));
            assert(ops.contains(op));
            assert forall|k: int| 0 <= k < cur.1.len() implies exists|j: int| 0 <= j < ops.len()
                && (#[trigger] ops[j]).id == (#[trigger] cur.1[k]).0 && ops[j].live by {
                if k < prev.1.len() {
                    assert(cur.1[k] == prev.1[k]);
                } else {
                    assert(op.live);
                    assert(cur.1[k] == (id, cs.last().1));
                    let j = choose|j: int| 0 <= j < ops.len() && ops[j] == op;
                    assert(ops[j].id == cur.1[k].0 && ops[j].live);
                }
            }
        }
    }
}

/// The live slots of `s` are slots of `s` whose futures are alive.
pub proof fn lemma_live_slots(s: Seq<PendingOp>)
    ensures
        forall|i: int| 0 <= i < live_slots(s).len() ==> (#[trigger] live_slots(s)[i]).live && s.contains(live_slots(s)[i]),
    decreases s.len(),
{
    reveal(Seq::filter);
    if s.len() > 0 {
        lemma_live_slots(s.drop_last());
        let prev = live_slots(s.drop_last());
        assert forall|i: int| 0 <= i < live_slots(s).len() implies (#[trigger] live_slots(s)[i]).live && s.contains(live_slots(s)[i]) by {
            if i < prev.len() {
                assert(live_slots(s)[i] == prev[i]);
                let t = choose|t: int| 0 <= t < s.drop_last().len() && s.drop_last()[t] == prev[i];
                assert(s[t] == prev[i]);
            } else {
                assert(live_slots(s)[i] == s.last());
                assert(s[s.len() - 1] == s.last());
            }
        }
    }
}

/// Reactor liveness: when a future was dropped before its completion
/// arrived, resolving any completions whatever (its own among them) leaves
/// no slot with its identifier, delivers nothing for it, and every slot left
/// has a live future.
pub proof fn lemma_dropped_slot_swept(
    ops0: Seq<PendingOp>,
    res0: Seq<(u64, Completion)>,
    ops1: Seq<PendingOp>,
    res1: Seq<(u64, Completion)>,
    woken: Seq<WakerId>,
    cs: Seq<(RequestId, Completion)>,
    id: u64,
)
    requires
        forall|i: int, j: int| 0 <= i < j < ops0.len() ==> (#[trigger] ops0[i]).id != (#[trigger] ops0[j]).id,
        exists|i: int| 0 <= i < ops0.len() && (#[trigger] ops0[i]).id == id && !ops0[i].live,
        resolved_by(ops0, res0, ops1, res1, woken, cs),
    ensures
        !has_id(ops1, id),
        forall|i: int| 0 <= i < ops1.len() ==> (#[trigger] ops1[i]).live,
        forall|k: int| res0.len() <= k < res1.len() ==> (#[trigger] res1[k]).0 != id,
{
    let i0 = choose|i: int| 0 <= i < ops0.len() && (#[trigger] ops0[i]).id == id && !ops0[i].live;
    lemma_resolve_from(ops0, cs);
    let rest = resolve(ops0, cs).0;
    lemma_live_slots(rest);
    if has_id(ops1, id) {
        let k = choose|k: int| 0 <= k < ops1.len() && (#[trigger] ops1[k]).id == id;
        assert(ops1[k].live && rest.contains(ops1[k]));
        let t = choose|t: int| 0 <= t < rest.len() && rest[t] == ops1[k];
        assert(ops0.contains(rest[t]));
        let a = choose|a: int| 0 <= a < ops0.len() && ops0[a] == rest[t];
        if a != i0 {
            if a < i0 {
                assert(ops0[a].id != ops0[i0].id);
            } else {
                assert(ops0[i0].id != ops0[a].id);
            }
        }
    }
    assert forall|k: int| res0.len() <= k < res1.len() implies (#[trigger] res1[k]).0 != id by {
        let d = resolve(ops0, cs).1;
        assert(from_live_slots(ops0, d));
        assert(res1[k] == d[k - res0.len()]);
        let j = choose|j: int| 0 <= j < ops0.len() && (#[trigger] ops0[j]).id == d[k - res0.len()].0 && ops0[j].live;
        if d[k - res0.len()].0 == id && j != i0 {
            if j < i0 {
                assert(ops0[j].id != ops0[i0].id);
            } else {
                assert(ops0[i0].id != ops0[j].id);
            }
        }
    }
}

} // verus!
