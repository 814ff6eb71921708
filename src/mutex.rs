use vstd::prelude::*;

use crate::error::Error;
use crate::event::TaskId;

verus! {

/// The lock side of a mutex: the task that holds it, if any, and the tasks
/// blocked on it, first come first served.
pub ghost struct LockState {
    pub owner: Option<TaskId>,
    pub queue: Seq<TaskId>,
    /// Whether the holder's guard has been handed out.
    pub guard_out: bool,
}

/// A lock nobody holds and nobody waits for.
pub open spec fn free_lock() -> LockState {
    LockState { owner: None, queue: Seq::empty(), guard_out: false }
}

/// A task that a release made the holder takes its guard, once.
pub open spec fn claim_spec(s: LockState, task: TaskId) -> (LockState, bool) {
    if s.owner == Some(task) && !s.guard_out {
        (LockState { guard_out: true, ..s }, true)
    } else {
        (s, false)
    }
}

/// A free lock has no queue and no guard out; the holder is not queued; nobody is queued twice.
pub open spec fn lock_wf(s: LockState) -> bool {
    &&& s.owner is None ==> s.queue.len() == 0 && !s.guard_out
    &&& s.owner is Some ==> !s.queue.contains(s.owner->0)
    &&& s.queue.no_duplicates()
}

/// A non-blocking attempt by `task`: it gets the lock only when the lock is
/// free, and is never queued.
pub open spec fn poll_spec(s: LockState, task: TaskId) -> (LockState, bool) {
    if s.owner is None {
        (LockState { owner: Some(task), queue: s.queue, guard_out: true }, true)
    } else {
        (s, false)
    }
}

/// A blocking attempt by `task`: it gets a free lock at once; otherwise it
/// joins the end of the queue, unless it holds the lock or is queued already.
pub open spec fn lock_spec(s: LockState, task: TaskId) -> (LockState, bool) {
    if s.owner is None {
        (LockState { owner: Some(task), queue: s.queue, guard_out: true }, true)
    } else if s.owner == Some(task) || s.queue.contains(task) {
        (s, false)
    } else {
        (LockState { queue: s.queue.push(task), ..s }, false)
    }
}

/// `task` leaves the queue; the others keep their order.
pub open spec fn drop_waiter(q: Seq<TaskId>, task: TaskId) -> Seq<TaskId> {
    if q.contains(task) {
        q.remove(q.index_of(task))
    } else {
        q
    }
}

/// A blocking attempt whose outcome the host reports: while the lock is
/// taken, an attempt whose wait has `expired` gives up, leaves the queue and
/// fails with a timeout; otherwise it is a blocking attempt.
pub open spec fn try_lock_spec(s: LockState, task: TaskId, expired: bool) -> (LockState, Result<bool, Error>) {
    if s.owner is None || !expired {
        (lock_spec(s, task).0, Ok(lock_spec(s, task).1))
    } else {
        (LockState { queue: drop_waiter(s.queue, task), ..s }, Err(Error::Timeout))
    }
}

/// A release hands the lock to the first queued task, if there is one, and
/// frees it otherwise.
pub open spec fn release_spec(s: LockState) -> (LockState, Option<TaskId>) {
    if s.queue.len() == 0 {
        (LockState { owner: None, queue: s.queue, guard_out: false }, None)
    } else {
        (
            LockState { owner: Some(s.queue[0]), queue: s.queue.drop_first(), guard_out: false },
            Some(s.queue[0]),
        )
    }
}

/// Whether an attempt that did not fail handed out a guard.
pub open spec fn acquired(r: Result<Option<MutexGuard>, Error>) -> Result<bool, Error> {
    match r {
        Ok(g) => Ok(g is Some),
        Err(e) => Err(e),
    }
}

/// Proof that a task holds a [`Mutex`]: the one way to reach its value.
pub struct MutexGuard {
    task: TaskId,
}

impl MutexGuard {
    /// The task that holds the lock.
    pub closed spec fn holder(&self) -> TaskId {
        self.task
    }

    /// The task that holds the lock.
    pub fn task(&self) -> (r: TaskId)
        ensures
            r == self.holder(),
    {
        self.task
    }
}

/// A value protected by one native lock of the operating system.
///
/// At most one task holds the lock at a time, and the value is reached only
/// through the guard of that task. Tasks that find the lock taken wait in
/// order of arrival; each release hands the lock to exactly one of them.
pub struct Mutex<T> {
    native: u64,
    data: T,
    owner: Option<TaskId>,
    queue: Vec<TaskId>,
    guard_out: bool,
}

fn queue_contains(v: &Vec<TaskId>, task: TaskId) -> (r: bool)
    ensures
        r == v@.contains(task),
{
    let mut i: usize = 0;
    while i < v.len()
        invariant
            0 <= i <= v@.len(),
            forall|j: int| 0 <= j < i ==> v@[j] != task,
        decreases v@.len() - i,
    {
        if v[i] == task {
            return true;
        }
        i = i + 1;
    }
    false
}

impl<T> Mutex<T> {
    /// The state of the lock.
    pub closed spec fn lock_state(&self) -> LockState {
        LockState { owner: self.owner, queue: self.queue@, guard_out: self.guard_out }
    }

    /// The protected value.
    pub closed spec fn value(&self) -> T {
        self.data
    }

    /// The handle of the native lock.
    pub closed spec fn handle(&self) -> u64 {
        self.native
    }

    pub open spec fn wf(&self) -> bool {
        lock_wf(self.lock_state()) && self.handle() != 0
    }

    /// Wraps `data` in a mutex over the native lock `native`, which the
    /// operating system allocated; a null handle (zero) means that it could
    /// not, and gives a resource-exhaustion error.
    pub fn try_new(data: T, native: u64) -> (r: Result<Mutex<T>, Error>)
        ensures
            native == 0 <==> r == Err::<Mutex<T>, Error>(Error::ResourceExhausted),
            native != 0 <==> r is Ok,
            r matches Ok(m) ==> m.wf() && m.lock_state() == free_lock() && m.value() == data
                && m.handle() == native,
    {
        if native == 0 {
            Err(Error::ResourceExhausted)
        } else {
            Ok(Mutex { native, data, owner: None, queue: Vec::new(), guard_out: false })
        }
    }

    /// Wraps `data` in a mutex over the native lock `native`, which must not
    /// be null.
    pub fn new(data: T, native: u64) -> (r: Mutex<T>)
        requires
            native != 0,
        ensures
            r.wf(),
            r.lock_state() == free_lock(),
            r.value() == data,
            r.handle() == native,
    {
        Mutex { native, data, owner: None, queue: Vec::new(), guard_out: false }
    }

    /// The handle of the native lock.
    pub fn native(&self) -> (r: u64)
        ensures
            r == self.handle(),
    {
        self.native
    }

    /// The task that holds the lock, if any.
    pub fn owner(&self) -> (r: Option<TaskId>)
        ensures
            r == self.lock_state().owner,
    {
        self.owner
    }

    /// Acquires the lock for `task` if it is free at once; never blocks and
    /// never queues.
    pub fn poll(&mut self, task: TaskId) -> (r: Option<MutexGuard>)
        requires
            old(self).wf(),
        ensures
            final(self).wf(),
            (final(self).lock_state(), r is Some) == poll_spec(old(self).lock_state(), task),
            r matches Some(g) ==> g.holder() == task,
            final(self).value() == old(self).value(),
            final(self).handle() == old(self).handle(),
    {
        if self.owner.is_none() {
            self.owner = Some(task);
            self.guard_out = true;
            Some(MutexGuard { task })
        } else {
            None
        }
    }

    /// Acquires the lock for `task`, or queues `task` to be handed the lock
    /// by a later release; the caller then blocks until it is woken.
    pub fn lock(&mut self, task: TaskId) -> (r: Option<MutexGuard>)
        requires
            old(self).wf(),
        ensures
            final(self).wf(),
            (final(self).lock_state(), r is Some) == lock_spec(old(self).lock_state(), task),
            r matches Some(g) ==> g.holder() == task,
            final(self).value() == old(self).value(),
            final(self).handle() == old(self).handle(),
    {
        if self.owner.is_none() {
            self.owner = Some(task);
            self.guard_out = true;
            return Some(MutexGuard { task });
        }
        if self.owner != Some(task) && !queue_contains(&self.queue, task) {
            self.queue.push(task);
            assert(self.queue@.no_duplicates());
        }
        None
    }

    /// A blocking attempt by `task` whose outcome the host reports: when the
    /// lock is taken and the wait of `task` has `expired`, `task` leaves the
    /// queue and the attempt fails with a timeout; otherwise it is [`Mutex::lock`].
    pub fn try_lock(&mut self, task: TaskId, expired: bool) -> (r: Result<Option<MutexGuard>, Error>)
        requires
            old(self).wf(),
        ensures
            final(self).wf(),
            (final(self).lock_state(), acquired(r))
                == try_lock_spec(old(self).lock_state(), task, expired),
            r matches Ok(Some(g)) ==> g.holder() == task,
            final(self).value() == old(self).value(),
            final(self).handle() == old(self).handle(),
    {
        if self.owner.is_none() || !expired {
            return Ok(self.lock(task));
        }
        let ghost q = self.queue@;
        let mut i: usize = 0;
        while i < self.queue.len()
            invariant
                self.queue@ == q,
                self.wf(),
                self.owner == old(self).owner,
                self.guard_out == old(self).guard_out,
                self.owner is Some,
                expired,
                self.data == old(self).data,
                self.native == old(self).native,
                q == old(self).queue@,
                0 <= i <= q.len(),
                forall|j: int| 0 <= j < i ==> q[j] != task,
            decreases q.len() - i,
        {
            if self.queue[i] == task {
                assert(q.index_of(task) == i as int) by {
                    let k = q.index_of(task);
                    assert(q.contains(task));
                    assert(0 <= k < q.len() && q[k] == task);
                }
                self.queue.remove(i);
                assert(self.queue@ == drop_waiter(q, task));
                assert(self.queue@.no_duplicates()) by {
                    assert forall|a: int, b: int|
                        0 <= a < self.queue@.len() && 0 <= b < self.queue@.len() && a != b
                        implies self.queue@[a] != self.queue@[b] by {
                        let ia = if a < i { a } else { a + 1 };
                        let ib = if b < i { b } else { b + 1 };
                        assert(self.queue@[a] == q[ia]);
                        assert(self.queue@[b] == q[ib]);
                    }
                }
                assert(self.owner is Some ==> !self.queue@.contains(self.owner->0)) by {
                    if self.owner is Some && self.queue@.contains(self.owner->0) {
                        let k = choose|k: int| 0 <= k < self.queue@.len() && self.queue@[k] == self.owner->0;
                        let ik = if k < i { k } else { k + 1 };
                        assert(q[ik] == self.owner->0);
                    }
                }
                assert(self.lock_state() == try_lock_spec(old(self).lock_state(), task, expired).0);
                return Err(Error::Timeout);
            }
            i = i + 1;
        }
        assert(!q.contains(task));
        Err(Error::Timeout)
    }

    /// The guard of `task` once a release handed it the lock. The guard is
    /// handed out once: a later claim gives nothing.
    pub fn claim(&mut self, task: TaskId) -> (r: Option<MutexGuard>)
        requires
            old(self).wf(),
        ensures
            final(self).wf(),
            (final(self).lock_state(), r is Some) == claim_spec(old(self).lock_state(), task),
            r matches Some(g) ==> g.holder() == task,
            final(self).value() == old(self).value(),
            final(self).handle() == old(self).handle(),
    {
        if self.owner == Some(task) && !self.guard_out {
            self.guard_out = true;
            Some(MutexGuard { task })
        } else {
            None
        }
    }

    /// The protected value, read through the holder's guard.
    pub fn get(&self, guard: &MutexGuard) -> (r: &T)
        requires
            self.lock_state().owner == Some(guard.holder()),
        ensures
            *r == self.value(),
    {
        &self.data
    }

    /// Replaces the protected value through the holder's guard.
    pub fn set(&mut self, guard: &MutexGuard, data: T)
        requires
            old(self).lock_state().owner == Some(guard.holder()),
        ensures
            final(self).value() == data,
            final(self).lock_state() == old(self).lock_state(),
            final(self).handle() == old(self).handle(),
    {
        self.data = data;
    }

    /// Releases the lock held through `guard`: the first queued task, if
    /// any, becomes the holder and is returned, to be woken.
    pub fn unlock(&mut self, guard: MutexGuard) -> (next: Option<TaskId>)
        requires
            old(self).wf(),
            old(self).lock_state().owner == Some(guard.holder()),
        ensures
            final(self).wf(),
            (final(self).lock_state(), next) == release_spec(old(self).lock_state()),
            final(self).value() == old(self).value(),
            final(self).handle() == old(self).handle(),
    {
        if self.queue.len() == 0 {
            self.owner = None;
            self.guard_out = false;
            None
        } else {
            let ghost q = self.queue@;
            let t = self.queue.remove(0);
            assert(self.queue@ =~= q.drop_first());
            assert(!self.queue@.contains(t)) by {
                if self.queue@.contains(t) {
                    let k = choose|k: int| 0 <= k < self.queue@.len() && self.queue@[k] == t;
                    assert(q[k + 1] == q[0]);
                }
            }
            self.owner = Some(t);
            self.guard_out = false;
            Some(t)
        }
    }
}

/// Exclusivity: while one task holds the lock, no attempt by another task,
/// blocking or not, acquires it.
pub proof fn lemma_exclusive(s: LockState, a: TaskId, b: TaskId)
    requires
        lock_wf(s),
        lock_spec(s, a).1 || poll_spec(s, a).1,
    ensures
        !poll_spec(lock_spec(s, a).0, b).1,
        !lock_spec(lock_spec(s, a).0, b).1,
        !poll_spec(poll_spec(s, a).0, b).1,
        !lock_spec(poll_spec(s, a).0, b).1,
{
}

/// A release unblocks exactly one waiter when there is one: the first in the
/// queue becomes the holder and leaves the queue, and the others keep their
/// places. With nobody waiting the lock becomes free.
pub proof fn lemma_release_wakes_one(s: LockState)
    requires
        lock_wf(s),
        s.owner is Some,
    ensures
        lock_wf(release_spec(s).0),
        s.queue.len() > 0 ==> release_spec(s).1 == Some(s.queue[0])
            && release_spec(s).0.owner == Some(s.queue[0])
            && release_spec(s).0.queue == s.queue.drop_first()
            && !release_spec(s).0.queue.contains(s.queue[0]),
        s.queue.len() == 0 ==> release_spec(s).1 is None && release_spec(s).0 == free_lock(),
{
    if s.queue.len() > 0 {
        let r = release_spec(s).0;
        assert(!r.queue.contains(s.queue[0])) by {
            if r.queue.contains(s.queue[0]) {
                let k = choose|k: int| 0 <= k < r.queue.len() && r.queue[k] == s.queue[0];
                assert(s.queue[k + 1] == s.queue[0]);
            }
        }
        assert(r.queue.no_duplicates()) by {
            assert forall|i: int, j: int| 0 <= i < r.queue.len() && 0 <= j < r.queue.len() && i != j
                implies r.queue[i] != r.queue[j] by {
                assert(r.queue[i] == s.queue[i + 1]);
                assert(r.queue[j] == s.queue[j + 1]);
            }
        }
    } else {
        assert(release_spec(s).0.queue =~= Seq::<TaskId>::empty());
    }
}

/// One guard per holding: once the holder has its guard, from an
/// acquisition or a claim, no claim by any task gives another one.
pub proof fn lemma_one_guard(s: LockState, a: TaskId, b: TaskId)
    requires
        lock_wf(s),
    ensures
        claim_spec(s, a).1 ==> !claim_spec(claim_spec(s, a).0, b).1,
        poll_spec(s, a).1 ==> !claim_spec(poll_spec(s, a).0, b).1,
        lock_spec(s, a).1 ==> !claim_spec(lock_spec(s, a).0, b).1,
{
}

} // verus!
