use vstd::prelude::*;

use crate::select::Poll;
use crate::sleep::GenericSleep;
use crate::event::{unregister_spec, register_spec, registered, tasks_of, unique_tasks, Event, TaskId, Waiter};

verus! {

/// The state of a promise: pending, with the tasks waiting on it, or
/// resolved with its result.
pub ghost enum PromiseState<T> {
    Pending(Seq<Waiter>),
    Resolved(T),
}

/// Resolving a pending promise stores the value; a resolved promise keeps
/// its first value for good.
pub open spec fn resolve_spec<T>(s: PromiseState<T>, value: T) -> PromiseState<T> {
    match s {
        PromiseState::Pending(_) => PromiseState::Resolved(value),
        PromiseState::Resolved(x) => PromiseState::Resolved(x),
    }
}

/// The tasks that a resolution wakes: all those waiting, if it was pending.
pub open spec fn resolve_wakes<T>(s: PromiseState<T>) -> Seq<TaskId> {
    match s {
        PromiseState::Pending(ws) => tasks_of(ws),
        PromiseState::Resolved(_) => Seq::empty(),
    }
}

/// Polling for completion registers the task while the promise is pending.
pub open spec fn done_spec<T>(s: PromiseState<T>, task: TaskId) -> PromiseState<T> {
    match s {
        PromiseState::Pending(ws) => PromiseState::Pending(register_spec(ws, task)),
        PromiseState::Resolved(x) => PromiseState::Resolved(x),
    }
}

/// The result of a promise, if it is resolved.
pub open spec fn result_of<T>(s: PromiseState<T>) -> Option<T> {
    match s {
        PromiseState::Pending(_) => None,
        PromiseState::Resolved(x) => Some(x),
    }
}

/// The shared state of a promise: its event while incomplete, its result
/// once complete.
pub enum PromiseData<T> {
    Incomplete(Event),
    Complete(T),
}

impl<T> PromiseData<T> {
    /// The state this data stands for.
    pub open spec fn state(&self) -> PromiseState<T> {
        match self {
            PromiseData::Incomplete(e) => PromiseState::Pending(e@),
            PromiseData::Complete(x) => PromiseState::Resolved(*x),
        }
    }

    pub open spec fn wf(&self) -> bool {
        match self {
            PromiseData::Incomplete(e) => e.wf(),
            PromiseData::Complete(_) => true,
        }
    }

    /// The event of an incomplete promise.
    pub fn event(&self) -> (r: Option<&Event>)
        ensures
            r is Some <==> self is Incomplete,
            r matches Some(e) ==> *self == PromiseData::<T>::Incomplete(*e),
            r is Some <==> self.state() is Pending,
            r matches Some(e) ==> self.state() == PromiseState::<T>::Pending(e@),
    {
        match self {
            PromiseData::Incomplete(e) => Some(e),
            PromiseData::Complete(_) => None,
        }
    }

    /// The result of a complete promise.
    pub fn result(&self) -> (r: Option<&T>)
        ensures
            r is Some <==> self is Complete,
            r matches Some(x) ==> *self == PromiseData::Complete(*x),
            r matches Some(x) ==> result_of(self.state()) == Some(*x),
            r is None ==> result_of(self.state()) is None,
    {
        match self {
            PromiseData::Incomplete(_) => None,
            PromiseData::Complete(x) => Some(x),
        }
    }
}

/// The one-shot capability to resolve the [`Promise`] it was made with. It
/// cannot be copied, resolving consumes it, and it resolves no other promise.
pub struct Resolver {
    key: Ghost<int>,
}

impl Resolver {
    /// The identity of the promise this capability resolves.
    pub closed spec fn key(&self) -> int {
        self.key@
    }
}

/// An ongoing operation that produces one result.
pub struct Promise<T> {
    data: PromiseData<T>,
    key: Ghost<int>,
}

impl<T> Promise<T> {
    /// The identity of the promise, shared with its resolver alone.
    pub closed spec fn key(&self) -> int {
        self.key@
    }

    /// The state of the promise.
    pub closed spec fn state(&self) -> PromiseState<T> {
        self.data.state()
    }

    pub closed spec fn wf(&self) -> bool {
        self.data.wf()
    }

    /// A pending promise with nobody waiting, and the capability to resolve it.
    pub fn new() -> (r: (Promise<T>, Resolver))
        ensures
            r.0.wf(),
            r.0.state() == PromiseState::<T>::Pending(Seq::empty()),
            r.0.key() == r.1.key(),
    {
        let ghost key: int = arbitrary();
        (
            Promise { data: PromiseData::Incomplete(Event::new()), key: Ghost(key) },
            Resolver { key: Ghost(key) },
        )
    }

    /// Resolves the promise with `value`, consuming the capability, and
    /// returns the tasks to wake: every task that was waiting for it.
    pub fn resolve(&mut self, resolver: Resolver, value: T) -> (woken: Vec<TaskId>)
        requires
            old(self).wf(),
            resolver.key() == old(self).key(),
        ensures
            final(self).wf(),
            final(self).key() == old(self).key(),
            final(self).state() == resolve_spec(old(self).state(), value),
            woken@ == resolve_wakes(old(self).state()),
    {
        match &mut self.data {
            PromiseData::Incomplete(e) => {
                let woken = e.notify();
                self.data = PromiseData::Complete(value);
                woken
            },
            PromiseData::Complete(_) => Vec::new(),
        }
    }

    /// Polls for completion on behalf of `task`: the result once resolved;
    /// while pending, `None`, and `task` is registered to be woken by the
    /// resolution.
    pub fn done(&mut self, task: TaskId) -> (r: Option<&T>)
        requires
            old(self).wf(),
        ensures
            final(self).wf(),
            final(self).key() == old(self).key(),
            final(self).state() == done_spec(old(self).state(), task),
            r matches Some(x) ==> result_of(old(self).state()) == Some(*x),
            r is None ==> result_of(old(self).state()) is None,
    {
        match &mut self.data {
            PromiseData::Incomplete(e) => {
                e.register(task);
                None
            },
            PromiseData::Complete(x) => Some(x),
        }
    }

    /// Withdraws `task` from the waiters of a pending promise, for a select
    /// that ended through another candidate.
    pub fn unregister(&mut self, task: TaskId)
        requires
            old(self).wf(),
        ensures
            final(self).wf(),
            final(self).key() == old(self).key(),
            final(self).state() == (match old(self).state() {
                PromiseState::Pending(ws) => PromiseState::Pending(unregister_spec(ws, task)),
                PromiseState::Resolved(x) => PromiseState::Resolved(x),
            }),
    {
        match &mut self.data {
            PromiseData::Incomplete(e) => e.unregister(task),
            PromiseData::Complete(_) => {},
        }
    }

    /// The promise as one candidate of a select, on behalf of `task`: ready
    /// once resolved; while pending, `task` is registered and the candidate
    /// waits for a notification with no deadline.
    pub fn poll_done(&mut self, task: TaskId) -> (r: Poll)
        requires
            old(self).wf(),
        ensures
            final(self).wf(),
            final(self).key() == old(self).key(),
            final(self).state() == done_spec(old(self).state(), task),
            r == (if result_of(old(self).state()) is Some {
                Poll::Ready
            } else {
                Poll::Pending(GenericSleep::NotifyTake(None))
            }),
    {
        match self.done(task) {
            Some(_) => Poll::Ready,
            None => Poll::Pending(GenericSleep::NotifyTake(None)),
        }
    }

    /// The result, if the promise is resolved.
    pub fn result(&self) -> (r: Option<&T>)
        ensures
            r matches Some(x) ==> result_of(self.state()) == Some(*x),
            r is None ==> result_of(self.state()) is None,
    {
        self.data.result()
    }
}

/// At most one resolution: once a promise is resolved with `x`, further
/// resolutions and polls leave `x` as its result and wake nobody.
pub proof fn lemma_resolved_forever<T>(x: T, y: T, task: TaskId)
    ensures
        resolve_spec(PromiseState::Resolved(x), y) == PromiseState::<T>::Resolved(x),
        done_spec(PromiseState::Resolved(x), task) == PromiseState::<T>::Resolved(x),
        resolve_wakes(PromiseState::<T>::Resolved(x)).len() == 0,
        result_of(resolve_spec(PromiseState::Resolved(x), y)) == Some(x),
{
}

/// No missed wakeup: a task that polled a pending promise is among the tasks
/// that the resolution wakes, and its next poll sees the result.
pub proof fn lemma_promise_wakes_waiter<T>(ws: Seq<Waiter>, task: TaskId, value: T)
    requires
        unique_tasks(ws),
    ensures
        ({
            let polled = done_spec(PromiseState::<T>::Pending(ws), task);
            &&& resolve_wakes(polled).contains(task)
            &&& result_of(resolve_spec(polled, value)) == Some(value)
        }),
{
    let ws2 = register_spec(ws, task);
    if registered(ws, task) {
        let i = choose|i: int| 0 <= i < ws.len() && ws[i].task == task;
        assert(tasks_of(ws2)[i] == task);
    } else {
        assert(tasks_of(ws2)[ws.len() as int] == task);
    }
}

} // verus!
