use vstd::prelude::*;

use crate::error::Error;
use crate::select::Poll;
use crate::sleep::GenericSleep;
use crate::event::{
    notify_spec, register_spec, registered, tasks_of, unique_tasks, Event, TaskId, Waiter,
};

verus! {

/// The state of a broadcast: the latest value, the number of values
/// published after the first, which identifies the latest value, and the
/// tasks waiting for the next publish.
pub ghost struct BroadcastState<T> {
    pub value: T,
    pub version: nat,
    pub waiters: Seq<Waiter>,
}

/// Publishing replaces the value, gives it a fresh identity and notifies
/// every waiter. Earlier values are not kept.
pub open spec fn publish_spec<T>(s: BroadcastState<T>, value: T) -> BroadcastState<T> {
    BroadcastState { value, version: s.version + 1, waiters: notify_spec(s.waiters) }
}

/// A listener whose cursor is `seen` reads the value once per identity:
/// the latest value if it has not seen it, else nothing.
pub open spec fn next_spec<T>(seen: Option<nat>, s: BroadcastState<T>) -> (Option<nat>, Option<T>) {
    if seen == Some(s.version) {
        (seen, None)
    } else {
        (Some(s.version), Some(s.value))
    }
}

/// The value that a read handed out, if any.
pub open spec fn read_of<T>(r: Option<&T>) -> Option<T> {
    match r {
        Some(x) => Some(*x),
        None => None,
    }
}

/// A cursor never points past the latest value of its broadcast.
pub open spec fn cursor_valid<T>(seen: Option<nat>, s: BroadcastState<T>) -> bool {
    seen matches Some(v) ==> v <= s.version
}

/// A source of values that notifies its listeners of each new value. It
/// owns the handle of the native lock that guards it.
pub struct Broadcast<T> {
    native: u64,
    data: T,
    version: u64,
    event: Event,
    key: Ghost<int>,
}

/// A cursor over the values of a [`Broadcast`]: it remembers the identity
/// of the last value it read.
pub struct BroadcastListener {
    seen: Option<u64>,
    source: Ghost<int>,
}

impl BroadcastListener {
    /// The identity of the broadcast this listener reads.
    pub closed spec fn source(&self) -> int {
        self.source@
    }

    /// The identity of the last value read, if any.
    pub closed spec fn cursor(&self) -> Option<nat> {
        match self.seen {
            Some(v) => Some(v as nat),
            None => None,
        }
    }

    fn new(seen: Option<u64>, source: Ghost<int>) -> (r: BroadcastListener)
        ensures
            r.seen == seen,
            r.source == source,
    {
        BroadcastListener { seen, source }
    }

    /// Reads the latest value of `source` if this listener has not read it
    /// yet. Values published and replaced between two reads are skipped.
    pub fn next_value<'b, T>(&mut self, source: &'b Broadcast<T>) -> (r: Option<&'b T>)
        requires
            old(self).source() == source.key(),
        ensures
            (final(self).cursor(), read_of(r)) == next_spec(old(self).cursor(), source.state()),
            final(self).cursor() == Some(source.state().version),
            final(self).source() == old(self).source(),
    {
        Self::next_value_impl(&mut self.seen, source)
    }

    fn next_value_impl<'b, T>(seen: &mut Option<u64>, source: &'b Broadcast<T>) -> (r: Option<&'b T>)
        ensures
            *final(seen) == Some(source.version) || *final(seen) == *old(seen),
            *old(seen) == Some(source.version) ==> r is None && *final(seen) == *old(seen),
            *old(seen) != Some(source.version) ==> r == Some(&source.data) && *final(seen) == Some(
                source.version,
            ),
    {
        if *seen == Some(source.version) {
            None
        } else {
            *seen = Some(source.version);
            Some(&source.data)
        }
    }

    /// The listener as one candidate of a select, on behalf of `task`: the
    /// latest value if unread; otherwise `None`, and `task` is registered
    /// to be woken by the next publish.
    pub fn select<'b, T>(&mut self, source: &'b mut Broadcast<T>, task: TaskId) -> (r: Option<&'b T>)
        requires
            old(source).wf(),
            old(self).source() == old(source).key(),
        ensures
            final(source).wf(),
            final(source).key() == old(source).key(),
            final(source).handle() == old(source).handle(),
            final(self).source() == old(self).source(),
            final(self).cursor() == Some(old(source).state().version),
            (final(self).cursor(), read_of(r)) == next_spec(
                old(self).cursor(),
                old(source).state(),
            ),
            r is Some ==> final(source).state() == old(source).state(),
            r is None ==> final(source).state() == (BroadcastState {
                waiters: register_spec(old(source).state().waiters, task),
                ..old(source).state()
            }),
    {
        if self.seen == Some(source.version) {
            source.event.register(task);
            None
        } else {
            self.seen = Some(source.version);
            Some(&source.data)
        }
    }
}

impl BroadcastListener {
    /// Whether the latest value of `source` is unread, without reading it.
    pub fn is_ready<T>(&self, source: &Broadcast<T>) -> (r: bool)
        requires
            self.source() == source.key(),
        ensures
            r == (self.cursor() != Some(source.state().version)),
            r == next_spec(self.cursor(), source.state()).1 is Some,
    {
        self.seen != Some(source.version)
    }

    /// The listener as one candidate of a select, on behalf of `task`: ready
    /// when the latest value of `source` is unread, which it then counts as
    /// read (the value is `source.value()`); otherwise `task` is registered
    /// and the candidate waits for a notification with no deadline.
    pub fn poll_select<T>(&mut self, source: &mut Broadcast<T>, task: TaskId) -> (r: Poll)
        requires
            old(source).wf(),
            old(self).source() == old(source).key(),
        ensures
            final(source).wf(),
            final(source).key() == old(source).key(),
            final(source).handle() == old(source).handle(),
            final(self).source() == old(self).source(),
            final(self).cursor() == Some(old(source).state().version),
            final(source).state().value == old(source).state().value,
            final(source).state().version == old(source).state().version,
            r == (if next_spec(old(self).cursor(), old(source).state()).1 is Some {
                Poll::Ready
            } else {
                Poll::Pending(GenericSleep::NotifyTake(None))
            }),
            r is Ready ==> final(source).state() == old(source).state(),
            !(r is Ready) ==> final(source).state() == (BroadcastState {
                waiters: register_spec(old(source).state().waiters, task),
                ..old(source).state()
            }),
    {
        match self.select(source, task) {
            Some(_) => Poll::Ready,
            None => Poll::Pending(GenericSleep::NotifyTake(None)),
        }
    }
}

impl<T> Broadcast<T> {
    /// The identity of this broadcast, shared with its listeners alone.
    pub closed spec fn key(&self) -> int {
        self.key@
    }

    /// The state of the broadcast.
    pub closed spec fn state(&self) -> BroadcastState<T> {
        BroadcastState { value: self.data, version: self.version as nat, waiters: self.event@ }
    }

    /// The handle of the native lock.
    pub closed spec fn handle(&self) -> u64 {
        self.native
    }

    pub closed spec fn wf(&self) -> bool {
        self.event.wf() && self.native != 0
    }

    /// A broadcast of `data` guarded by the native lock `native`, which the
    /// operating system allocated; a null handle (zero) means that it could
    /// not, and gives a resource-exhaustion error.
    pub fn try_new(data: T, native: u64) -> (r: Result<Broadcast<T>, Error>)
        ensures
            native == 0 <==> r == Err::<Broadcast<T>, Error>(Error::ResourceExhausted),
            native != 0 <==> r is Ok,
            r matches Ok(b) ==> b.wf() && b.handle() == native && b.state() == (BroadcastState {
                value: data,
                version: 0,
                waiters: Seq::empty(),
            }),
    {
        if native == 0 {
            Err(Error::ResourceExhausted)
        } else {
            let ghost key: int = arbitrary();
            Ok(Broadcast { native, data, version: 0, event: Event::new(), key: Ghost(key) })
        }
    }

    /// A broadcast of `data` guarded by the native lock `native`, which must
    /// not be null.
    pub fn new(data: T, native: u64) -> (r: Broadcast<T>)
        requires
            native != 0,
        ensures
            r.wf(),
            r.handle() == native,
            r.state() == (BroadcastState { value: data, version: 0, waiters: Seq::empty() }),
    {
        let ghost key: int = arbitrary();
        Broadcast { native, data, version: 0, event: Event::new(), key: Ghost(key) }
    }

    /// The latest published value.
    pub fn value(&self) -> (r: &T)
        ensures
            *r == self.state().value,
    {
        &self.data
    }

    /// The identity of the latest value.
    pub fn version(&self) -> (r: u64)
        ensures
            r == self.state().version,
    {
        self.version
    }

    /// A new listener that has read nothing yet: its first read gives the
    /// value current at that time.
    pub fn listen(&self) -> (r: BroadcastListener)
        ensures
            r.cursor() is None,
            r.source() == self.key(),
    {
        BroadcastListener::new(None, self.key)
    }

    /// Publishes `data` in place of the current value and returns the tasks
    /// to wake: every registered waiter.
    pub fn publish(&mut self, data: T) -> (woken: Vec<TaskId>)
        requires
            old(self).wf(),
            old(self).state().version < u64::MAX,
        ensures
            final(self).wf(),
            final(self).handle() == old(self).handle(),
            final(self).key() == old(self).key(),
            final(self).state() == publish_spec(old(self).state(), data),
            woken@ == tasks_of(old(self).state().waiters),
    {
        self.data = data;
        self.version = self.version + 1;
        self.event.notify()
    }

    /// Withdraws `task` from the waiters, for a select that ended through
    /// another candidate.
    pub fn unregister(&mut self, task: TaskId)
        requires
            old(self).wf(),
        ensures
            final(self).wf(),
            final(self).handle() == old(self).handle(),
            final(self).key() == old(self).key(),
            final(self).state() == (BroadcastState {
                waiters: crate::event::unregister_spec(old(self).state().waiters, task),
                ..old(self).state()
            }),
    {
        self.event.unregister(task)
    }

    /// Takes the pending notification of `task`: whether a publish came
    /// after it registered and since it last took one.
    pub fn notified(&mut self, task: TaskId) -> (r: bool)
        requires
            old(self).wf(),
        ensures
            final(self).wf(),
            final(self).handle() == old(self).handle(),
            final(self).key() == old(self).key(),
            r == crate::event::pending(old(self).state().waiters, task),
            final(self).state() == (BroadcastState {
                waiters: crate::event::take_spec(old(self).state().waiters, task),
                ..old(self).state()
            }),
    {
        self.event.take(task)
    }
}

/// Latest value only: after any run of publishes, a listener's next read
/// gives the last value published, and the read right after it gives
/// nothing.
pub proof fn lemma_latest_only<T>(seen: Option<nat>, s: BroadcastState<T>, values: Seq<T>)
    requires
        cursor_valid(seen, s),
        values.len() > 0,
    ensures
        ({
            let after = publish_all(s, values);
            let (cur, first) = next_spec(seen, after);
            &&& first == Some(values.last())
            &&& next_spec(cur, after).1 is None
        }),
{
    lemma_publish_all(s, values);
}

/// The state after publishing each of `values` in turn.
pub open spec fn publish_all<T>(s: BroadcastState<T>, values: Seq<T>) -> BroadcastState<T>
    decreases values.len(),
{
    if values.len() == 0 {
        s
    } else {
        publish_spec(publish_all(s, values.drop_last()), values.last())
    }
}

proof fn lemma_publish_all<T>(s: BroadcastState<T>, values: Seq<T>)
    ensures
        publish_all(s, values).version == s.version + values.len(),
        values.len() > 0 ==> publish_all(s, values).value == values.last(),
    decreases values.len(),
{
    if values.len() > 0 {
        lemma_publish_all(s, values.drop_last());
    }
}

/// No missed wakeup: a listener that found nothing new and registered is
/// among the tasks that the next publish wakes, that publish leaves a
/// notification pending for it, and its next read gives the new value.
pub proof fn lemma_broadcast_wakes_listener<T>(seen: Option<nat>, s: BroadcastState<T>, task: TaskId, value: T)
    requires
        unique_tasks(s.waiters),
        next_spec(seen, s).1 is None,
    ensures
        ({
            let registered_state = BroadcastState { waiters: register_spec(s.waiters, task), ..s };
            let after = publish_spec(registered_state, value);
            &&& tasks_of(registered_state.waiters).contains(task)
            &&& crate::event::pending(after.waiters, task)
            &&& next_spec(seen, after).1 == Some(value)
        }),
{
    let ws2 = register_spec(s.waiters, task);
    let i = if registered(s.waiters, task) {
        choose|i: int| 0 <= i < s.waiters.len() && s.waiters[i].task == task
    } else {
        s.waiters.len() as int
    };
    assert(ws2[i].task == task);
    assert(tasks_of(ws2)[i] == task);
    assert(notify_spec(ws2)[i].task == task && notify_spec(ws2)[i].pending);
}

} // verus!
