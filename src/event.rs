use vstd::prelude::*;

verus! {

/// Identifier of a schedulable task of the host operating system.
pub type TaskId = u64;

/// One task registered against an [`Event`], with its pending notification.
#[derive(Clone, Copy, Debug, PartialEq, Eq, Structural)]
pub struct Waiter {
    pub task: TaskId,
    pub pending: bool,
}

/// Whether `task` is registered in the waiter sequence `s`.
pub open spec fn registered(s: Seq<Waiter>, task: TaskId) -> bool {
    exists|i: int| 0 <= i < s.len() && s[i].task == task
}

/// Whether `task` is registered in `s` with a notification not yet taken.
pub open spec fn pending(s: Seq<Waiter>, task: TaskId) -> bool {
    exists|i: int| 0 <= i < s.len() && s[i].task == task && s[i].pending
}

/// No task is registered twice.
pub open spec fn unique_tasks(s: Seq<Waiter>) -> bool {
    forall|i: int, j: int|
        0 <= i < s.len() && 0 <= j < s.len() && i != j ==> s[i].task != s[j].task
}

/// Registering adds the task with no notification pending, unless it is there.
pub open spec fn register_spec(s: Seq<Waiter>, task: TaskId) -> Seq<Waiter> {
    if registered(s, task) {
        s
    } else {
        s.push(Waiter { task, pending: false })
    }
}

/// Notifying marks every registered waiter, and nobody else.
pub open spec fn notify_spec(s: Seq<Waiter>) -> Seq<Waiter> {
    s.map_values(|w: Waiter| Waiter { task: w.task, pending: true })
}

/// Taking clears the task's pending notification; registrations stay.
pub open spec fn take_spec(s: Seq<Waiter>, task: TaskId) -> Seq<Waiter> {
    s.map_values(|w: Waiter| if w.task == task { Waiter { task, pending: false } } else { w })
}

/// The waiters of `s` other than `task`, in order.
pub open spec fn unregister_spec(s: Seq<Waiter>, task: TaskId) -> Seq<Waiter>
    decreases s.len(),
{
    if s.len() == 0 {
        s
    } else {
        let rest = unregister_spec(s.drop_last(), task);
        if s.last().task == task {
            rest
        } else {
            rest.push(s.last())
        }
    }
}

/// The tasks of `s`, in order of registration.
pub open spec fn tasks_of(s: Seq<Waiter>) -> Seq<TaskId> {
    s.map_values(|w: Waiter| w.task)
}

/// No missed wakeup: a notification that comes after a task registered is
/// seen by the task's next take, whatever other tasks register or take in
/// between; several notifications before one take count as one.
pub proof fn lemma_no_missed_wakeup(s: Seq<Waiter>, task: TaskId, other: TaskId)
    requires
        unique_tasks(s),
        other != task,
    ensures
        pending(notify_spec(register_spec(s, task)), task),
        pending(register_spec(notify_spec(register_spec(s, task)), other), task),
        pending(take_spec(notify_spec(register_spec(s, task)), other), task),
        !pending(take_spec(notify_spec(notify_spec(register_spec(s, task))), task), task),
{
    let r = register_spec(s, task);
    let i = if registered(s, task) {
        choose|i: int| 0 <= i < s.len() && s[i].task == task
    } else {
        s.len() as int
    };
    assert(r[i].task == task);
    let n = notify_spec(r);
    assert(n[i].task == task && n[i].pending);
    assert(register_spec(n, other)[i] == n[i]);
    assert(take_spec(n, other)[i] == n[i]);
    let t = take_spec(notify_spec(n), task);
    assert forall|j: int| 0 <= j < t.len() && t[j].task == task implies !t[j].pending by {}
}

/// The atomic notification primitive behind promises, broadcasts and contexts.
///
/// It holds the set of tasks waiting on it. A notification is remembered per
/// waiter until that waiter takes it, so a notification that comes after a
/// task registered and before its next poll is never lost. Notifications are
/// not counted: several of them before one take collapse into one.
pub struct Event {
    waiters: Vec<Waiter>,
}

impl View for Event {
    type V = Seq<Waiter>;

    closed spec fn view(&self) -> Seq<Waiter> {
        self.waiters@
    }
}

impl Event {
    pub open spec fn wf(&self) -> bool {
        unique_tasks(self@)
    }

    /// An event with no waiters and no notification pending.
    pub fn new() -> (r: Event)
        ensures
            r.wf(),
            r@ == Seq::<Waiter>::empty(),
    {
        Event { waiters: Vec::new() }
    }

    /// Whether `task` is registered.
    pub fn is_registered(&self, task: TaskId) -> (r: bool)
        ensures
            r == registered(self@, task),
    {
        let mut i: usize = 0;
        while i < self.waiters.len()
            invariant
                0 <= i <= self.waiters@.len(),
                forall|j: int| 0 <= j < i ==> self.waiters@[j].task != task,
            decreases self.waiters@.len() - i,
        {
            if self.waiters[i].task == task {
                return true;
            }
            i = i + 1;
        }
        false
    }

    /// Registers `task` as a waiter of this event.
    pub fn register(&mut self, task: TaskId)
        requires
            old(self).wf(),
        ensures
            final(self).wf(),
            final(self)@ == register_spec(old(self)@, task),
    {
        if !self.is_registered(task) {
            self.waiters.push(Waiter { task, pending: false });
        }
    }

    /// Removes `task` from the waiters, with its pending notification.
    pub fn unregister(&mut self, task: TaskId)
        requires
            old(self).wf(),
        ensures
            final(self).wf(),
            final(self)@ == unregister_spec(old(self)@, task),
            !registered(final(self)@, task),
    {
        let ghost s = self@;
        let mut kept: Vec<Waiter> = Vec::new();
        let mut i: usize = 0;
        while i < self.waiters.len()
            invariant
                self@ == s,
                unique_tasks(s),
                0 <= i <= s.len(),
                kept@ == unregister_spec(s.take(i as int), task),
                unique_tasks(kept@),
                forall|k: int| 0 <= k < kept@.len() ==> kept@[k].task != task,
                forall|k: int| 0 <= k < kept@.len() ==>
                    exists|j: int| 0 <= j < i && #[trigger] s[j] == #[trigger] kept@[k],
            decreases s.len() - i,
        {
            assert(s.take(i as int + 1).drop_last() =~= s.take(i as int));
            let w = self.waiters[i];
            if w.task != task {
                assert forall|k: int| 0 <= k < kept@.len() implies kept@[k].task != w.task by {
                    let j = choose|j: int| 0 <= j < i && s[j] == kept@[k];
                    assert(s[j].task != s[i as int].task);
                }
                kept.push(w);
                assert forall|k: int| 0 <= k < kept@.len() implies
                    exists|j: int| 0 <= j < i + 1 && #[trigger] s[j] == #[trigger] kept@[k] by {
                    if k == kept@.len() - 1 {
                        assert(s[i as int] == kept@[k]);
                    } else {
                        let j = choose|j: int| 0 <= j < i && s[j] == kept@[k];
                        assert(s[j] == kept@[k]);
                    }
                }
            }
            i = i + 1;
        }
        assert(s.take(s.len() as int) =~= s);
        self.waiters = kept;
    }

    /// Notifies every registered waiter and returns their tasks, each once,
    /// in order of registration. The caller wakes those tasks.
    pub fn notify(&mut self) -> (woken: Vec<TaskId>)
        requires
            old(self).wf(),
        ensures
            final(self).wf(),
            final(self)@ == notify_spec(old(self)@),
            woken@ == tasks_of(old(self)@),
    {
        let ghost s = self@;
        let mut woken: Vec<TaskId> = Vec::new();
        let mut i: usize = 0;
        while i < self.waiters.len()
            invariant
                s.len() == self@.len(),
                0 <= i <= s.len(),
                forall|j: int| 0 <= j < i ==> self@[j] == notify_spec(s)[j],
                forall|j: int| i <= j < s.len() ==> self@[j] == s[j],
                woken@ == tasks_of(s).take(i as int),
            decreases s.len() - i,
        {
            let t = self.waiters[i].task;
            self.waiters.set(i, Waiter { task: t, pending: true });
            woken.push(t);
            assert(tasks_of(s).take(i as int + 1) =~= tasks_of(s).take(i as int).push(t));
            i = i + 1;
        }
        assert(self@ =~= notify_spec(s));
        assert(tasks_of(s).take(s.len() as int) =~= tasks_of(s));
        woken
    }

    /// Takes the pending notification of `task`: returns whether there was
    /// one, and clears it. The task stays registered.
    pub fn take(&mut self, task: TaskId) -> (r: bool)
        requires
            old(self).wf(),
        ensures
            final(self).wf(),
            r == pending(old(self)@, task),
            final(self)@ == take_spec(old(self)@, task),
    {
        let ghost s = self@;
        let mut found = false;
        let mut i: usize = 0;
        while i < self.waiters.len()
            invariant
                s.len() == self@.len(),
                0 <= i <= s.len(),
                forall|j: int| 0 <= j < i ==> self@[j] == take_spec(s, task)[j],
                forall|j: int| i <= j < s.len() ==> self@[j] == s[j],
                found == exists|j: int| 0 <= j < i && s[j].task == task && s[j].pending,
            decreases s.len() - i,
        {
            let w = self.waiters[i];
            assert(s[i as int] == w);
            if w.task == task {
                if w.pending {
                    found = true;
                }
                self.waiters.set(i, Waiter { task, pending: false });
            }
            i = i + 1;
        }
        assert(self@ =~= take_spec(s, task));
        found
    }
}

} // verus!
