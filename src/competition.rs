use vstd::prelude::*;

use crate::event::{register_spec, Event, TaskId, Waiter};
use crate::select::Poll;
use crate::sleep::GenericSleep;

verus! {

/// A cancellation-capable handle given to a running phase task. Its `done`
/// condition is one more candidate of a select.
pub struct Context {
    cancelled: bool,
    event: Event,
}

impl Context {
    /// Whether the context was cancelled.
    pub closed spec fn is_cancelled(&self) -> bool {
        self.cancelled
    }

    /// The tasks waiting for cancellation.
    pub closed spec fn waiters(&self) -> Seq<Waiter> {
        self.event@
    }

    pub closed spec fn wf(&self) -> bool {
        self.event.wf()
    }

    /// A context that is not cancelled.
    pub fn new() -> (r: Context)
        ensures
            r.wf(),
            !r.is_cancelled(),
            r.waiters() == Seq::<Waiter>::empty(),
    {
        Context { cancelled: false, event: Event::new() }
    }

    /// Cancels the context and returns the tasks to wake: every task that
    /// waits for it.
    pub fn cancel(&mut self) -> (woken: Vec<TaskId>)
        requires
            old(self).wf(),
        ensures
            final(self).wf(),
            final(self).is_cancelled(),
            final(self).waiters() == crate::event::notify_spec(old(self).waiters()),
            woken@ == crate::event::tasks_of(old(self).waiters()),
    {
        self.cancelled = true;
        self.event.notify()
    }

    /// Withdraws `task` from the tasks waiting for cancellation, for a
    /// select that ended through another candidate.
    pub fn unregister(&mut self, task: TaskId)
        requires
            old(self).wf(),
        ensures
            final(self).wf(),
            final(self).is_cancelled() == old(self).is_cancelled(),
            final(self).waiters() == crate::event::unregister_spec(old(self).waiters(), task),
    {
        self.event.unregister(task)
    }

    /// Polls for cancellation on behalf of `task`: true once cancelled;
    /// otherwise false, and `task` is registered to be woken by the cancel.
    pub fn done(&mut self, task: TaskId) -> (r: bool)
        requires
            old(self).wf(),
        ensures
            final(self).wf(),
            r == old(self).is_cancelled(),
            final(self).is_cancelled() == old(self).is_cancelled(),
            r ==> final(self).waiters() == old(self).waiters(),
            !r ==> final(self).waiters() == register_spec(old(self).waiters(), task),
    {
        if self.cancelled {
            true
        } else {
            self.event.register(task);
            false
        }
    }
}

impl Context {
    /// The context as one candidate of a select, on behalf of `task`: ready
    /// once cancelled; otherwise `task` is registered and the candidate
    /// waits for a notification with no deadline.
    pub fn poll_done(&mut self, task: TaskId) -> (r: Poll)
        requires
            old(self).wf(),
        ensures
            final(self).wf(),
            final(self).is_cancelled() == old(self).is_cancelled(),
            r == (if old(self).is_cancelled() {
                Poll::Ready
            } else {
                Poll::Pending(GenericSleep::NotifyTake(None))
            }),
            r is Ready ==> final(self).waiters() == old(self).waiters(),
            !(r is Ready) ==> final(self).waiters() == register_spec(old(self).waiters(), task),
    {
        if self.done(task) {
            Poll::Ready
        } else {
            Poll::Pending(GenericSleep::NotifyTake(None))
        }
    }
}

/// A phase of the competition lifecycle.
#[derive(Clone, Copy, Debug, PartialEq, Eq, Structural)]
pub enum Phase {
    Initialize,
    Disabled,
    Autonomous,
    OpControl,
}

/// Where the phase tasks stand.
#[derive(Clone, Copy, Debug, PartialEq, Eq, Structural)]
pub enum Stage {
    /// No phase task is live.
    Idle,
    /// The task of this phase is live.
    Running(Phase),
    /// The task of the first phase was cancelled and has not exited yet;
    /// the second phase starts once it has.
    Stopping(Phase, Phase),
}

/// What the host does after a transition.
#[derive(Clone, Copy, Debug, PartialEq, Eq, Structural)]
pub enum Action {
    /// Spawn the task of this phase, bound to a fresh context.
    Start(Phase),
    /// Spawn the task of this phase bound to a context that is cancelled
    /// already, because a later signal superseded the phase, and report
    /// when the task has exited.
    StartCancelled(Phase),
    /// Cancel the context of the live task of this phase, and report when
    /// the task has exited.
    Cancel(Phase),
    /// Nothing.
    Nothing,
}

/// The state of the competition machine: where the phase tasks stand,
/// whether initialization has come, and the phases signalled during a
/// transition, which start in turn after the one the stage names.
pub ghost struct MachineState {
    pub stage: Stage,
    pub initialized: bool,
    pub waiting: Seq<Phase>,
}

/// The number of live phase tasks in a stage.
pub open spec fn live(s: Stage) -> nat {
    match s {
        Stage::Idle => 0,
        _ => 1,
    }
}

/// Phases wait only behind a transition in progress.
pub open spec fn machine_wf(s: MachineState) -> bool {
    s.waiting.len() > 0 ==> s.stage is Stopping
}

/// The phases still to start, in the order they were signalled.
pub open spec fn to_start(s: MachineState) -> Seq<Phase> {
    match s.stage {
        Stage::Stopping(_, n) => seq![n] + s.waiting,
        _ => Seq::empty(),
    }
}

/// An external phase-entry signal. Initialization comes once, before any
/// other phase: a repeated one, or another phase before it, is ignored.
/// Otherwise the live task is cancelled and the new phase starts once it
/// has exited; during a transition the phase waits its turn behind the
/// phases signalled before it.
pub open spec fn signal_spec(s: MachineState, p: Phase) -> (MachineState, Action) {
    if (p == Phase::Initialize) == s.initialized {
        (s, Action::Nothing)
    } else {
        match s.stage {
            Stage::Idle => (
                MachineState { stage: Stage::Running(p), initialized: true, waiting: s.waiting },
                Action::Start(p),
            ),
            Stage::Running(q) => (
                MachineState { stage: Stage::Stopping(q, p), initialized: true, waiting: s.waiting },
                Action::Cancel(q),
            ),
            Stage::Stopping(_, _) => (
                MachineState { stage: s.stage, initialized: true, waiting: s.waiting.push(p) },
                Action::Nothing,
            ),
        }
    }
}

/// The live phase task has exited: the next phase starts, with a cancelled
/// context when another phase waits behind it.
pub open spec fn exited_spec(s: MachineState) -> (MachineState, Action) {
    match s.stage {
        Stage::Idle => (s, Action::Nothing),
        Stage::Running(_) => (MachineState { stage: Stage::Idle, ..s }, Action::Nothing),
        Stage::Stopping(_, n) => if s.waiting.len() == 0 {
            (MachineState { stage: Stage::Running(n), ..s }, Action::Start(n))
        } else {
            (
                MachineState {
                    stage: Stage::Stopping(n, s.waiting[0]),
                    initialized: s.initialized,
                    waiting: s.waiting.drop_first(),
                },
                Action::StartCancelled(n),
            )
        },
    }
}

/// The competition lifecycle: which phase task is live, and which ones
/// start next.
pub struct Competition {
    stage: Stage,
    initialized: bool,
    waiting: Vec<Phase>,
}

impl Competition {
    /// The state of the machine.
    pub closed spec fn state(&self) -> MachineState {
        MachineState { stage: self.stage, initialized: self.initialized, waiting: self.waiting@ }
    }

    /// A machine before initialization, with no task live.
    pub fn new() -> (r: Competition)
        ensures
            machine_wf(r.state()),
            r.state() == (MachineState {
                stage: Stage::Idle,
                initialized: false,
                waiting: Seq::empty(),
            }),
    {
        Competition { stage: Stage::Idle, initialized: false, waiting: Vec::new() }
    }

    /// Where the phase tasks stand.
    pub fn stage(&self) -> (r: Stage)
        ensures
            r == self.state().stage,
    {
        self.stage
    }

    /// Handles the entry signal of phase `p`.
    pub fn signal(&mut self, p: Phase) -> (r: Action)
        requires
            machine_wf(old(self).state()),
        ensures
            machine_wf(final(self).state()),
            (final(self).state(), r) == signal_spec(old(self).state(), p),
    {
        if (p == Phase::Initialize) == self.initialized {
            return Action::Nothing;
        }
        self.initialized = true;
        match self.stage {
            Stage::Idle => {
                self.stage = Stage::Running(p);
                Action::Start(p)
            },
            Stage::Running(q) => {
                self.stage = Stage::Stopping(q, p);
                Action::Cancel(q)
            },
            Stage::Stopping(_, _) => {
                self.waiting.push(p);
                Action::Nothing
            },
        }
    }

    /// Handles the exit of the live phase task.
    pub fn exited(&mut self) -> (r: Action)
        requires
            machine_wf(old(self).state()),
        ensures
            machine_wf(final(self).state()),
            (final(self).state(), r) == exited_spec(old(self).state()),
    {
        match self.stage {
            Stage::Idle => Action::Nothing,
            Stage::Running(_) => {
                self.stage = Stage::Idle;
                Action::Nothing
            },
            Stage::Stopping(_, n) => {
                if self.waiting.len() == 0 {
                    self.stage = Stage::Running(n);
                    Action::Start(n)
                } else {
                    let ghost w = self.waiting@;
                    let next = self.waiting.remove(0);
                    assert(self.waiting@ =~= w.drop_first());
                    self.stage = Stage::Stopping(n, next);
                    Action::StartCancelled(n)
                }
            },
        }
    }
}

/// One input of the machine: a phase signal, or the exit of the live task.
pub ghost enum MachineEvent {
    Signal(Phase),
    Exited,
}

/// One step of the machine.
pub open spec fn step_spec(s: MachineState, e: MachineEvent) -> (MachineState, Action) {
    match e {
        MachineEvent::Signal(p) => signal_spec(s, p),
        MachineEvent::Exited => exited_spec(s),
    }
}

/// The state after the events of `es` in turn.
pub open spec fn run_spec(s: MachineState, es: Seq<MachineEvent>) -> MachineState
    decreases es.len(),
{
    if es.len() == 0 {
        s
    } else {
        step_spec(run_spec(s, es.drop_last()), es.last()).0
    }
}

/// The phase whose task an action spawns, if any.
pub open spec fn started(a: Action) -> Option<Phase> {
    match a {
        Action::Start(p) => Some(p),
        Action::StartCancelled(p) => Some(p),
        _ => None,
    }
}

/// Serialization: a phase task starts only when no other one is live: on a
/// signal when no task is live, or when the live task has just exited.
/// A started task is the live one. Every accepted signal has its phase started in turn: no phase is
/// dropped, and the order of the signals is kept.
pub proof fn lemma_serialized(s: MachineState, e: MachineEvent)
    requires
        machine_wf(s),
    ensures
        ({
            let (t, a) = step_spec(s, e);
            &&& machine_wf(t)
            &&& a matches Action::Start(p) ==> t.stage == Stage::Running(p)
            &&& a is StartCancelled ==> t.stage is Stopping && t.stage->Stopping_0 == a->StartCancelled_0
            &&& (a is Start && e is Signal) ==> live(s.stage) == 0
            &&& (a is StartCancelled ==> e is Exited)
            &&& ((a is Start || a is StartCancelled) && e is Exited) ==> s.stage is Stopping
            &&& (e is Signal && s.stage is Stopping && (e->Signal_0 == Phase::Initialize)
                != s.initialized) ==> to_start(t) == to_start(s).push(e->Signal_0)
            &&& (e is Exited && s.stage is Stopping) ==> started(a) is Some && to_start(s) == seq![
                started(a)->0,
            ] + to_start(t)
        }),
{
    let (t, a) = step_spec(s, e);
    if e is Exited && s.stage is Stopping && s.waiting.len() > 0 {
        assert(to_start(s) =~= seq![to_start(s)[0]] + to_start(t));
    }
    if let MachineEvent::Signal(p) = e {
        if s.stage is Stopping && (p == Phase::Initialize) != s.initialized {
            assert(to_start(t) =~= to_start(s).push(p));
        }
    }
}

/// Initialization comes first and once: from a fresh machine, whatever the
/// events, no phase but initialization starts before it has, and it never
/// starts again.
pub proof fn lemma_initialize_first(es: Seq<MachineEvent>, p: Phase)
    requires
        ({
            let s = run_spec(
                MachineState { stage: Stage::Idle, initialized: false, waiting: Seq::empty() },
                es,
            );
            step_spec(s, MachineEvent::Signal(p)).1 is Start
        }),
    ensures
        (p == Phase::Initialize) <==> !run_spec(
            MachineState { stage: Stage::Idle, initialized: false, waiting: Seq::empty() },
            es,
        ).initialized,
{
}

} // verus!
