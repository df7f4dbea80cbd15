//! The runtime that races the hosted task against the stop request.
//!
//! The runtime is a state machine. Its caller owns the scheduler: it performs
//! the actions that a step returns (start the task, arm a timer, abort
//! something) and reports back what happened as the next event, together with
//! the time at which it saw it. All the decisions are taken here.
use vstd::prelude::*;
use crate::error::StartupError;
use crate::stop_signal::{StopSignal, StopView};

verus! {

/// How the hosted task ended.
#[derive(Clone, Copy, Debug, PartialEq, Eq, Structural)]
pub enum TaskOutcome {
    /// The task returned normally.
    Success,
    /// The task returned an error or panicked.
    Failure,
}

/// How a run ended.
#[derive(Clone, Copy, Debug, PartialEq, Eq, Structural)]
pub enum Terminal {
    /// The task ended by itself, before any stop request was seen.
    Completed(TaskOutcome),
    /// A stop was requested and the task ended within the grace period.
    Graceful(TaskOutcome),
    /// A stop was requested and the task was aborted when the grace period
    /// had run out: it did not stop cooperatively.
    Forced,
}

/// Where a run stands.
#[derive(Clone, Copy, Debug, PartialEq, Eq, Structural)]
pub enum Phase {
    /// Nothing has been started.
    Idle,
    /// The task and the signal listener run; no stop request has been seen.
    Racing,
    /// A stop request was seen at `since_ms`; the task has the grace period
    /// to end.
    Escalating { since_ms: u64 },
    /// The run is over.
    Stopped(Terminal),
}

/// What the caller reports to the runtime.
#[derive(Clone, Copy, Debug, PartialEq, Eq, Structural)]
pub enum RuntimeEvent {
    /// The hosted task has ended.
    MainCompleted(TaskOutcome),
    /// The wait on the stop signal has returned.
    StopObserved,
    /// The grace timer has fired.
    GraceTimerFired,
}

/// An event and the time, in milliseconds, at which the caller saw it.
#[derive(Clone, Copy, Debug, PartialEq, Eq, Structural)]
pub struct TimedEvent {
    pub event: RuntimeEvent,
    pub at_ms: u64,
}

/// A point in the life of a run that is worth a line in a log.
#[derive(Clone, Copy, Debug, PartialEq, Eq, Structural)]
pub enum Lifecycle {
    Started,
    StopRequested,
    TaskCompleted,
    TaskFailed,
    GracefulStop,
    ForcedStop,
}

/// What the caller has to do after a step, in this order.
#[derive(Clone, Copy, Debug, PartialEq, Eq, Structural)]
pub enum RuntimeAction {
    /// Start the hosted task.
    SpawnMain,
    /// Start the signal listener.
    SpawnListener,
    /// Arm the grace timer to fire after this many milliseconds.
    ArmGraceTimer(u64),
    /// Abort the hosted task at once.
    AbortMain,
    /// Abort the signal listener.
    AbortListener,
    /// Record the lifecycle event.
    Emit(Lifecycle),
}

/// The mathematical state of a runtime.
pub struct RuntimeState {
    /// The grace period, in milliseconds.
    pub grace_ms: u64,
    /// Where the run stands.
    pub phase: Phase,
}

/// A runtime, the stop signal it shares, and everything that its steps have
/// handed to the caller so far.
pub struct Trace {
    pub state: RuntimeState,
    pub stop: StopView,
    /// The actions, oldest first.
    pub actions: Seq<RuntimeAction>,
    /// The waiters to release, oldest first.
    pub woken: Seq<u64>,
}

/// The grace period that a runtime has unless it is given another.
pub const DEFAULT_GRACE_MS: u64 = 16_000;

/// The time that has passed at `now_ms` since `since_ms`; none, where the
/// clock went backwards.
pub open spec fn elapsed(since_ms: u64, now_ms: u64) -> int {
    if now_ms >= since_ms {
        now_ms - since_ms
    } else {
        0
    }
}

/// The lifecycle event that records the task's end.
pub open spec fn task_end(outcome: TaskOutcome) -> Lifecycle {
    match outcome {
        TaskOutcome::Success => Lifecycle::TaskCompleted,
        TaskOutcome::Failure => Lifecycle::TaskFailed,
    }
}

/// The actions of a forced stop.
pub open spec fn forced_actions() -> Seq<RuntimeAction> {
    seq![
        RuntimeAction::Emit(Lifecycle::ForcedStop),
        RuntimeAction::AbortMain,
        RuntimeAction::AbortListener,
    ]
}

impl RuntimeState {
    /// How far the run has come: a step never lowers this number.
    pub open spec fn rank(self) -> nat {
        match self.phase {
            Phase::Idle => 0,
            Phase::Racing => 1,
            Phase::Escalating { .. } => 2,
            Phase::Stopped(_) => 3,
        }
    }

    /// Whether `launch` is refused: nothing has been started yet, and the
    /// handlers for the process signals could not be installed.
    pub open spec fn launch_refused(self, signals_installed: bool) -> bool {
        self.phase is Idle && !signals_installed
    }

    /// Whether `launch` starts the run.
    pub open spec fn launches(self, signals_installed: bool) -> bool {
        self.phase is Idle && signals_installed
    }

    /// The state after `launch`.
    pub open spec fn launch(self, signals_installed: bool) -> RuntimeState {
        if self.launches(signals_installed) {
            RuntimeState { grace_ms: self.grace_ms, phase: Phase::Racing }
        } else {
            self
        }
    }

    /// The actions that `launch` returns.
    pub open spec fn launch_actions(self, signals_installed: bool) -> Seq<RuntimeAction> {
        if self.launches(signals_installed) {
            seq![
                RuntimeAction::Emit(Lifecycle::Started),
                RuntimeAction::SpawnMain,
                RuntimeAction::SpawnListener,
            ]
        } else {
            Seq::empty()
        }
    }

    /// The phase after the event `ev`, seen at `now_ms`, with the stop signal
    /// in state `stop` before the step.
    pub open spec fn next_phase(self, stop: StopView, ev: RuntimeEvent, now_ms: u64) -> Phase {
        match (self.phase, ev) {
            (Phase::Racing, RuntimeEvent::MainCompleted(outcome)) => Phase::Stopped(
                Terminal::Completed(outcome),
            ),
            (Phase::Racing, RuntimeEvent::StopObserved) => if stop.triggered {
                Phase::Escalating { since_ms: now_ms }
            } else {
                Phase::Racing
            },
            (Phase::Escalating { since_ms }, RuntimeEvent::MainCompleted(outcome)) => if elapsed(
                since_ms,
                now_ms,
            ) <= self.grace_ms {
                Phase::Stopped(Terminal::Graceful(outcome))
            } else {
                Phase::Stopped(Terminal::Forced)
            },
            (Phase::Escalating { since_ms }, RuntimeEvent::GraceTimerFired) => if elapsed(
                since_ms,
                now_ms,
            ) >= self.grace_ms {
                Phase::Stopped(Terminal::Forced)
            } else {
                self.phase
            },
            _ => self.phase,
        }
    }

    /// The actions of that step.
    pub open spec fn actions(self, stop: StopView, ev: RuntimeEvent, now_ms: u64) -> Seq<
        RuntimeAction,
    > {
        match (self.phase, ev) {
            (Phase::Racing, RuntimeEvent::MainCompleted(outcome)) => seq![
                RuntimeAction::Emit(task_end(outcome)),
                RuntimeAction::AbortListener,
            ],
            (Phase::Racing, RuntimeEvent::StopObserved) => if stop.triggered {
                seq![
                    RuntimeAction::Emit(Lifecycle::StopRequested),
                    RuntimeAction::ArmGraceTimer(self.grace_ms),
                ]
            } else {
                Seq::empty()
            },
            (Phase::Escalating { since_ms }, RuntimeEvent::MainCompleted(outcome)) => if elapsed(
                since_ms,
                now_ms,
            ) <= self.grace_ms {
                seq![
                    RuntimeAction::Emit(task_end(outcome)),
                    RuntimeAction::Emit(Lifecycle::GracefulStop),
                    RuntimeAction::AbortListener,
                ]
            } else {
                forced_actions()
            },
            (Phase::Escalating { since_ms }, RuntimeEvent::GraceTimerFired) => if elapsed(
                since_ms,
                now_ms,
            ) >= self.grace_ms {
                forced_actions()
            } else {
                seq![
                    RuntimeAction::ArmGraceTimer(
                        (self.grace_ms - elapsed(since_ms, now_ms)) as u64,
                    ),
                ]
            },
            _ => Seq::empty(),
        }
    }

    /// Whether that step requests the stop itself: it does when the task ends
    /// before any stop request was seen, so that everything that waits on the
    /// signal unwinds.
    pub open spec fn triggers_stop(self, ev: RuntimeEvent) -> bool {
        self.phase is Racing && ev is MainCompleted
    }
}

impl Trace {
    /// A trace that starts from this state, with nothing handed out yet.
    pub open spec fn start(state: RuntimeState, stop: StopView) -> Trace {
        Trace { state, stop, actions: Seq::empty(), woken: Seq::empty() }
    }

    /// The trace after `launch`.
    pub open spec fn launch(self, signals_installed: bool) -> Trace {
        Trace {
            state: self.state.launch(signals_installed),
            stop: self.stop,
            actions: self.actions + self.state.launch_actions(signals_installed),
            woken: self.woken,
        }
    }

    /// The trace after one event.
    pub open spec fn step(self, ev: TimedEvent) -> Trace {
        let fires = self.state.triggers_stop(ev.event);
        Trace {
            state: RuntimeState {
                grace_ms: self.state.grace_ms,
                phase: self.state.next_phase(self.stop, ev.event, ev.at_ms),
            },
            stop: if fires {
                self.stop.trigger()
            } else {
                self.stop
            },
            actions: self.actions + self.state.actions(self.stop, ev.event, ev.at_ms),
            woken: if fires {
                self.woken + self.stop.released()
            } else {
                self.woken
            },
        }
    }

    /// The trace after the events, taken from the left.
    pub open spec fn replay(self, events: Seq<TimedEvent>) -> Trace
        decreases events.len(),
    {
        if events.len() == 0 {
            self
        } else {
            self.step(events[0]).replay(events.drop_first())
        }
    }
}

/// What one or more steps hand to the caller.
pub struct RuntimeStep {
    /// What to do, in this order.
    pub actions: Vec<RuntimeAction>,
    /// The waiters on the stop signal that the step released: the caller
    /// wakes each of them.
    pub woken: Vec<u64>,
}

/// The runtime of one hosted task.
pub struct AsyncService {
    grace_ms: u64,
    phase: Phase,
}

impl View for AsyncService {
    type V = RuntimeState;

    closed spec fn view(&self) -> RuntimeState {
        RuntimeState { grace_ms: self.grace_ms, phase: self.phase }
    }
}

impl AsyncService {
    /// A runtime with the default grace period, on which nothing has been
    /// started.
    pub fn new() -> (s: Self)
        ensures
            s@ == (RuntimeState { grace_ms: DEFAULT_GRACE_MS, phase: Phase::Idle }),
    {
        AsyncService { grace_ms: DEFAULT_GRACE_MS, phase: Phase::Idle }
    }

    /// A runtime with the given grace period, on which nothing has been
    /// started.
    pub fn with_grace(grace_ms: u64) -> (s: Self)
        ensures
            s@ == (RuntimeState { grace_ms, phase: Phase::Idle }),
    {
        AsyncService { grace_ms, phase: Phase::Idle }
    }

    /// The grace period, in milliseconds.
    pub fn grace_ms(&self) -> (g: u64)
        ensures
            g == self@.grace_ms,
    {
        self.grace_ms
    }

    /// Where the run stands.
    pub fn phase(&self) -> (p: Phase)
        ensures
            p == self@.phase,
    {
        self.phase
    }

    /// How the run ended, once it has.
    pub fn terminal(&self) -> (t: Option<Terminal>)
        ensures
            t == (match self@.phase {
                Phase::Stopped(terminal) => Some(terminal),
                _ => None,
            }),
    {
        match self.phase {
            Phase::Stopped(terminal) => Some(terminal),
            _ => None,
        }
    }

    /// Starts the run: the caller is told to start the task and the signal
    /// listener.
    ///
    /// `signals_installed` says whether the handlers for the process signals
    /// are in place. Without them the start is refused and nothing runs: a
    /// service that cannot be told to stop is not started. On a runtime that
    /// was started before, nothing happens.
    pub fn launch(&mut self, signals_installed: bool) -> (r: Result<
        Vec<RuntimeAction>,
        StartupError,
    >)
        ensures
            final(self)@ == old(self)@.launch(signals_installed),
            r is Err <==> old(self)@.launch_refused(signals_installed),
            r is Err ==> r->Err_0 == StartupError::SignalListener,
            r is Ok ==> r->Ok_0@ == old(self)@.launch_actions(signals_installed),
    {
        let mut actions: Vec<RuntimeAction> = Vec::new();
        match self.phase {
            Phase::Idle => {
                if !signals_installed {
                    return Err(StartupError::SignalListener);
                }
                self.phase = Phase::Racing;
                actions.push(RuntimeAction::Emit(Lifecycle::Started));
                actions.push(RuntimeAction::SpawnMain);
                actions.push(RuntimeAction::SpawnListener);
                assert(actions@ =~= old(self)@.launch_actions(signals_installed));
            },
            _ => {},
        }
        Ok(actions)
    }

    /// Takes one event, seen at `now_ms`, and decides what follows.
    ///
    /// While racing, the end of the task ends the run and requests the stop,
    /// and a stop request that the signal confirms starts the grace period.
    /// During the grace period, the end of the task within it ends the run
    /// gracefully; its end after it, or the timer firing at or after it, ends
    /// the run by force. An early timer is armed again for what is left.
    /// Everything else changes nothing.
    pub fn on_event(&mut self, stop: &mut StopSignal, ev: RuntimeEvent, now_ms: u64) -> (out:
        RuntimeStep)
        ensures
            final(self)@.grace_ms == old(self)@.grace_ms,
            final(self)@.phase == old(self)@.next_phase(old(stop)@, ev, now_ms),
            out.actions@ == old(self)@.actions(old(stop)@, ev, now_ms),
            old(self)@.triggers_stop(ev) ==> final(stop)@ == old(stop)@.trigger() && out.woken@
                == old(stop)@.released(),
            !old(self)@.triggers_stop(ev) ==> final(stop)@ == old(stop)@ && out.woken@
                == Seq::<u64>::empty(),
            old(stop)@.wf() ==> final(stop)@.wf(),
    {
        let mut actions: Vec<RuntimeAction> = Vec::new();
        let mut woken: Vec<u64> = Vec::new();
        let ghost before = self@;
        let ghost spec_actions = before.actions(stop@, ev, now_ms);
        match (self.phase, ev) {
            (Phase::Racing, RuntimeEvent::MainCompleted(outcome)) => {
                self.phase = Phase::Stopped(Terminal::Completed(outcome));
                woken = stop.fire();
                actions.push(RuntimeAction::Emit(task_end_of(outcome)));
                actions.push(RuntimeAction::AbortListener);
                assert(actions@ =~= spec_actions);
            },
            (Phase::Racing, RuntimeEvent::StopObserved) => {
                if stop.is_triggered() {
                    self.phase = Phase::Escalating { since_ms: now_ms };
                    actions.push(RuntimeAction::Emit(Lifecycle::StopRequested));
                    actions.push(RuntimeAction::ArmGraceTimer(self.grace_ms));
                    assert(actions@ =~= spec_actions);
                }
            },
            (Phase::Escalating { since_ms }, RuntimeEvent::MainCompleted(outcome)) => {
                if elapsed_ms(since_ms, now_ms) <= self.grace_ms {
                    self.phase = Phase::Stopped(Terminal::Graceful(outcome));
                    actions.push(RuntimeAction::Emit(task_end_of(outcome)));
                    actions.push(RuntimeAction::Emit(Lifecycle::GracefulStop));
                    actions.push(RuntimeAction::AbortListener);
                    assert(actions@ =~= spec_actions);
                } else {
                    self.phase = Phase::Stopped(Terminal::Forced);
                    actions = forced();
                }
            },
            (Phase::Escalating { since_ms }, RuntimeEvent::GraceTimerFired) => {
                let gone: u64 = elapsed_ms(since_ms, now_ms);
                if gone >= self.grace_ms {
                    self.phase = Phase::Stopped(Terminal::Forced);
                    actions = forced();
                } else {
                    actions.push(RuntimeAction::ArmGraceTimer(self.grace_ms - gone));
                    assert(actions@ =~= spec_actions);
                }
            },
            _ => {},
        }
        RuntimeStep { actions, woken }
    }

    /// Runs a whole script: starts the run, then takes the events in order
    /// until the run is over or the script is. Returns everything that the
    /// steps handed out, or the error with which the start was refused; in
    /// that case nothing has changed.
    pub fn run(
        &mut self,
        stop: &mut StopSignal,
        signals_installed: bool,
        events: &Vec<TimedEvent>,
    ) -> (r: Result<RuntimeStep, StartupError>)
        ensures
            r is Err <==> old(self)@.launch_refused(signals_installed),
            r is Err ==> r->Err_0 == StartupError::SignalListener && final(self)@ == old(self)@
                && final(stop)@ == old(stop)@,
            r is Ok ==> ({
                let end = Trace::start(old(self)@, old(stop)@).launch(signals_installed).replay(
                    events@,
                );
                &&& final(self)@ == end.state
                &&& final(stop)@ == end.stop
                &&& r->Ok_0.actions@ == end.actions
                &&& r->Ok_0.woken@ == end.woken
            }),
            old(stop)@.wf() ==> final(stop)@.wf(),
    {
        let ghost first = Trace::start(self@, stop@).launch(signals_installed);
        let mut actions: Vec<RuntimeAction> = match self.launch(signals_installed) {
            Ok(actions) => actions,
            Err(e) => {
                return Err(e);
            },
        };
        let mut woken: Vec<u64> = Vec::new();
        assert(actions@ =~= first.actions);
        assert(woken@ =~= first.woken);
        assert(events@.skip(0) =~= events@);
        let n: usize = events.len();
        let mut i: usize = 0;
        while i < n && self.terminal().is_none()
            invariant
                n == events@.len(),
                i <= n,
                old(stop)@.wf() ==> stop@.wf(),
                (Trace { state: self@, stop: stop@, actions: actions@, woken: woken@ }).replay(
                    events@.skip(i as int),
                ) == first.replay(events@),
            decreases n - i,
        {
            let ghost here = Trace { state: self@, stop: stop@, actions: actions@, woken: woken@ };
            let ev: TimedEvent = events[i];
            let mut step: RuntimeStep = self.on_event(stop, ev.event, ev.at_ms);
            actions.append(&mut step.actions);
            woken.append(&mut step.woken);
            proof {
                let rest = events@.skip(i as int);
                assert(rest[0] == ev);
                assert(rest.drop_first() =~= events@.skip(i + 1));
                let there = Trace {
                    state: self@,
                    stop: stop@,
                    actions: actions@,
                    woken: woken@,
                };
                assert(there.woken =~= here.step(ev).woken);
                assert(there == here.step(ev));
            }
            i += 1;
        }
        proof {
            let here = Trace { state: self@, stop: stop@, actions: actions@, woken: woken@ };
            if i < n {
                stopped_is_final(here, events@.skip(i as int));
            } else {
                assert(events@.skip(i as int).len() == 0);
            }
        }
        Ok(RuntimeStep { actions, woken })
    }
}

/// The time that has passed at `now_ms` since `since_ms`.
fn elapsed_ms(since_ms: u64, now_ms: u64) -> (gone: u64)
    ensures
        gone == elapsed(since_ms, now_ms),
{
    if now_ms >= since_ms {
        now_ms - since_ms
    } else {
        0
    }
}

/// The lifecycle event that records the task's end.
fn task_end_of(outcome: TaskOutcome) -> (event: Lifecycle)
    ensures
        event == task_end(outcome),
{
    match outcome {
        TaskOutcome::Success => Lifecycle::TaskCompleted,
        TaskOutcome::Failure => Lifecycle::TaskFailed,
    }
}

/// The actions of a forced stop.
fn forced() -> (actions: Vec<RuntimeAction>)
    ensures
        actions@ == forced_actions(),
{
    let mut actions: Vec<RuntimeAction> = Vec::new();
    actions.push(RuntimeAction::Emit(Lifecycle::ForcedStop));
    actions.push(RuntimeAction::AbortMain);
    actions.push(RuntimeAction::AbortListener);
    assert(actions@ =~= forced_actions());
    actions
}

/// A run that is over stays as it is: no event changes the runtime or the
/// stop signal, and none hands anything to the caller.
pub proof fn stopped_is_final(t: Trace, events: Seq<TimedEvent>)
    requires
        t.state.phase is Stopped,
    ensures
        t.replay(events) == t,
    decreases events.len(),
{
    if events.len() > 0 {
        let next = t.step(events[0]);
        assert(next.actions =~= t.actions);
        assert(next == t);
        stopped_is_final(t, events.drop_first());
    }
}

} // verus!
