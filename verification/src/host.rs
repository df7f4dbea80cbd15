//! The service's side of the protocol of a native service manager.
//!
//! The manager is told what the service does through status reports, and
//! tells the service what to do through control codes, on a thread of its
//! own. This module holds the status record and decides, for each thing that
//! happens, how the record changes and what is reported. The caller makes the
//! calls to the manager: it sends each report, waits on the local stop event,
//! and hands back what the manager or the wait returned.
use vstd::prelude::*;
use crate::error::StartupError;
use crate::stop_signal::{StopSignal, StopView};

verus! {

/// The service type that every report carries: a service in a process of its
/// own, run for a user.
pub const SERVICE_TYPE_OWN_PROCESS: u32 = 80;

/// The bit of the accepted controls that stands for the stop control.
pub const ACCEPT_STOP: u32 = 1;

/// The exit code of a service that ended without an error.
pub const NO_ERROR: u32 = 0;

/// The control code by which the manager asks the service to stop.
pub const CONTROL_STOP: u32 = 1;

/// The control code by which the manager asks for the current status.
pub const CONTROL_INTERROGATE: u32 = 4;

/// What a wait on the stop event returns when the event is set.
pub const WAIT_SIGNALED: u32 = 0;

/// What a wait on the stop event returns when the time ran out first.
pub const WAIT_TIMEOUT: u32 = 258;

/// The wait hint reported while the service starts, in milliseconds.
pub const DEFAULT_START_HINT_MS: u32 = 3000;

/// The wait hint reported while the service stops, in milliseconds.
pub const DEFAULT_STOP_HINT_MS: u32 = 10000;

/// The time between two checkpoints while the service stops, in milliseconds.
pub const DEFAULT_CADENCE_MS: u32 = 100;

/// The state of the service as the manager sees it.
#[derive(Clone, Copy, Debug, PartialEq, Eq, Structural)]
pub enum ServiceState {
    StartPending,
    Running,
    StopPending,
    Stopped,
}

impl ServiceState {
    /// The place of the state in the life of a service: a service only ever
    /// moves to a state with a higher number.
    pub open spec fn rank(self) -> nat {
        match self {
            ServiceState::StartPending => 0,
            ServiceState::Running => 1,
            ServiceState::StopPending => 2,
            ServiceState::Stopped => 3,
        }
    }

    /// The number by which the manager knows the state.
    pub open spec fn code_of(self) -> u32 {
        match self {
            ServiceState::Stopped => 1,
            ServiceState::StartPending => 2,
            ServiceState::StopPending => 3,
            ServiceState::Running => 4,
        }
    }

    /// Whether a service in this state takes the stop control.
    pub open spec fn accepts_stop(self) -> bool {
        self == ServiceState::Running || self == ServiceState::StopPending
    }

    /// The controls that a service in this state accepts, as a bit mask.
    pub open spec fn accepted_of(self) -> u32 {
        if self.accepts_stop() {
            ACCEPT_STOP
        } else {
            0
        }
    }

    /// The number by which the manager knows the state.
    pub fn code(self) -> (c: u32)
        ensures
            c == self.code_of(),
    {
        match self {
            ServiceState::Stopped => 1,
            ServiceState::StartPending => 2,
            ServiceState::StopPending => 3,
            ServiceState::Running => 4,
        }
    }

    /// The controls that a service in this state accepts, as a bit mask.
    pub fn accepted_controls(self) -> (mask: u32)
        ensures
            mask == self.accepted_of(),
    {
        match self {
            ServiceState::Running => ACCEPT_STOP,
            ServiceState::StopPending => ACCEPT_STOP,
            _ => 0,
        }
    }
}

/// What the service last told the manager about itself.
#[derive(Clone, Copy, Debug, PartialEq, Eq, Structural)]
pub struct ServiceStatusRecord {
    pub state: ServiceState,
    /// Counts up while a state lasts; 0 when a state is entered.
    pub checkpoint: u32,
    /// How long the manager should wait for the next report before it takes
    /// the service for hung, in milliseconds.
    pub wait_hint_ms: u32,
}

/// A status report as the manager takes it.
#[derive(Clone, Copy, Debug, PartialEq, Eq, Structural)]
pub struct StatusReport {
    pub service_type: u32,
    pub current_state: u32,
    pub controls_accepted: u32,
    pub win32_exit_code: u32,
    pub service_specific_exit_code: u32,
    pub checkpoint: u32,
    pub wait_hint_ms: u32,
}

impl ServiceStatusRecord {
    /// The report that tells the manager of this record.
    pub open spec fn report_of(self) -> StatusReport {
        StatusReport {
            service_type: SERVICE_TYPE_OWN_PROCESS,
            current_state: self.state.code_of(),
            controls_accepted: self.state.accepted_of(),
            win32_exit_code: NO_ERROR,
            service_specific_exit_code: 0,
            checkpoint: self.checkpoint,
            wait_hint_ms: self.wait_hint_ms,
        }
    }

    /// The record of a state that has just been entered.
    pub open spec fn entering(state: ServiceState, wait_hint_ms: u32) -> ServiceStatusRecord {
        ServiceStatusRecord { state, checkpoint: 0, wait_hint_ms }
    }

    /// The report that tells the manager of this record.
    pub fn report(self) -> (r: StatusReport)
        ensures
            r == self.report_of(),
    {
        StatusReport {
            service_type: SERVICE_TYPE_OWN_PROCESS,
            current_state: self.state.code(),
            controls_accepted: self.state.accepted_controls(),
            win32_exit_code: NO_ERROR,
            service_specific_exit_code: 0,
            checkpoint: self.checkpoint,
            wait_hint_ms: self.wait_hint_ms,
        }
    }
}

/// What the caller has to do after a step, in this order.
#[derive(Clone, Copy, Debug, PartialEq, Eq, Structural)]
pub enum HostAction {
    /// Send the report to the manager, before anything else happens.
    Report(StatusReport),
    /// Start the hosted workload.
    StartWorkload,
    /// Wait on the stop event for this many milliseconds, and hand the
    /// result to `on_heartbeat`.
    BeatAfter(u32),
}

/// What a step of the host hands to the caller.
pub struct HostStep {
    /// What to do, in this order.
    pub actions: Vec<HostAction>,
    /// The waiters on the stop signal that the step released: the caller
    /// wakes each of them.
    pub woken: Vec<u64>,
}

/// The mathematical state of a service context.
pub struct HostState {
    /// The status record; none before the control handler is registered.
    pub record: Option<ServiceStatusRecord>,
    /// Whether the workload has been told to start.
    pub started: bool,
    /// Whether the local stop event has not been released yet.
    pub event_open: bool,
    pub start_hint_ms: u32,
    pub stop_hint_ms: u32,
    pub cadence_ms: u32,
}

impl HostState {
    /// Checkpoints come faster than the wait hint that is reported with them,
    /// and no workload is started before the registration.
    pub open spec fn wf(self) -> bool {
        &&& self.cadence_ms < self.stop_hint_ms
        &&& self.record matches Some(rec) ==> (rec.state == ServiceState::StopPending
            ==> rec.wait_hint_ms == self.stop_hint_ms)
        &&& self.started ==> self.record is Some
    }

    /// The state of a new context with the given policy.
    pub open spec fn fresh(start_hint_ms: u32, stop_hint_ms: u32, cadence_ms: u32) -> HostState {
        HostState {
            record: None,
            started: false,
            event_open: true,
            start_hint_ms,
            stop_hint_ms,
            cadence_ms,
        }
    }

    /// This state with another record.
    pub open spec fn with_record(self, rec: ServiceStatusRecord) -> HostState {
        HostState {
            record: Some(rec),
            started: self.started,
            event_open: self.event_open,
            start_hint_ms: self.start_hint_ms,
            stop_hint_ms: self.stop_hint_ms,
            cadence_ms: self.cadence_ms,
        }
    }

    /// This state with the workload told to start.
    pub open spec fn with_start(self) -> HostState {
        HostState {
            record: self.record,
            started: true,
            event_open: self.event_open,
            start_hint_ms: self.start_hint_ms,
            stop_hint_ms: self.stop_hint_ms,
            cadence_ms: self.cadence_ms,
        }
    }

    /// Whether the service is in the given state.
    pub open spec fn is_in(self, state: ServiceState) -> bool {
        self.record matches Some(rec) && rec.state == state
    }

    /// Whether the service has a state other than the last one.
    pub open spec fn is_live(self) -> bool {
        self.record matches Some(rec) && rec.state != ServiceState::Stopped
    }

    /// Whether the answer of the manager to the registration is still
    /// awaited.
    pub open spec fn awaits_registration(self) -> bool {
        self.record is None && self.event_open
    }

    /// Whether the registration fails: the answer is awaited, and the manager
    /// refused.
    pub open spec fn registration_fails(self, accepted: bool) -> bool {
        self.awaits_registration() && !accepted
    }

    /// The state after the manager has answered the registration.
    pub open spec fn registration(self, accepted: bool) -> HostState {
        if self.awaits_registration() && accepted {
            self.with_record(
                ServiceStatusRecord::entering(ServiceState::StartPending, self.start_hint_ms),
            )
        } else {
            self
        }
    }

    /// The actions after the manager has answered the registration.
    pub open spec fn registration_actions(self, accepted: bool) -> Seq<HostAction> {
        if self.awaits_registration() && accepted {
            seq![HostAction::Report(self.registration(accepted).record->Some_0.report_of())]
        } else {
            Seq::empty()
        }
    }

    /// Whether the workload is started when the service is initialized: the
    /// service is registered and not stopped, and the workload was not
    /// started before.
    pub open spec fn starts_workload(self) -> bool {
        self.is_live() && !self.started
    }

    /// The state after the service has been initialized.
    pub open spec fn initialized(self) -> HostState {
        if !self.starts_workload() {
            self
        } else if self.is_in(ServiceState::StartPending) {
            self.with_record(ServiceStatusRecord::entering(ServiceState::Running, 0)).with_start()
        } else {
            self.with_start()
        }
    }

    /// The actions after the service has been initialized.
    pub open spec fn initialized_actions(self) -> Seq<HostAction> {
        if !self.starts_workload() {
            Seq::empty()
        } else if self.is_in(ServiceState::StartPending) {
            seq![
                HostAction::Report(self.initialized().record->Some_0.report_of()),
                HostAction::StartWorkload,
            ]
        } else {
            seq![HostAction::StartWorkload]
        }
    }

    /// Whether the control makes the service request the stop: the stop
    /// control does, whatever the state of the service.
    pub open spec fn control_triggers(self, ctrl: u32) -> bool {
        ctrl == CONTROL_STOP
    }

    /// Whether the control makes the service enter `StopPending`: the stop
    /// control does, in a service that starts or runs.
    pub open spec fn control_begins_stop(self, ctrl: u32) -> bool {
        ctrl == CONTROL_STOP && (self.is_in(ServiceState::StartPending) || self.is_in(
            ServiceState::Running,
        ))
    }

    /// The state after a control.
    pub open spec fn control(self, ctrl: u32) -> HostState {
        if self.control_begins_stop(ctrl) {
            self.with_record(
                ServiceStatusRecord::entering(ServiceState::StopPending, self.stop_hint_ms),
            )
        } else {
            self
        }
    }

    /// The actions of a control.
    pub open spec fn control_actions(self, ctrl: u32) -> Seq<HostAction> {
        if ctrl == CONTROL_STOP {
            if self.control_begins_stop(ctrl) {
                seq![
                    HostAction::Report(self.control(ctrl).record->Some_0.report_of()),
                    HostAction::BeatAfter(self.cadence_ms),
                ]
            } else {
                seq![HostAction::BeatAfter(self.cadence_ms)]
            }
        } else if ctrl == CONTROL_INTERROGATE && self.record is Some {
            seq![HostAction::Report(self.record->Some_0.report_of())]
        } else {
            Seq::empty()
        }
    }

    /// Whether the caller waits on the stop event again after a wait with
    /// this result: it does as long as the wait runs out of time.
    pub open spec fn beats_on(self, wait_code: u32) -> bool {
        wait_code == WAIT_TIMEOUT
    }

    /// Whether a wait with this result is followed by a report: the wait ran
    /// out of time, the service is stopping, and the checkpoint can go up.
    pub open spec fn beat_reports(self, wait_code: u32) -> bool {
        &&& wait_code == WAIT_TIMEOUT
        &&& self.is_in(ServiceState::StopPending)
        &&& self.record->Some_0.checkpoint < u32::MAX
    }

    /// The state after a wait on the stop event with this result.
    pub open spec fn heartbeat(self, wait_code: u32) -> HostState {
        if self.beat_reports(wait_code) {
            let rec = self.record->Some_0;
            self.with_record(
                ServiceStatusRecord {
                    state: rec.state,
                    checkpoint: (rec.checkpoint + 1) as u32,
                    wait_hint_ms: rec.wait_hint_ms,
                },
            )
        } else {
            self
        }
    }

    /// The actions after a wait on the stop event with this result.
    pub open spec fn heartbeat_actions(self, wait_code: u32) -> Seq<HostAction> {
        if self.beat_reports(wait_code) {
            seq![
                HostAction::Report(self.heartbeat(wait_code).record->Some_0.report_of()),
                HostAction::BeatAfter(self.cadence_ms),
            ]
        } else if self.beats_on(wait_code) {
            seq![HostAction::BeatAfter(self.cadence_ms)]
        } else {
            Seq::empty()
        }
    }

    /// The state after the workload has ended.
    pub open spec fn finished(self) -> HostState {
        if self.is_live() {
            self.with_record(ServiceStatusRecord::entering(ServiceState::Stopped, 0))
        } else {
            self
        }
    }

    /// The actions after the workload has ended.
    pub open spec fn finished_actions(self) -> Seq<HostAction> {
        if self.is_live() {
            seq![HostAction::Report(self.finished().record->Some_0.report_of())]
        } else {
            Seq::empty()
        }
    }

    /// The state after the stop event has been released.
    pub open spec fn closed(self) -> HostState {
        HostState {
            record: self.record,
            started: self.started,
            event_open: false,
            start_hint_ms: self.start_hint_ms,
            stop_hint_ms: self.stop_hint_ms,
            cadence_ms: self.cadence_ms,
        }
    }
}

/// The stop signal after the handler has taken the control.
pub open spec fn handler_stop(s: HostState, stop: StopView, ctrl: u32) -> StopView {
    if s.control_triggers(ctrl) {
        stop.trigger()
    } else {
        stop
    }
}

/// The waiters that the handler releases on the control.
pub open spec fn handler_woken(s: HostState, stop: StopView, ctrl: u32) -> Seq<u64> {
    if s.control_triggers(ctrl) {
        stop.released()
    } else {
        Seq::empty()
    }
}

/// The context of one run of a service under a manager: the status record
/// and the policy of its reports.
pub struct ServiceContext {
    record: Option<ServiceStatusRecord>,
    started: bool,
    event_open: bool,
    start_hint_ms: u32,
    stop_hint_ms: u32,
    cadence_ms: u32,
}

impl View for ServiceContext {
    type V = HostState;

    closed spec fn view(&self) -> HostState {
        HostState {
            record: self.record,
            started: self.started,
            event_open: self.event_open,
            start_hint_ms: self.start_hint_ms,
            stop_hint_ms: self.stop_hint_ms,
            cadence_ms: self.cadence_ms,
        }
    }
}

impl ServiceContext {
    /// A context with the default policy: nothing is registered, and the stop
    /// event is held.
    pub fn new() -> (ctx: Self)
        ensures
            ctx@ == HostState::fresh(
                DEFAULT_START_HINT_MS,
                DEFAULT_STOP_HINT_MS,
                DEFAULT_CADENCE_MS,
            ),
            ctx@.wf(),
    {
        ServiceContext {
            record: None,
            started: false,
            event_open: true,
            start_hint_ms: DEFAULT_START_HINT_MS,
            stop_hint_ms: DEFAULT_STOP_HINT_MS,
            cadence_ms: DEFAULT_CADENCE_MS,
        }
    }

    /// A context with a policy of the caller's. The checkpoints must come
    /// faster than the wait hint that is reported with them: where
    /// `cadence_ms` is not below `stop_hint_ms`, there is no such context.
    pub fn with_policy(start_hint_ms: u32, stop_hint_ms: u32, cadence_ms: u32) -> (ctx: Option<
        Self,
    >)
        ensures
            ctx is Some <==> cadence_ms < stop_hint_ms,
            ctx is Some ==> ctx->Some_0@ == HostState::fresh(
                start_hint_ms,
                stop_hint_ms,
                cadence_ms,
            ) && ctx->Some_0@.wf(),
    {
        if cadence_ms < stop_hint_ms {
            Some(
                ServiceContext {
                    record: None,
                    started: false,
                    event_open: true,
                    start_hint_ms,
                    stop_hint_ms,
                    cadence_ms,
                },
            )
        } else {
            None
        }
    }

    /// The status record, once the control handler is registered.
    pub fn record(&self) -> (rec: Option<ServiceStatusRecord>)
        ensures
            rec == self@.record,
    {
        self.record
    }

    /// The report of the current status, once the control handler is
    /// registered.
    pub fn report_status(&self) -> (r: Option<StatusReport>)
        ensures
            r == (match self@.record {
                Some(rec) => Some(rec.report_of()),
                None => None,
            }),
    {
        match self.record {
            Some(rec) => Some(rec.report()),
            None => None,
        }
    }

    /// Takes the manager's answer to the registration of the control handler.
    ///
    /// Where the manager accepted it, the service enters `StartPending` and
    /// says so. Where it refused, the start has failed: nothing is reported
    /// and no workload is started; the caller closes the context and gives
    /// up. An answer that is not awaited changes nothing.
    pub fn on_registration(&mut self, accepted: bool) -> (r: Result<HostStep, StartupError>)
        ensures
            final(self)@ == old(self)@.registration(accepted),
            r is Err <==> old(self)@.registration_fails(accepted),
            r is Err ==> r->Err_0 == StartupError::Registration,
            r is Ok ==> r->Ok_0.woken@ == Seq::<u64>::empty(),
            r is Ok ==> r->Ok_0.actions@ == old(self)@.registration_actions(accepted),
            old(self)@.wf() ==> final(self)@.wf(),
    {
        let mut actions: Vec<HostAction> = Vec::new();
        if self.record.is_none() && self.event_open {
            if !accepted {
                return Err(StartupError::Registration);
            }
            let rec = ServiceStatusRecord {
                state: ServiceState::StartPending,
                checkpoint: 0,
                wait_hint_ms: self.start_hint_ms,
            };
            self.record = Some(rec);
            actions.push(HostAction::Report(rec.report()));
            assert(actions@ =~= seq![HostAction::Report(rec.report_of())]);
        }
        Ok(HostStep { actions, woken: Vec::new() })
    }

    /// The service is initialized, and the workload is started, once.
    ///
    /// A service that is still in `StartPending` enters `Running` and says
    /// so. One that was told to stop while it started stays in `StopPending`:
    /// its workload is started all the same and finds the stop requested. On
    /// a service that is stopped, not registered, or initialized already,
    /// nothing happens.
    pub fn on_initialized(&mut self) -> (out: HostStep)
        ensures
            final(self)@ == old(self)@.initialized(),
            out.actions@ == old(self)@.initialized_actions(),
            out.woken@ == Seq::<u64>::empty(),
            old(self)@.wf() ==> final(self)@.wf(),
    {
        let mut actions: Vec<HostAction> = Vec::new();
        match self.record {
            Some(rec) => {
                if rec.state != ServiceState::Stopped && !self.started {
                    if rec.state == ServiceState::StartPending {
                        let next = ServiceStatusRecord {
                            state: ServiceState::Running,
                            checkpoint: 0,
                            wait_hint_ms: 0,
                        };
                        self.record = Some(next);
                        actions.push(HostAction::Report(next.report()));
                    }
                    self.started = true;
                    actions.push(HostAction::StartWorkload);
                    assert(actions@ =~= old(self)@.initialized_actions());
                }
            },
            None => {},
        }
        HostStep { actions, woken: Vec::new() }
    }

    /// A wait on the stop event has returned `wait_code`.
    ///
    /// As long as the wait runs out of time the caller waits again. In a
    /// service that is stopping, the checkpoint goes up by one first and the
    /// manager is told; a checkpoint that cannot go up is not reported again.
    /// When the wait returns anything else, the event is set or the wait has
    /// failed: nothing is handed out, and the caller stops waiting.
    pub fn on_heartbeat(&mut self, wait_code: u32) -> (out: HostStep)
        ensures
            final(self)@ == old(self)@.heartbeat(wait_code),
            out.actions@ == old(self)@.heartbeat_actions(wait_code),
            out.woken@ == Seq::<u64>::empty(),
            old(self)@.wf() ==> final(self)@.wf(),
    {
        let mut actions: Vec<HostAction> = Vec::new();
        if wait_code == WAIT_TIMEOUT {
            match self.record {
                Some(rec) => {
                    if rec.state == ServiceState::StopPending && rec.checkpoint < u32::MAX {
                        let next = ServiceStatusRecord {
                            state: rec.state,
                            checkpoint: rec.checkpoint + 1,
                            wait_hint_ms: rec.wait_hint_ms,
                        };
                        self.record = Some(next);
                        actions.push(HostAction::Report(next.report()));
                    }
                },
                None => {},
            }
            actions.push(HostAction::BeatAfter(self.cadence_ms));
            assert(actions@ =~= old(self)@.heartbeat_actions(wait_code));
        }
        HostStep { actions, woken: Vec::new() }
    }

    /// The workload has ended and the wait for it is over: the service enters
    /// `Stopped` and says so. Where it has done so before, or was never
    /// registered, nothing happens.
    pub fn on_finished(&mut self) -> (out: HostStep)
        ensures
            final(self)@ == old(self)@.finished(),
            out.actions@ == old(self)@.finished_actions(),
            out.woken@ == Seq::<u64>::empty(),
            old(self)@.wf() ==> final(self)@.wf(),
    {
        let mut actions: Vec<HostAction> = Vec::new();
        match self.record {
            Some(rec) => {
                if rec.state != ServiceState::Stopped {
                    let next = ServiceStatusRecord {
                        state: ServiceState::Stopped,
                        checkpoint: 0,
                        wait_hint_ms: 0,
                    };
                    self.record = Some(next);
                    actions.push(HostAction::Report(next.report()));
                    assert(actions@ =~= old(self)@.finished_actions());
                }
            },
            None => {},
        }
        HostStep { actions, woken: Vec::new() }
    }

    /// Gives up the stop event. Returns whether the caller has to release it
    /// now: on the first call, and never again.
    pub fn close(&mut self) -> (release: bool)
        ensures
            release == old(self)@.event_open,
            final(self)@ == old(self)@.closed(),
            old(self)@.wf() ==> final(self)@.wf(),
    {
        let release = self.event_open;
        self.event_open = false;
        release
    }
}

impl Default for ServiceContext {
    fn default() -> (ctx: Self)
        ensures
            ctx@ == HostState::fresh(
                DEFAULT_START_HINT_MS,
                DEFAULT_STOP_HINT_MS,
                DEFAULT_CADENCE_MS,
            ),
            ctx@.wf(),
    {
        ServiceContext::new()
    }
}

/// Takes a control code from the manager.
///
/// The stop control requests the stop, in whatever state the service is and
/// whether it is registered or not, and the caller starts to wait on the stop
/// event. A service that starts or runs enters `StopPending` and tells the
/// manager at once; one that is stopping already goes on counting, and one
/// that is stopped stays stopped. The interrogate control makes a registered
/// service report its current status once, and changes nothing. Every other
/// control is ignored.
pub fn service_handler(ctx: &mut ServiceContext, stop: &mut StopSignal, ctrl: u32) -> (out:
    HostStep)
    ensures
        final(ctx)@ == old(ctx)@.control(ctrl),
        out.actions@ == old(ctx)@.control_actions(ctrl),
        final(stop)@ == handler_stop(old(ctx)@, old(stop)@, ctrl),
        out.woken@ == handler_woken(old(ctx)@, old(stop)@, ctrl),
        old(stop)@.wf() ==> final(stop)@.wf(),
        old(ctx)@.wf() ==> final(ctx)@.wf(),
{
    let mut actions: Vec<HostAction> = Vec::new();
    let mut woken: Vec<u64> = Vec::new();
    if ctrl == CONTROL_STOP {
        woken = stop.fire();
        match ctx.record {
            Some(rec) => {
                if rec.state == ServiceState::StartPending || rec.state == ServiceState::Running {
                    let next = ServiceStatusRecord {
                        state: ServiceState::StopPending,
                        checkpoint: 0,
                        wait_hint_ms: ctx.stop_hint_ms,
                    };
                    ctx.record = Some(next);
                    actions.push(HostAction::Report(next.report()));
                }
            },
            None => {},
        }
        actions.push(HostAction::BeatAfter(ctx.cadence_ms));
        assert(actions@ =~= old(ctx)@.control_actions(ctrl));
    } else if ctrl == CONTROL_INTERROGATE {
        match ctx.record {
            Some(rec) => {
                actions.push(HostAction::Report(rec.report()));
                assert(actions@ =~= old(ctx)@.control_actions(ctrl));
            },
            None => {},
        }
    }
    HostStep { actions, woken }
}

} // verus!
