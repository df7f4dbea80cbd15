//! What holds of every service context.
use vstd::prelude::*;
use crate::host::{
    handler_stop, handler_woken, HostAction, HostState, ServiceState, ServiceStatusRecord,
    CONTROL_INTERROGATE, CONTROL_STOP, WAIT_TIMEOUT,
};
use crate::stop_signal::{StopOp, StopView};

verus! {

/// Something that happens to a service context.
pub enum HostEvent {
    /// The manager has answered the registration.
    Registration(bool),
    /// The service is initialized.
    Initialized,
    /// The manager has sent a control.
    Control(u32),
    /// A wait on the stop event has returned.
    Heartbeat(u32),
    /// The workload has ended.
    Finished,
    /// The stop event is given up.
    Closed,
}

/// The state after the event.
pub open spec fn after(s: HostState, ev: HostEvent) -> HostState {
    match ev {
        HostEvent::Registration(accepted) => s.registration(accepted),
        HostEvent::Initialized => s.initialized(),
        HostEvent::Control(ctrl) => s.control(ctrl),
        HostEvent::Heartbeat(wait_code) => s.heartbeat(wait_code),
        HostEvent::Finished => s.finished(),
        HostEvent::Closed => s.closed(),
    }
}

/// The actions of the event.
pub open spec fn actions_of(s: HostState, ev: HostEvent) -> Seq<HostAction> {
    match ev {
        HostEvent::Registration(accepted) => s.registration_actions(accepted),
        HostEvent::Initialized => s.initialized_actions(),
        HostEvent::Control(ctrl) => s.control_actions(ctrl),
        HostEvent::Heartbeat(wait_code) => s.heartbeat_actions(wait_code),
        HostEvent::Finished => s.finished_actions(),
        HostEvent::Closed => Seq::empty(),
    }
}

/// Whether the record `later` may follow the record `earlier`: the state has
/// not gone back; where it is the same, the checkpoint has not gone down and
/// the wait hint is the same; where it is another, the checkpoint starts
/// from 0.
pub open spec fn follows(earlier: ServiceStatusRecord, later: ServiceStatusRecord) -> bool {
    if later.state == earlier.state {
        later.checkpoint >= earlier.checkpoint && later.wait_hint_ms == earlier.wait_hint_ms
    } else {
        later.state.rank() > earlier.state.rank() && later.checkpoint == 0
    }
}

/// The state after `n` waits on the stop event that ran out of time.
pub open spec fn after_beats(s: HostState, n: nat) -> HostState
    decreases n,
{
    if n == 0 {
        s
    } else {
        after_beats(s, (n - 1) as nat).heartbeat(WAIT_TIMEOUT)
    }
}

/// The status of a service only ever moves forward, from `StartPending` over
/// `Running` and `StopPending` to `Stopped`. Whatever happens, the record that
/// is there afterwards follows the one that was there before, and a record
/// once there stays. Once the stop control has come, `StopPending` is not
/// passed over: a service that is not stopped is stopping after the stop
/// control, and a service that is stopping is next stopping or stopped. The
/// policy, a started workload and a released stop event stay as they are.
pub proof fn status_moves_forward(s: HostState, ev: HostEvent)
    requires
        s.wf(),
    ensures
        after(s, ev).wf(),
        s.record is Some ==> after(s, ev).record is Some && follows(
            s.record->Some_0,
            after(s, ev).record->Some_0,
        ),
        s.record is None && after(s, ev).record is Some ==> after(s, ev).is_in(
            ServiceState::StartPending,
        ),
        s.is_live() && ev == HostEvent::Control(CONTROL_STOP) ==> after(s, ev).is_in(
            ServiceState::StopPending,
        ),
        s.is_in(ServiceState::StopPending) ==> after(s, ev).is_in(ServiceState::StopPending)
            || after(s, ev).is_in(ServiceState::Stopped),
        s.started ==> after(s, ev).started,
        after(s, ev).start_hint_ms == s.start_hint_ms,
        after(s, ev).stop_hint_ms == s.stop_hint_ms,
        after(s, ev).cadence_ms == s.cadence_ms,
        !s.event_open ==> !after(s, ev).event_open,
{
}

/// Every report tells of the status as it stands after the step that made
/// it, and no step makes more than one. With the status moving forward only,
/// the manager is told of it in order.
pub proof fn reports_tell_the_current_status(s: HostState, ev: HostEvent)
    ensures
        forall|i: int|
            0 <= i < actions_of(s, ev).len() && (#[trigger] actions_of(s, ev)[i]) is Report ==> i
                == 0 && after(s, ev).record is Some && actions_of(s, ev)[i] == HostAction::Report(
                after(s, ev).record->Some_0.report_of(),
            ),
{
}

/// Whether the step of the event has the caller wait on the stop event: the
/// stop control has, and so has every wait that ran out of time.
pub open spec fn polls(ev: HostEvent) -> bool {
    ev == HostEvent::Control(CONTROL_STOP) || ev == HostEvent::Heartbeat(WAIT_TIMEOUT)
}

/// Before the control handler is registered nothing is reported and no
/// workload is started: a registration that the manager refused leaves a
/// service that tells the manager nothing, whatever happens to it. All that
/// is handed out is the wait on the stop event after a stop control.
pub proof fn nothing_runs_unregistered(s: HostState, ev: HostEvent)
    requires
        s.wf(),
        s.record is None,
        ev != HostEvent::Registration(true),
    ensures
        after(s, ev).record is None,
        !after(s, ev).started,
        actions_of(s, ev) == (if polls(ev) {
            seq![HostAction::BeatAfter(s.cadence_ms)]
        } else {
            Seq::<HostAction>::empty()
        }),
{
}

/// The workload is started at most once, and only in a registered service
/// that is not stopped: the step that starts it is the first initialization
/// of such a service, and no other step does.
pub proof fn workload_starts_once(s: HostState, ev: HostEvent)
    ensures
        actions_of(s, ev).contains(HostAction::StartWorkload) <==> ev == HostEvent::Initialized
            && s.is_live() && !s.started,
        actions_of(s, ev).contains(HostAction::StartWorkload) ==> after(s, ev).started,
{
    let acts = actions_of(s, ev);
    if ev == HostEvent::Initialized && s.is_live() && !s.started {
        if s.is_in(ServiceState::StartPending) {
            assert(acts[1] == HostAction::StartWorkload);
        } else {
            assert(acts[0] == HostAction::StartWorkload);
        }
    }
}

/// The stop control requests the stop, whatever the state of the service and
/// whether it is registered or not: on the signal it is one trigger. The
/// first one releases every waiter, and after it the signal is requested;
/// every later one, in whatever state it finds the service, changes nothing
/// on the signal and releases nobody.
pub proof fn stop_control_requests_the_stop(s: HostState, later: HostState, stop: StopView)
    ensures
        handler_stop(s, stop, CONTROL_STOP) == stop.apply(StopOp::Trigger),
        handler_stop(s, stop, CONTROL_STOP).triggered,
        handler_woken(s, stop, CONTROL_STOP) == stop.released(),
        handler_stop(later, handler_stop(s, stop, CONTROL_STOP), CONTROL_STOP) == handler_stop(
            s,
            stop,
            CONTROL_STOP,
        ),
        handler_woken(later, handler_stop(s, stop, CONTROL_STOP), CONTROL_STOP) == Seq::<
            u64,
        >::empty(),
{
}

/// The wait on the stop event goes on until the event is set. The stop
/// control starts it, in every state; after each wait that ran out of time
/// the caller waits again, in every state; and a wait that returns anything
/// else ends it. No step is told whether a report reached the manager, so a
/// report that failed stops neither the request nor the wait.
pub proof fn polling_goes_on_until_the_event_is_set(s: HostState, wait_code: u32)
    ensures
        s.control_actions(CONTROL_STOP).last() == HostAction::BeatAfter(s.cadence_ms),
        wait_code == WAIT_TIMEOUT ==> s.heartbeat_actions(wait_code).last()
            == HostAction::BeatAfter(s.cadence_ms),
        wait_code != WAIT_TIMEOUT ==> s.heartbeat_actions(wait_code) == Seq::<HostAction>::empty()
            && s.heartbeat(wait_code) == s,
{
}

/// However the workload ended, and in whatever state the service was, the
/// end is reported: a registered service that is not yet stopped reports
/// `Stopped` once, with checkpoint 0, and is stopped afterwards.
pub proof fn the_end_is_always_reported(s: HostState)
    requires
        s.record is Some,
    ensures
        s.finished().is_in(ServiceState::Stopped),
        s.is_live() ==> s.finished_actions() == seq![
            HostAction::Report(
                ServiceStatusRecord::entering(ServiceState::Stopped, 0).report_of(),
            ),
        ],
        !s.is_live() ==> s.finished_actions() == Seq::<HostAction>::empty() && s.finished() == s,
{
}

/// The interrogate control, in whatever state the service is, is answered
/// with exactly one report, that of the current status, and changes neither
/// the status nor the stop signal.
pub proof fn interrogate_reports_once(s: HostState, stop: StopView)
    requires
        s.record is Some,
    ensures
        s.control_actions(CONTROL_INTERROGATE) == seq![
            HostAction::Report(s.record->Some_0.report_of()),
        ],
        s.control_actions(CONTROL_INTERROGATE).len() == 1,
        s.control(CONTROL_INTERROGATE) == s,
        handler_stop(s, stop, CONTROL_INTERROGATE) == stop,
        handler_woken(s, stop, CONTROL_INTERROGATE) == Seq::<u64>::empty(),
{
}

/// A control that is neither the stop control nor the interrogate control
/// is ignored: nothing changes and nothing is handed out.
pub proof fn other_controls_are_ignored(s: HostState, stop: StopView, ctrl: u32)
    requires
        ctrl != CONTROL_STOP,
        ctrl != CONTROL_INTERROGATE,
    ensures
        s.control(ctrl) == s,
        s.control_actions(ctrl) == Seq::<HostAction>::empty(),
        handler_stop(s, stop, ctrl) == stop,
        handler_woken(s, stop, ctrl) == Seq::<u64>::empty(),
{
}

/// After `n` waits that ran out of time, a service that is stopping stands
/// at a checkpoint `n` higher, as long as the checkpoint can go up.
pub proof fn beats_count_up(s: HostState, n: nat)
    requires
        s.is_in(ServiceState::StopPending),
        s.record->Some_0.checkpoint + n <= u32::MAX,
    ensures
        after_beats(s, n) == s.with_record(
            ServiceStatusRecord {
                state: ServiceState::StopPending,
                checkpoint: (s.record->Some_0.checkpoint + n) as u32,
                wait_hint_ms: s.record->Some_0.wait_hint_ms,
            },
        ),
    decreases n,
{
    if n > 0 {
        beats_count_up(s, (n - 1) as nat);
    }
}

/// The stop control in a service that starts or runs. The stop is requested
/// and the service reports `StopPending` at checkpoint 0. Each wait on the
/// stop event that runs out of time is then followed by one report of
/// `StopPending` whose checkpoint is one higher than that of the report
/// before, with a wait hint that is longer than the time between two
/// reports. When the workload has ended there is one report of `Stopped`, and
/// no report after it, whatever wait or stop control follows.
pub proof fn stop_counts_up_to_stopped(s: HostState, stop: StopView, n: nat, wait_code: u32)
    requires
        s.wf(),
        s.is_in(ServiceState::StartPending) || s.is_in(ServiceState::Running),
        n < u32::MAX,
    ensures
        handler_stop(s, stop, CONTROL_STOP).triggered,
        handler_woken(s, stop, CONTROL_STOP) == stop.released(),
        s.control_actions(CONTROL_STOP) == seq![
            HostAction::Report(
                ServiceStatusRecord::entering(
                    ServiceState::StopPending,
                    s.stop_hint_ms,
                ).report_of(),
            ),
            HostAction::BeatAfter(s.cadence_ms),
        ],
        forall|k: nat|
            k <= n ==> (#[trigger] after_beats(s.control(CONTROL_STOP), k)).heartbeat_actions(
                WAIT_TIMEOUT,
            ) == seq![
                HostAction::Report(
                    (ServiceStatusRecord {
                        state: ServiceState::StopPending,
                        checkpoint: (k + 1) as u32,
                        wait_hint_ms: s.stop_hint_ms,
                    }).report_of(),
                ),
                HostAction::BeatAfter(s.cadence_ms),
            ],
        s.cadence_ms < s.stop_hint_ms,
        ({
            let stopping = after_beats(s.control(CONTROL_STOP), n);
            let stopped = stopping.finished();
            &&& stopping.finished_actions() == seq![
                HostAction::Report(
                    ServiceStatusRecord::entering(ServiceState::Stopped, 0).report_of(),
                ),
            ]
            &&& stopped.is_in(ServiceState::Stopped)
            &&& stopped.finished_actions() == Seq::<HostAction>::empty()
            &&& reported(stopped, HostEvent::Heartbeat(wait_code)) == Seq::<
                ServiceStatusRecord,
            >::empty()
            &&& reported(stopped, HostEvent::Control(CONTROL_STOP)) == Seq::<
                ServiceStatusRecord,
            >::empty()
            &&& after(stopped, HostEvent::Heartbeat(wait_code)) == stopped
            &&& after(stopped, HostEvent::Control(CONTROL_STOP)) == stopped
        }),
{
    let s1 = s.control(CONTROL_STOP);
    assert forall|k: nat| k <= n implies (#[trigger] after_beats(s1, k)).heartbeat_actions(
        WAIT_TIMEOUT,
    ) == seq![
        HostAction::Report(
            (ServiceStatusRecord {
                state: ServiceState::StopPending,
                checkpoint: (k + 1) as u32,
                wait_hint_ms: s.stop_hint_ms,
            }).report_of(),
        ),
        HostAction::BeatAfter(s.cadence_ms),
    ] by {
        beats_count_up(s1, k);
    }
    beats_count_up(s1, n);
}

/// The state after the events, taken from the left.
pub open spec fn after_all(s: HostState, events: Seq<HostEvent>) -> HostState
    decreases events.len(),
{
    if events.len() == 0 {
        s
    } else {
        after_all(after(s, events[0]), events.drop_first())
    }
}

/// The record that the step of the event reports, if it reports one.
pub open spec fn reported(s: HostState, ev: HostEvent) -> Seq<ServiceStatusRecord> {
    if actions_of(s, ev).len() > 0 && actions_of(s, ev)[0] is Report {
        seq![after(s, ev).record->Some_0]
    } else {
        Seq::empty()
    }
}

/// The records that the steps of the events report, oldest first.
pub open spec fn history(s: HostState, events: Seq<HostEvent>) -> Seq<ServiceStatusRecord>
    decreases events.len(),
{
    if events.len() == 0 {
        Seq::empty()
    } else {
        reported(s, events[0]) + history(after(s, events[0]), events.drop_first())
    }
}

/// Whether the record `later` tells of a status that is not before that of
/// `earlier`: a later state, or the same state at a checkpoint that is not
/// lower.
pub open spec fn not_before(earlier: ServiceStatusRecord, later: ServiceStatusRecord) -> bool {
    ||| later.state.rank() > earlier.state.rank()
    ||| later.state == earlier.state && later.checkpoint >= earlier.checkpoint
}

/// Whatever happens to a service and in whatever order, the manager is told
/// of its status in order: of the records reported, none tells of a status
/// before that of an earlier one, nor before the status from which the
/// service set out.
pub proof fn reports_come_in_order(s: HostState, events: Seq<HostEvent>)
    requires
        s.wf(),
    ensures
        after_all(s, events).wf(),
        forall|i: int, j: int|
            0 <= i <= j < history(s, events).len() ==> not_before(
                #[trigger] history(s, events)[i],
                #[trigger] history(s, events)[j],
            ),
        s.record is Some ==> forall|i: int|
            0 <= i < history(s, events).len() ==> not_before(
                s.record->Some_0,
                #[trigger] history(s, events)[i],
            ),
    decreases events.len(),
{
    if events.len() > 0 {
        let ev = events[0];
        let next = after(s, ev);
        let rest = events.drop_first();
        let head = reported(s, ev);
        let tail = history(next, rest);
        status_moves_forward(s, ev);
        reports_tell_the_current_status(s, ev);
        reports_come_in_order(next, rest);
        let all = history(s, events);
        assert(all =~= head + tail);
        if head.len() > 0 {
            assert(actions_of(s, ev)[0] is Report);
            assert(next.record is Some);
            assert(head[0] == next.record->Some_0);
        }
        assert forall|i: int, j: int| 0 <= i <= j < all.len() implies not_before(
            #[trigger] all[i],
            #[trigger] all[j],
        ) by {
            if i < head.len() {
                if j >= head.len() {
                    assert(all[j] == tail[j - head.len()]);
                }
            } else {
                assert(all[i] == tail[i - head.len()]);
                assert(all[j] == tail[j - head.len()]);
            }
        }
        if s.record is Some {
            assert forall|i: int| 0 <= i < all.len() implies not_before(
                s.record->Some_0,
                #[trigger] all[i],
            ) by {
                if i >= head.len() {
                    assert(all[i] == tail[i - head.len()]);
                }
            }
        }
    }
}

} // verus!
