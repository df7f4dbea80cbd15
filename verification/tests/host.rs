use service_shutdown::error::StartupError;
use service_shutdown::host::{
    service_handler, HostAction, ServiceContext, ServiceState, ServiceStatusRecord, StatusReport,
    ACCEPT_STOP, CONTROL_INTERROGATE, CONTROL_STOP, NO_ERROR, SERVICE_TYPE_OWN_PROCESS,
    WAIT_SIGNALED, WAIT_TIMEOUT,
};
use service_shutdown::stop_signal::{StopSignal, WaitOutcome};

fn report(state: u32, accepted: u32, checkpoint: u32, wait_hint_ms: u32) -> StatusReport {
    StatusReport {
        service_type: 80,
        current_state: state,
        controls_accepted: accepted,
        win32_exit_code: 0,
        service_specific_exit_code: 0,
        checkpoint,
        wait_hint_ms,
    }
}

fn running() -> ServiceContext {
    let mut ctx = ServiceContext::new();
    assert!(ctx.on_registration(true).is_ok());
    ctx.on_initialized();
    ctx
}

#[test]
fn protocol_numbers() {
    assert_eq!(SERVICE_TYPE_OWN_PROCESS, 0x50);
    assert_eq!(ACCEPT_STOP, 1);
    assert_eq!(NO_ERROR, 0);
    assert_eq!(CONTROL_STOP, 1);
    assert_eq!(CONTROL_INTERROGATE, 4);
    assert_eq!(WAIT_SIGNALED, 0);
    assert_eq!(WAIT_TIMEOUT, 258);
    assert_eq!(ServiceState::Stopped.code(), 1);
    assert_eq!(ServiceState::StartPending.code(), 2);
    assert_eq!(ServiceState::StopPending.code(), 3);
    assert_eq!(ServiceState::Running.code(), 4);
}

#[test]
fn stop_is_accepted_while_running_and_while_stopping() {
    assert_eq!(ServiceState::StartPending.accepted_controls(), 0);
    assert_eq!(ServiceState::Running.accepted_controls(), 1);
    assert_eq!(ServiceState::StopPending.accepted_controls(), 1);
    assert_eq!(ServiceState::Stopped.accepted_controls(), 0);
}

#[test]
fn record_report_carries_every_field() {
    let rec = ServiceStatusRecord {
        state: ServiceState::StopPending,
        checkpoint: 7,
        wait_hint_ms: 10_000,
    };
    assert_eq!(rec.report(), report(3, 1, 7, 10_000));
    let rec = ServiceStatusRecord { state: ServiceState::Stopped, checkpoint: 0, wait_hint_ms: 0 };
    assert_eq!(rec.report(), report(1, 0, 0, 0));
}

#[test]
fn new_context_has_no_record() {
    let ctx = ServiceContext::new();
    assert_eq!(ctx.record(), None);
    assert_eq!(ctx.report_status(), None);
    let ctx = ServiceContext::default();
    assert_eq!(ctx.record(), None);
}

#[test]
fn policy_needs_a_cadence_below_the_wait_hint() {
    assert!(ServiceContext::with_policy(3_000, 10_000, 100).is_some());
    assert!(ServiceContext::with_policy(0, 1, 0).is_some());
    assert!(ServiceContext::with_policy(3_000, 100, 100).is_none());
    assert!(ServiceContext::with_policy(3_000, 100, 200).is_none());
    assert!(ServiceContext::with_policy(3_000, 0, 0).is_none());
}

#[test]
fn registration_reports_start_pending() {
    let mut ctx = ServiceContext::new();
    let step = ctx.on_registration(true).unwrap();
    assert_eq!(step.actions, vec![HostAction::Report(report(2, 0, 0, 3_000))]);
    assert!(step.woken.is_empty());
    assert_eq!(
        ctx.record(),
        Some(ServiceStatusRecord {
            state: ServiceState::StartPending,
            checkpoint: 0,
            wait_hint_ms: 3_000,
        })
    );
}

#[test]
fn refused_registration_is_fatal_and_starts_nothing() {
    let mut ctx = ServiceContext::new();
    assert!(matches!(ctx.on_registration(false), Err(StartupError::Registration)));
    assert_eq!(ctx.record(), None);
    assert!(ctx.on_initialized().actions.is_empty());
    assert!(ctx.on_finished().actions.is_empty());
    assert!(ctx.close());
    assert!(!ctx.close());
}

#[test]
fn second_registration_answer_changes_nothing() {
    let mut ctx = ServiceContext::new();
    ctx.on_registration(true).unwrap();
    let again = ctx.on_registration(false).unwrap();
    assert!(again.actions.is_empty());
    assert_eq!(ctx.record().unwrap().state, ServiceState::StartPending);
}

#[test]
fn initialized_reports_running_and_starts_the_workload() {
    let mut ctx = ServiceContext::new();
    ctx.on_registration(true).unwrap();
    let step = ctx.on_initialized();
    assert_eq!(
        step.actions,
        vec![HostAction::Report(report(4, 1, 0, 0)), HostAction::StartWorkload]
    );
    assert!(ctx.on_initialized().actions.is_empty());
}

#[test]
fn stop_while_running_reports_stop_pending_and_requests_the_stop() {
    let mut ctx = running();
    let mut stop = StopSignal::new();
    stop.wait(3);
    let step = service_handler(&mut ctx, &mut stop, CONTROL_STOP);
    assert_eq!(
        step.actions,
        vec![HostAction::Report(report(3, 1, 0, 10_000)), HostAction::BeatAfter(100)]
    );
    assert_eq!(step.woken, vec![3]);
    assert!(stop.is_triggered());
    assert_eq!(ctx.record().unwrap().state, ServiceState::StopPending);
}

#[test]
fn stop_reports_count_up_and_end_in_one_stopped_report() {
    let mut ctx = running();
    let mut stop = StopSignal::new();
    let mut reports: Vec<StatusReport> = Vec::new();
    let mut collect = |actions: &Vec<HostAction>| {
        for a in actions {
            if let HostAction::Report(r) = a {
                reports.push(*r);
            }
        }
    };
    collect(&service_handler(&mut ctx, &mut stop, CONTROL_STOP).actions);
    for _ in 0..4 {
        let step = ctx.on_heartbeat(WAIT_TIMEOUT);
        assert_eq!(step.actions.len(), 2);
        assert_eq!(step.actions[1], HostAction::BeatAfter(100));
        collect(&step.actions);
    }
    assert!(ctx.on_heartbeat(WAIT_SIGNALED).actions.is_empty());
    collect(&ctx.on_finished().actions);
    collect(&ctx.on_heartbeat(WAIT_TIMEOUT).actions);
    collect(&ctx.on_finished().actions);
    assert_eq!(
        reports,
        vec![
            report(3, 1, 0, 10_000),
            report(3, 1, 1, 10_000),
            report(3, 1, 2, 10_000),
            report(3, 1, 3, 10_000),
            report(3, 1, 4, 10_000),
            report(1, 0, 0, 0),
        ]
    );
    for pair in reports[..5].windows(2) {
        assert!(pair[0].checkpoint < pair[1].checkpoint);
        assert!(100 < pair[1].wait_hint_ms);
    }
}

#[test]
fn heartbeat_outside_stop_pending_waits_again_without_a_report() {
    let mut ctx = running();
    assert_eq!(ctx.on_heartbeat(WAIT_TIMEOUT).actions, vec![HostAction::BeatAfter(100)]);
    assert_eq!(
        ctx.record(),
        Some(ServiceStatusRecord { state: ServiceState::Running, checkpoint: 0, wait_hint_ms: 0 })
    );
    let mut fresh = ServiceContext::new();
    assert_eq!(fresh.on_heartbeat(WAIT_TIMEOUT).actions, vec![HostAction::BeatAfter(100)]);
    assert_eq!(fresh.record(), None);
    assert!(fresh.on_heartbeat(WAIT_SIGNALED).actions.is_empty());
}

#[test]
fn failed_wait_ends_the_heartbeat() {
    let mut ctx = running();
    let mut stop = StopSignal::new();
    service_handler(&mut ctx, &mut stop, CONTROL_STOP);
    assert!(ctx.on_heartbeat(0xFFFF_FFFF).actions.is_empty());
    assert_eq!(ctx.record().unwrap().checkpoint, 0);
}

#[test]
fn second_stop_does_not_restart_the_count() {
    let mut ctx = running();
    let mut stop = StopSignal::new();
    service_handler(&mut ctx, &mut stop, CONTROL_STOP);
    ctx.on_heartbeat(WAIT_TIMEOUT);
    ctx.on_heartbeat(WAIT_TIMEOUT);
    let again = service_handler(&mut ctx, &mut stop, CONTROL_STOP);
    assert_eq!(again.actions, vec![HostAction::BeatAfter(100)]);
    assert!(again.woken.is_empty());
    assert_eq!(ctx.record().unwrap().checkpoint, 2);
    assert_eq!(ctx.record().unwrap().state, ServiceState::StopPending);
}

#[test]
fn stop_control_requests_the_stop_before_the_registration() {
    let mut stop = StopSignal::new();
    stop.wait(7);
    let mut ctx = ServiceContext::new();
    let step = service_handler(&mut ctx, &mut stop, CONTROL_STOP);
    assert_eq!(step.woken, vec![7]);
    assert_eq!(step.actions, vec![HostAction::BeatAfter(100)]);
    assert!(stop.is_triggered());
    assert_eq!(ctx.record(), None);
}

#[test]
fn stop_control_while_starting_enters_stop_pending() {
    let mut stop = StopSignal::new();
    stop.wait(7);
    let mut ctx = ServiceContext::new();
    ctx.on_registration(true).unwrap();
    let step = service_handler(&mut ctx, &mut stop, CONTROL_STOP);
    assert_eq!(step.woken, vec![7]);
    assert_eq!(
        step.actions,
        vec![HostAction::Report(report(3, 1, 0, 10_000)), HostAction::BeatAfter(100)]
    );
    assert!(stop.is_triggered());
    assert_eq!(
        ctx.on_heartbeat(WAIT_TIMEOUT).actions,
        vec![HostAction::Report(report(3, 1, 1, 10_000)), HostAction::BeatAfter(100)]
    );
    // The workload is started all the same, and the status does not go back.
    assert_eq!(ctx.on_initialized().actions, vec![HostAction::StartWorkload]);
    assert!(ctx.on_initialized().actions.is_empty());
    assert_eq!(ctx.record().unwrap().state, ServiceState::StopPending);
    assert_eq!(ctx.on_finished().actions, vec![HostAction::Report(report(1, 0, 0, 0))]);
}

#[test]
fn stop_control_after_stopped_requests_the_stop_and_reports_nothing() {
    let mut stop = StopSignal::new();
    stop.wait(7);
    let mut ctx = running();
    ctx.on_finished();
    let step = service_handler(&mut ctx, &mut stop, CONTROL_STOP);
    assert_eq!(step.woken, vec![7]);
    assert_eq!(step.actions, vec![HostAction::BeatAfter(100)]);
    assert!(stop.is_triggered());
    assert_eq!(ctx.record().unwrap().state, ServiceState::Stopped);
    assert_eq!(ctx.on_heartbeat(WAIT_TIMEOUT).actions, vec![HostAction::BeatAfter(100)]);
    assert!(ctx.on_initialized().actions.is_empty());
}

#[test]
fn stop_control_delivered_many_times_requests_the_stop_once() {
    for state in 0..4 {
        let mut ctx = ServiceContext::new();
        if state >= 1 {
            ctx.on_registration(true).unwrap();
        }
        if state >= 2 {
            ctx.on_initialized();
        }
        if state >= 3 {
            ctx.on_finished();
        }
        let mut stop = StopSignal::new();
        stop.wait(1);
        stop.wait(2);
        let mut released: Vec<u64> = Vec::new();
        let mut effective = 0;
        for _ in 0..5 {
            let was_triggered = stop.is_triggered();
            let step = service_handler(&mut ctx, &mut stop, CONTROL_STOP);
            released.extend(step.woken);
            assert!(stop.is_triggered());
            if !was_triggered {
                effective += 1;
            }
            assert_eq!(step.actions.last(), Some(&HostAction::BeatAfter(100)));
        }
        assert_eq!(effective, 1);
        assert_eq!(released, vec![1, 2]);
    }
}

#[test]
fn stop_control_after_another_trigger_releases_nobody() {
    let mut ctx = running();
    let mut stop = StopSignal::new();
    stop.wait(1);
    assert_eq!(stop.fire(), vec![1]);
    let step = service_handler(&mut ctx, &mut stop, CONTROL_STOP);
    assert!(step.woken.is_empty());
    assert!(stop.is_triggered());
    assert_eq!(ctx.record().unwrap().state, ServiceState::StopPending);
}

#[test]
fn interrogate_reports_the_current_status_once_in_every_state() {
    let mut stop = StopSignal::new();
    let mut ctx = ServiceContext::new();
    ctx.on_registration(true).unwrap();
    let expect = |ctx: &mut ServiceContext, stop: &mut StopSignal, r: StatusReport| {
        let before = ctx.record();
        let step = service_handler(ctx, stop, CONTROL_INTERROGATE);
        assert_eq!(step.actions, vec![HostAction::Report(r)]);
        assert!(step.woken.is_empty());
        assert_eq!(ctx.record(), before);
        assert_eq!(ctx.report_status(), Some(r));
    };
    expect(&mut ctx, &mut stop, report(2, 0, 0, 3_000));
    ctx.on_initialized();
    expect(&mut ctx, &mut stop, report(4, 1, 0, 0));
    assert!(!stop.is_triggered());
    service_handler(&mut ctx, &mut stop, CONTROL_STOP);
    ctx.on_heartbeat(WAIT_TIMEOUT);
    expect(&mut ctx, &mut stop, report(3, 1, 1, 10_000));
    ctx.on_finished();
    expect(&mut ctx, &mut stop, report(1, 0, 0, 0));
}

#[test]
fn interrogate_before_registration_reports_nothing() {
    let mut stop = StopSignal::new();
    let mut ctx = ServiceContext::new();
    assert!(service_handler(&mut ctx, &mut stop, CONTROL_INTERROGATE).actions.is_empty());
}

#[test]
fn other_controls_are_ignored() {
    let mut ctx = running();
    let mut stop = StopSignal::new();
    for ctrl in [0u32, 2, 3, 5, 15, 0xFFFF_FFFF] {
        let step = service_handler(&mut ctx, &mut stop, ctrl);
        assert!(step.actions.is_empty());
        assert!(step.woken.is_empty());
    }
    assert_eq!(ctx.record().unwrap().state, ServiceState::Running);
    assert!(!stop.is_triggered());
}

#[test]
fn workload_ending_by_itself_goes_straight_to_stopped() {
    let mut ctx = running();
    let step = ctx.on_finished();
    assert_eq!(step.actions, vec![HostAction::Report(report(1, 0, 0, 0))]);
    assert_eq!(ctx.record().unwrap().state, ServiceState::Stopped);
}

#[test]
fn custom_policy_shows_in_the_reports() {
    let mut ctx = ServiceContext::with_policy(500, 2_000, 250).unwrap();
    let mut stop = StopSignal::new();
    let step = ctx.on_registration(true).unwrap();
    assert_eq!(step.actions, vec![HostAction::Report(report(2, 0, 0, 500))]);
    ctx.on_initialized();
    let step = service_handler(&mut ctx, &mut stop, CONTROL_STOP);
    assert_eq!(
        step.actions,
        vec![HostAction::Report(report(3, 1, 0, 2_000)), HostAction::BeatAfter(250)]
    );
}

#[test]
fn close_releases_the_event_exactly_once() {
    let mut ctx = running();
    ctx.on_finished();
    assert!(ctx.close());
    assert!(!ctx.close());
    assert!(!ctx.close());
}

#[test]
fn test_stop_signals_notify_and_event() {
    // A waiter is parked on the stop signal of a new context; the stop
    // control releases it; the waiter sets the stop event, which ends the
    // wait of the handler.
    let mut ctx = ServiceContext::new();
    let mut stop = StopSignal::new();
    assert_eq!(stop.wait(1), WaitOutcome::Parked);

    let step = service_handler(&mut ctx, &mut stop, CONTROL_STOP);
    assert_eq!(step.woken, vec![1]);
    assert!(stop.is_triggered());
    assert_eq!(step.actions, vec![HostAction::BeatAfter(100)]);
    assert_eq!(ctx.on_heartbeat(WAIT_TIMEOUT).actions, vec![HostAction::BeatAfter(100)]);

    // We only reach here if stop is called
    if !ctx.on_heartbeat(WAIT_SIGNALED).actions.is_empty() {
        panic!("Stop event was not signaled");
    }

    assert!(ctx.close());
}
