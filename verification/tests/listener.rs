use service_shutdown::listener::{ListenerEvent, ListenerVerdict, ProcessSignal};
use service_shutdown::runtime::AsyncService;
use service_shutdown::stop_signal::StopSignal;

#[test]
fn interrupt_requests_the_stop() {
    let mut stop = StopSignal::new();
    stop.wait(4);
    let step = AsyncService::signals(&mut stop, ListenerEvent::Signal(ProcessSignal::Interrupt));
    assert_eq!(step.verdict, ListenerVerdict::Exit);
    assert_eq!(step.woken, vec![4]);
    assert!(stop.is_triggered());
}

#[test]
fn terminate_requests_the_stop() {
    let mut stop = StopSignal::new();
    stop.wait(4);
    let step = AsyncService::signals(&mut stop, ListenerEvent::Signal(ProcessSignal::Terminate));
    assert_eq!(step.verdict, ListenerVerdict::Exit);
    assert_eq!(step.woken, vec![4]);
    assert!(stop.is_triggered());
}

#[test]
fn a_signal_after_the_stop_releases_nobody() {
    let mut stop = StopSignal::new();
    stop.trigger();
    let step = AsyncService::signals(&mut stop, ListenerEvent::Signal(ProcessSignal::Terminate));
    assert_eq!(step.verdict, ListenerVerdict::Exit);
    assert!(step.woken.is_empty());
    assert!(stop.is_triggered());
}

#[test]
fn listener_ends_when_the_stop_was_requested_elsewhere() {
    let mut stop = StopSignal::new();
    stop.trigger();
    let step = AsyncService::signals(&mut stop, ListenerEvent::StopObserved);
    assert_eq!(step.verdict, ListenerVerdict::Exit);
    assert!(step.woken.is_empty());
}

#[test]
fn listener_goes_on_after_a_wake_up_without_a_stop() {
    let mut stop = StopSignal::new();
    stop.wait(1);
    let step = AsyncService::signals(&mut stop, ListenerEvent::StopObserved);
    assert_eq!(step.verdict, ListenerVerdict::KeepListening);
    assert!(step.woken.is_empty());
    assert!(!stop.is_triggered());
    assert_eq!(stop.waiting(), 1);
}
