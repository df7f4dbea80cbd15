use service_shutdown::stop_signal::{StopSignal, WaitOutcome};

#[test]
fn new_signal_is_not_triggered() {
    let s = StopSignal::new();
    assert!(!s.is_triggered());
    assert_eq!(s.waiting(), 0);
}

#[test]
fn wait_before_trigger_parks_the_waiter() {
    let mut s = StopSignal::new();
    assert_eq!(s.wait(1), WaitOutcome::Parked);
    assert_eq!(s.wait(2), WaitOutcome::Parked);
    assert_eq!(s.waiting(), 2);
    assert!(s.is_registered(1));
    assert!(s.is_registered(2));
    assert!(!s.is_registered(3));
}

#[test]
fn a_waiter_is_registered_once() {
    let mut s = StopSignal::new();
    assert_eq!(s.wait(5), WaitOutcome::Parked);
    assert_eq!(s.wait(5), WaitOutcome::Parked);
    assert_eq!(s.waiting(), 1);
    assert_eq!(s.trigger(), Some(vec![5]));
}

#[test]
fn trigger_releases_every_waiter_in_order() {
    let mut s = StopSignal::new();
    s.wait(30);
    s.wait(10);
    s.wait(20);
    assert_eq!(s.trigger(), Some(vec![30, 10, 20]));
    assert!(s.is_triggered());
    assert_eq!(s.waiting(), 0);
}

#[test]
fn trigger_without_waiters_is_still_effective() {
    let mut s = StopSignal::new();
    assert_eq!(s.trigger(), Some(vec![]));
    assert!(s.is_triggered());
}

#[test]
fn only_the_first_trigger_has_an_effect() {
    let mut s = StopSignal::new();
    s.wait(1);
    let mut effective = 0;
    for _ in 0..5 {
        if s.trigger().is_some() {
            effective += 1;
        }
        assert!(s.is_triggered());
    }
    assert_eq!(effective, 1);
}

#[test]
fn wait_after_trigger_is_ready_and_registers_nothing() {
    let mut s = StopSignal::new();
    s.trigger();
    assert_eq!(s.wait(1), WaitOutcome::Ready);
    assert_eq!(s.wait(2), WaitOutcome::Ready);
    assert_eq!(s.waiting(), 0);
    assert!(!s.is_registered(1));
    assert_eq!(s.trigger(), None);
    assert_eq!(s.wait(3), WaitOutcome::Ready);
}

#[test]
fn forget_takes_one_waiter_off() {
    let mut s = StopSignal::new();
    s.wait(1);
    s.wait(2);
    s.wait(3);
    assert!(s.forget(2));
    assert!(!s.forget(2));
    assert!(!s.forget(9));
    assert_eq!(s.waiting(), 2);
    assert_eq!(s.trigger(), Some(vec![1, 3]));
}

#[test]
fn forget_after_trigger_changes_nothing() {
    let mut s = StopSignal::new();
    s.wait(1);
    s.trigger();
    assert!(!s.forget(1));
    assert!(s.is_triggered());
}

#[test]
fn a_forgotten_waiter_can_register_again() {
    let mut s = StopSignal::new();
    s.wait(1);
    s.wait(2);
    s.forget(1);
    assert_eq!(s.wait(1), WaitOutcome::Parked);
    assert_eq!(s.trigger(), Some(vec![2, 1]));
}

#[test]
fn fire_releases_everybody_once() {
    let mut s = StopSignal::new();
    s.wait(4);
    s.wait(6);
    assert_eq!(s.fire(), vec![4, 6]);
    assert!(s.is_triggered());
    assert_eq!(s.fire(), Vec::<u64>::new());
    assert!(s.is_triggered());
    assert_eq!(s.waiting(), 0);
}
