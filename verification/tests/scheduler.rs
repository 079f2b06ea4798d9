use oikos::duration::Duration;
use oikos::keycode::KeyCode;
use oikos::sleep::{scan_decision, suspend_plan, Slot, SuspendPlan, WakeupReason};

#[test]
fn suspend_plan_cases() {
    assert_eq!(suspend_plan(false, &Duration::from_secs(0)), SuspendPlan::Skip);
    assert_eq!(suspend_plan(false, &Duration::from_secs(3)), SuspendPlan::Skip);
    // With a zero grace period, suspend is due before the first
    // readiness block.
    assert_eq!(suspend_plan(true, &Duration::from_secs(0)), SuspendPlan::Immediate);
    assert_eq!(suspend_plan(true, &Duration::new(0, 1)), SuspendPlan::AfterGrace);
    assert_eq!(suspend_plan(true, &Duration::from_secs(3)), SuspendPlan::AfterGrace);
}

#[test]
fn simultaneous_readiness_is_decided_by_wait_set_order() {
    // Interval timer and a key device ready at once: the timer stands
    // first in the wait set, so the tick wins, deterministically.
    let r = scan_decision(&vec![
        Slot::Alarm { ready: true },
        Slot::Key { ready: true, press: Some(102) },
    ]);
    assert_eq!(r.outcome, Some(WakeupReason::IntervalTick));
    let again = scan_decision(&vec![
        Slot::Alarm { ready: true },
        Slot::Key { ready: true, press: Some(102) },
    ]);
    assert_eq!(r, again);
}

#[test]
fn first_ready_key_with_a_press_wins() {
    let r = scan_decision(&vec![
        Slot::Alarm { ready: false },
        Slot::Key { ready: true, press: None },
        Slot::Key { ready: true, press: Some(116) },
        Slot::Key { ready: true, press: Some(102) },
    ]);
    assert_eq!(r.outcome, Some(WakeupReason::ExitKeyPressed(KeyCode(116))));
    assert!(!r.suspend_due);
}

#[test]
fn grace_fire_defers_to_suspend_without_returning() {
    let r = scan_decision(&vec![
        Slot::Alarm { ready: false },
        Slot::Key { ready: true, press: None },
        Slot::Grace { ready: true },
    ]);
    assert_eq!(r.outcome, None);
    assert!(r.suspend_due);
}

#[test]
fn nothing_ready_returns_nothing() {
    let r = scan_decision(&vec![
        Slot::Alarm { ready: false },
        Slot::Key { ready: false, press: None },
        Slot::Grace { ready: false },
    ]);
    assert_eq!(r.outcome, None);
    assert!(!r.suspend_due);
}

#[test]
fn grace_fire_before_a_tick_is_still_recorded() {
    let r = scan_decision(&vec![Slot::Grace { ready: true }, Slot::Alarm { ready: true }]);
    assert_eq!(r.outcome, Some(WakeupReason::IntervalTick));
    assert!(r.suspend_due);
}
