use std::time::Instant;

use nix::fcntl::OFlag;
use nix::poll::{poll, PollFd, PollFlags};
use nix::unistd::pipe2;

use oikos::duration::Duration;
use oikos::evdev::{Error as EvdevError, KeyDevice};
use oikos::keycode::KeyCode;
use oikos::sleep::{Sleeper, WakeupReason};
use oikos::timer::Timer;

fn press_record(code: u16) -> [u8; 24] {
    let mut b = [0u8; 24];
    b[16] = 1; // key event type
    b[18] = (code & 0xff) as u8;
    b[19] = (code >> 8) as u8;
    b[20] = 1; // press
    b
}

#[test]
fn interval_tick_after_the_configured_duration() {
    // A sleeper with no key devices and suspend off returns a tick,
    // and not before the interval elapsed.
    let timer = Timer::monotonic().expect("timerfd");
    let sleeper = Sleeper::new(Duration::from_secs(5), timer);
    let start = Instant::now();
    let reason = sleeper.wait().expect("wait");
    assert_eq!(reason, WakeupReason::IntervalTick);
    assert!(start.elapsed() >= std::time::Duration::from_millis(4900));
}

#[test]
fn injected_press_ends_the_wait_early() {
    // One key device filtered to code 102; a press arrives while the
    // interval timer still has almost a minute to go.
    let timer = Timer::monotonic().expect("timerfd");
    let mut sleeper = Sleeper::new(Duration::from_secs(60), timer);
    let (r, w) = pipe2(OFlag::O_NONBLOCK).expect("pipe");
    sleeper.wakeup_keys(vec![KeyDevice::from_parts(r, vec![KeyCode(102)])]);
    nix::unistd::write(w, &press_record(102)).expect("inject");
    let start = Instant::now();
    let reason = sleeper.wait().expect("wait");
    assert_eq!(reason, WakeupReason::ExitKeyPressed(KeyCode(102)));
    assert!(start.elapsed() < std::time::Duration::from_secs(5));
}

#[test]
fn non_matching_presses_are_drained_without_waking() {
    let timer = Timer::monotonic().expect("timerfd");
    let mut sleeper = Sleeper::new(Duration::from_secs(2), timer);
    let (r, w) = pipe2(OFlag::O_NONBLOCK).expect("pipe");
    sleeper.wakeup_keys(vec![KeyDevice::from_parts(r, vec![KeyCode(102)])]);
    // A release of 102 and a press of another key: neither may end the
    // wait, so the interval tick does.
    nix::unistd::write(w, &{
        let mut b = press_record(102);
        b[20] = 0;
        b
    })
    .expect("inject release");
    nix::unistd::write(w, &press_record(30)).expect("inject foreign press");
    let reason = sleeper.wait().expect("wait");
    assert_eq!(reason, WakeupReason::IntervalTick);
}

#[test]
fn simultaneous_timer_and_key_readiness_returns_the_tick() {
    // Arm the interval alarm directly, let it expire, and queue a
    // matching press: at the first readiness block both are ready, and
    // the timer stands first in the wait set.
    let timer = Timer::monotonic().expect("timerfd");
    let mut sleeper = Sleeper::new(Duration::from_secs(60), Timer::monotonic().expect("timerfd"));
    let (r, w) = pipe2(OFlag::O_NONBLOCK).expect("pipe");
    sleeper.wakeup_keys(vec![KeyDevice::from_parts(r, vec![KeyCode(102)])]);
    nix::unistd::write(w, &press_record(102)).expect("inject");
    let alarm = timer.set(&Duration::from_secs(1)).expect("arm");
    nix::unistd::sleep(2);
    let reason = sleeper.wait_armed(&alarm).expect("wait");
    assert_eq!(reason, WakeupReason::IntervalTick);
    alarm.unset().expect("disarm");
}

#[test]
fn a_fresh_alarm_carries_no_residual_programming() {
    // Arm for one second, disarm, arm for three: the second alarm must
    // not fire after one second.
    let timer = Timer::monotonic().expect("timerfd");
    let first = timer.set(&Duration::from_secs(1)).expect("arm");
    first.unset().expect("disarm");
    let second = timer.set(&Duration::from_secs(3)).expect("rearm");
    let start = Instant::now();
    let mut fds = [PollFd::new(second.as_raw_fd(), PollFlags::POLLIN)];
    let n = poll(&mut fds, 1500).expect("poll");
    assert_eq!(n, 0, "no residual firing from the first alarm");
    let n = poll(&mut fds, -1).expect("poll");
    assert_eq!(n, 1);
    assert!(start.elapsed() >= std::time::Duration::from_millis(2900));
    second.wait().expect("drain");
    second.unset().expect("disarm");
}

#[test]
fn reads_report_no_event_on_an_empty_queue() {
    let (r, _w) = pipe2(OFlag::O_NONBLOCK).expect("pipe");
    let d = KeyDevice::from_parts(r, vec![KeyCode(102)]);
    assert!(matches!(d.next_key_press(), Ok(None)));
}

#[test]
fn presses_are_read_and_filtered_from_the_descriptor() {
    let (r, w) = pipe2(OFlag::O_NONBLOCK).expect("pipe");
    let d = KeyDevice::from_parts(r, vec![KeyCode(102)]);
    nix::unistd::write(w, &press_record(30)).expect("inject");
    nix::unistd::write(w, &press_record(102)).expect("inject");
    assert!(matches!(d.next_key_press(), Ok(Some(KeyCode(102)))));
    assert!(matches!(d.next_key_press(), Ok(None)));
}

#[test]
fn a_short_record_is_an_unexpected_end_of_data() {
    let (r, w) = pipe2(OFlag::O_NONBLOCK).expect("pipe");
    let d = KeyDevice::from_parts(r, vec![KeyCode(102)]);
    nix::unistd::write(w, &[1u8, 2, 3]).expect("inject");
    assert!(matches!(d.next_key_press(), Err(EvdevError::UnexpectedEof)));
}

#[test]
fn a_failing_descriptor_is_an_os_error() {
    let d = KeyDevice::from_parts(-1, vec![KeyCode(102)]);
    assert!(matches!(d.next_key_press(), Err(EvdevError::OsError(_))));
}

#[test]
fn a_device_with_a_known_descriptor_replaces_the_earlier_entry() {
    let timer = Timer::monotonic().expect("timerfd");
    let mut sleeper = Sleeper::new(Duration::from_secs(60), timer);
    let (r, w) = pipe2(OFlag::O_NONBLOCK).expect("pipe");
    sleeper.wakeup_keys(vec![KeyDevice::from_parts(r, vec![KeyCode(102)])]);
    sleeper.wakeup_keys(vec![KeyDevice::from_parts(r, vec![KeyCode(116)])]);
    // Only the replacement's filter applies: a press of the first
    // registration's key no longer wakes, the new one does.
    nix::unistd::write(w, &press_record(102)).expect("inject");
    nix::unistd::write(w, &press_record(116)).expect("inject");
    let reason = sleeper.wait().expect("wait");
    assert_eq!(reason, WakeupReason::ExitKeyPressed(KeyCode(116)));
}
