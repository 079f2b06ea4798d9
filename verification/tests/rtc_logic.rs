use oikos::rtc::{
    alarm_fired, clock_mode_from_bytes, rtc_time, rtc_wkalrm, utc_wakeup_fields,
    wakeup_path_for, wakeup_reports_enabled, Error, RealTimeClockMode,
};

#[test]
fn clock_mode_reads_the_third_line() {
    assert_eq!(
        clock_mode_from_bytes(&b"0.0 0 0.0\n0\nUTC\n".to_vec()),
        RealTimeClockMode::Utc
    );
    assert_eq!(
        clock_mode_from_bytes(&b"0.0 0 0.0\n0\nLOCAL\n".to_vec()),
        RealTimeClockMode::Local
    );
    assert_eq!(
        clock_mode_from_bytes(&b"a\nb\nLOCAL\r\n".to_vec()),
        RealTimeClockMode::Local
    );
    assert_eq!(clock_mode_from_bytes(&b"a\nb\nLOCAL".to_vec()), RealTimeClockMode::Local);
}

#[test]
fn clock_mode_defaults_to_utc() {
    assert_eq!(clock_mode_from_bytes(&b"".to_vec()), RealTimeClockMode::Utc);
    assert_eq!(clock_mode_from_bytes(&b"a\nb\n".to_vec()), RealTimeClockMode::Utc);
    assert_eq!(clock_mode_from_bytes(&b"a\nb\nlocal\n".to_vec()), RealTimeClockMode::Utc);
    assert_eq!(clock_mode_from_bytes(&b"a\nb\nUTC2\n".to_vec()), RealTimeClockMode::Utc);
    assert_eq!(clock_mode_from_bytes(&b"UTC\nLOCAL\n\n".to_vec()), RealTimeClockMode::Utc);
}

#[test]
fn wakeup_attribute_must_read_enabled() {
    assert!(wakeup_reports_enabled(&b"enabled\n".to_vec()));
    assert!(wakeup_reports_enabled(&b"  enabled \n".to_vec()));
    assert!(!wakeup_reports_enabled(&b"disabled\n".to_vec()));
    assert!(!wakeup_reports_enabled(&b"enabled extra\n".to_vec()));
    assert!(!wakeup_reports_enabled(&b"".to_vec()));
}

#[test]
fn sysfs_wakeup_path_is_derived_from_the_device_name() {
    assert_eq!(
        wakeup_path_for(&b"/dev/rtc0".to_vec()),
        Some(b"/sys/class/rtc/rtc0/device/power/wakeup".to_vec())
    );
    assert_eq!(
        wakeup_path_for(&b"rtc1".to_vec()),
        Some(b"/sys/class/rtc/rtc1/device/power/wakeup".to_vec())
    );
    assert_eq!(wakeup_path_for(&b"/dev/".to_vec()), None);
    assert_eq!(wakeup_path_for(&b"".to_vec()), None);
}

#[test]
fn alarm_interrupt_bit() {
    assert!(alarm_fired(0x20));
    assert!(alarm_fired(0x21));
    assert!(alarm_fired(0xffff_ffff));
    assert!(!alarm_fired(0x10));
    assert!(!alarm_fired(0));
    assert!(!alarm_fired(0x40 | 0x80));
}

#[test]
fn alarm_records() {
    let t = rtc_time {
        tm_sec: 1,
        tm_min: 2,
        tm_hour: 3,
        tm_mday: 4,
        tm_mon: 5,
        tm_year: 70,
        tm_wday: -1,
        tm_yday: -1,
        tm_isdst: -1,
    };
    let armed = rtc_wkalrm::armed(t);
    assert_eq!(armed.enabled, 1);
    assert_eq!(armed.pending, 0);
    assert_eq!(armed.time, t);
    let off = armed.disarmed();
    assert_eq!(off.enabled, 0);
    assert_eq!(off.pending, 0);
    assert_eq!(off.time, t);
}

fn hw(year: i32, mon0: i32, mday: i32, h: i32, mi: i32, s: i32) -> rtc_time {
    rtc_time {
        tm_sec: s,
        tm_min: mi,
        tm_hour: h,
        tm_mday: mday,
        tm_mon: mon0,
        tm_year: year - 1900,
        tm_wday: -1,
        tm_yday: -1,
        tm_isdst: -1,
    }
}

#[test]
fn utc_wakeup_adds_whole_seconds() {
    // One minute past the epoch.
    let w = utc_wakeup_fields(hw(1970, 0, 1, 0, 0, 0), 60).unwrap();
    assert_eq!(w, hw(1970, 0, 1, 0, 1, 0));
    // Crossing midnight into a leap day.
    let w = utc_wakeup_fields(hw(2024, 1, 28, 23, 59, 30), 45).unwrap();
    assert_eq!(w, hw(2024, 1, 29, 0, 0, 15));
    // Crossing a year boundary.
    let w = utc_wakeup_fields(hw(2023, 11, 31, 23, 59, 59), 1).unwrap();
    assert_eq!(w, hw(2024, 0, 1, 0, 0, 0));
}

#[test]
fn utc_round_trip_preserves_the_instant() {
    // Reading the programmed fields back as a hardware time and adding
    // nothing reproduces them: the conversion is exact to the second.
    let now = hw(2038, 0, 19, 3, 14, 7);
    let w = utc_wakeup_fields(now, 0).unwrap();
    assert_eq!(w, now);
    let w2 = utc_wakeup_fields(w, 0).unwrap();
    assert_eq!(w2, w);
}

#[test]
fn utc_wakeup_rejects_bad_inputs() {
    assert!(matches!(
        utc_wakeup_fields(hw(1970, 12, 1, 0, 0, 0), 60),
        Err(Error::InvalidRTCTime)
    ));
    assert!(matches!(
        utc_wakeup_fields(hw(1970, 0, 0, 0, 0, 0), 60),
        Err(Error::InvalidRTCTime)
    ));
    assert!(matches!(
        utc_wakeup_fields(hw(2023, 1, 29, 0, 0, 0), 60),
        Err(Error::InvalidRTCTime)
    ));
    assert!(matches!(utc_wakeup_fields(hw(1970, 0, 1, 0, 0, 0), u64::MAX), Err(Error::TzError)));
    assert!(matches!(
        utc_wakeup_fields(hw(2099, 11, 31, 23, 59, 50), 60),
        Err(Error::TzError)
    ));
}
