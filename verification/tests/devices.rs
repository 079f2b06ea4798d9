use oikos::bitset::BitSet;
use oikos::evdev::{
    decode_event, DeviceProbe, Error, InputEvent, KeyDevice, KeyDeviceBuilder, EVENT_RECORD_LEN,
};
use oikos::keycode::KeyCode;

fn key_bits_for(codes: &[u16]) -> BitSet {
    let mut bytes = vec![0u8; 96];
    for &c in codes {
        bytes[c as usize / 8] |= 1 << (c % 8);
    }
    BitSet::from_bytes(bytes)
}

fn event_bits_with_key() -> BitSet {
    // Bit 1 is the key-event capability.
    BitSet::from_bytes(vec![0b0000_0010, 0, 0, 0])
}

fn event_bits_without_key() -> BitSet {
    BitSet::from_bytes(vec![0b0000_0001, 0, 0, 0])
}

#[test]
fn bitset_bits() {
    let b = BitSet::from_bytes(vec![0b0000_0100, 0b1000_0000]);
    assert!(b.is_set(2));
    assert!(!b.is_set(3));
    assert!(b.is_set(15));
    assert!(!b.get(16));
    assert!(!b.get(5000));
    let z = BitSet::with_size(768);
    assert_eq!(z.len_bytes(), 97);
    assert!(!z.is_set(102));
}

#[test]
fn filter_is_intersection() {
    // Device supports 102 and 158; 103 is requested but unsupported.
    let requested = vec![KeyCode(102), KeyCode(103), KeyCode(158)];
    let d = KeyDevice::with_filter(5, &requested, &event_bits_with_key(), &key_bits_for(&[102, 158, 30]))
        .expect("device matches");
    assert_eq!(d.as_raw_fd(), 5);
    assert_eq!(d.next_key_press_in(&vec![press(103)]), None);
    assert_eq!(d.next_key_press_in(&vec![press(30)]), None);
    assert_eq!(d.next_key_press_in(&vec![press(102)]), Some(KeyCode(102)));
    assert_eq!(d.next_key_press_in(&vec![press(158)]), Some(KeyCode(158)));
}

#[test]
fn device_without_key_capability_is_discarded() {
    let requested = vec![KeyCode(102)];
    assert!(KeyDevice::with_filter(5, &requested, &event_bits_without_key(), &key_bits_for(&[102]))
        .is_none());
}

#[test]
fn empty_intersection_is_discarded() {
    let requested = vec![KeyCode(102)];
    assert!(KeyDevice::with_filter(5, &requested, &event_bits_with_key(), &key_bits_for(&[30]))
        .is_none());
}

fn press(code: u16) -> InputEvent {
    InputEvent { event_type: 1, code, value: 1 }
}

fn release(code: u16) -> InputEvent {
    InputEvent { event_type: 1, code, value: 0 }
}

fn motion(code: u16) -> InputEvent {
    InputEvent { event_type: 2, code, value: 1 }
}

#[test]
fn stream_scan_finds_first_filtered_press() {
    let d = KeyDevice::from_parts(3, vec![KeyCode(102), KeyCode(116)]);
    // Releases, foreign events and unfiltered presses are all skipped.
    let records = vec![release(102), motion(102), press(30), press(116), press(102)];
    assert_eq!(d.next_key_press_in(&records), Some(KeyCode(116)));
    // A repeat (value 2) counts as a press.
    let repeat = InputEvent { event_type: 1, code: 102, value: 2 };
    assert_eq!(d.next_key_press_in(&vec![repeat]), Some(KeyCode(102)));
}

#[test]
fn stream_scan_reports_no_event_exactly_when_nothing_matches() {
    let d = KeyDevice::from_parts(3, vec![KeyCode(102)]);
    assert_eq!(d.next_key_press_in(&vec![]), None);
    assert_eq!(d.next_key_press_in(&vec![release(102), motion(102), press(30)]), None);
    assert!(d.next_key_press_in(&vec![release(102), press(102)]).is_some());
}

#[test]
fn record_decoding_is_little_endian() {
    let mut b = vec![0u8; EVENT_RECORD_LEN];
    b[16] = 0x01;
    b[17] = 0x00;
    b[18] = 0x66;
    b[19] = 0x00;
    b[20] = 0x02;
    b[21] = 0x01;
    let e = decode_event(&b);
    assert_eq!(e.event_type, 1);
    assert_eq!(e.code, 102);
    assert_eq!(e.value, 0x0102);
    let mut neg = vec![0u8; EVENT_RECORD_LEN];
    neg[20] = 0xff;
    neg[21] = 0xff;
    neg[22] = 0xff;
    neg[23] = 0xff;
    assert_eq!(decode_event(&neg).value, -1);
}

#[test]
fn discovery_keeps_matching_devices_in_order() {
    let b = KeyDeviceBuilder::with_keys(vec![KeyCode(102), KeyCode(116)]);
    let probes = vec![
        DeviceProbe::Opened { fd: 3, event_bits: event_bits_without_key(), key_bits: key_bits_for(&[102]) },
        DeviceProbe::Opened { fd: 4, event_bits: event_bits_with_key(), key_bits: key_bits_for(&[102]) },
        DeviceProbe::Opened { fd: 5, event_bits: event_bits_with_key(), key_bits: key_bits_for(&[9]) },
        DeviceProbe::Opened { fd: 6, event_bits: event_bits_with_key(), key_bits: key_bits_for(&[116, 9]) },
    ];
    let devs = b.find_probed(probes).expect("two devices");
    assert_eq!(devs.len(), 2);
    assert_eq!(devs[0].as_raw_fd(), 4);
    assert_eq!(devs[1].as_raw_fd(), 6);
}

#[test]
fn discovery_fails_on_first_unopenable_path() {
    let b = KeyDeviceBuilder::with_keys(vec![KeyCode(102)]);
    let probes = vec![
        DeviceProbe::Opened { fd: 3, event_bits: event_bits_with_key(), key_bits: key_bits_for(&[102]) },
        DeviceProbe::OpenFailed(String::from("/dev/input/event1")),
    ];
    match b.find_probed(probes) {
        Err(Error::OpenError(p)) => assert_eq!(p, "/dev/input/event1"),
        other => panic!("expected an open error, got {:?}", other.is_ok()),
    }
}

#[test]
fn discovery_reports_no_input_devices() {
    // Zero matched paths.
    let b = KeyDeviceBuilder::with_keys(vec![KeyCode(102)]);
    assert!(matches!(b.find_probed(vec![]), Err(Error::NoInputDevicesFound)));
    // All matched devices filter to an empty key set.
    let b = KeyDeviceBuilder::with_keys(vec![KeyCode(102)]);
    let probes = vec![
        DeviceProbe::Opened { fd: 3, event_bits: event_bits_with_key(), key_bits: key_bits_for(&[9]) },
        DeviceProbe::Opened { fd: 4, event_bits: event_bits_without_key(), key_bits: key_bits_for(&[102]) },
    ];
    assert!(matches!(b.find_probed(probes), Err(Error::NoInputDevicesFound)));
}
