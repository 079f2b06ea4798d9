use oikos::keycode::{KeyCode, ParseKeyCodeError};

#[test]
fn parse_symbolic_names() {
    assert_eq!(KeyCode::parse("KEY_HOME").unwrap(), KeyCode(102));
    assert_eq!(KeyCode::parse("KEY_ESC").unwrap(), KeyCode(1));
    assert_eq!(KeyCode::parse("KEY_ENTER").unwrap(), KeyCode(28));
    assert_eq!(KeyCode::parse("KEY_POWER").unwrap(), KeyCode(116));
    assert_eq!(KeyCode::parse("KEY_BACK").unwrap(), KeyCode(158));
    assert_eq!(KeyCode::parse("KEY_PAGEDOWN").unwrap(), KeyCode(109));
}

#[test]
fn parse_numeric_codes() {
    assert_eq!(KeyCode::parse("102").unwrap(), KeyCode(102));
    assert_eq!(KeyCode::parse("0").unwrap(), KeyCode(0));
    assert_eq!(KeyCode::parse("0102").unwrap(), KeyCode(102));
    assert_eq!(KeyCode::parse("65535").unwrap(), KeyCode(65535));
}

#[test]
fn parse_rejects_unknown_text() {
    assert!(matches!(KeyCode::parse("KEY_NOPE"), Err(ParseKeyCodeError)));
    assert!(matches!(KeyCode::parse(""), Err(ParseKeyCodeError)));
    assert!(matches!(KeyCode::parse("12a"), Err(ParseKeyCodeError)));
    assert!(matches!(KeyCode::parse("65536"), Err(ParseKeyCodeError)));
    assert!(matches!(KeyCode::parse("key_home"), Err(ParseKeyCodeError)));
}

#[test]
fn names_invert_parsing() {
    let mut named = 0;
    for code in 0..768u16 {
        if let Some(name) = KeyCode(code).name() {
            assert_eq!(KeyCode::parse(name).unwrap(), KeyCode(code));
            named += 1;
        }
    }
    assert_eq!(named, 130);
    assert!(KeyCode(250).name().is_none());
}

#[test]
fn media_and_button_names_parse() {
    assert_eq!(KeyCode::parse("KEY_VOLUMEDOWN").unwrap(), KeyCode(114));
    assert_eq!(KeyCode::parse("KEY_VOLUMEUP").unwrap(), KeyCode(115));
    assert_eq!(KeyCode::parse("KEY_MUTE").unwrap(), KeyCode(113));
    assert_eq!(KeyCode::parse("KEY_F12").unwrap(), KeyCode(88));
    assert_eq!(KeyCode::parse("KEY_A").unwrap(), KeyCode(30));
    assert_eq!(KeyCode::parse("BTN_LEFT").unwrap(), KeyCode(272));
    assert_eq!(KeyCode(225).name(), Some("KEY_BRIGHTNESSUP"));
}

#[test]
fn code_accessors() {
    let k = KeyCode::from(42u16);
    assert_eq!(k.code(), 42);
    assert_eq!(KeyCode::COUNT, 768);
}

#[test]
fn codes_order_by_raw_value() {
    assert!(KeyCode(1) < KeyCode(102));
    assert!(KeyCode(102) <= KeyCode(102));
    assert!(KeyCode(158) > KeyCode(116));
    let mut v = vec![KeyCode(158), KeyCode(1), KeyCode(102)];
    v.sort();
    assert_eq!(v, vec![KeyCode(1), KeyCode(102), KeyCode(158)]);
}
