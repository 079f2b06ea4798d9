use oikos::cal::{civil_from_unix, unix_from_civil, MAX_UNIX_TIME, MIN_UNIX_TIME};

#[test]
fn known_instants() {
    assert_eq!(unix_from_civil(1970, 1, 1, 0, 0, 0), Some(0));
    assert_eq!(unix_from_civil(2000, 1, 1, 0, 0, 0), Some(946684800));
    assert_eq!(unix_from_civil(2038, 1, 19, 3, 14, 7), Some(2147483647));
    assert_eq!(unix_from_civil(1900, 1, 1, 0, 0, 0), Some(MIN_UNIX_TIME));
    assert_eq!(unix_from_civil(2099, 12, 31, 23, 59, 59), Some(MAX_UNIX_TIME - 1));
}

#[test]
fn leap_year_rules() {
    // 1900 is no leap year, 2000 is, 2024 is.
    assert_eq!(unix_from_civil(1900, 2, 29, 0, 0, 0), None);
    assert!(unix_from_civil(2000, 2, 29, 0, 0, 0).is_some());
    assert!(unix_from_civil(2024, 2, 29, 0, 0, 0).is_some());
    assert_eq!(unix_from_civil(2023, 2, 29, 0, 0, 0), None);
}

#[test]
fn invalid_fields_are_refused() {
    assert_eq!(unix_from_civil(1970, 13, 1, 0, 0, 0), None);
    assert_eq!(unix_from_civil(1970, 0, 1, 0, 0, 0), None);
    assert_eq!(unix_from_civil(1970, 4, 31, 0, 0, 0), None);
    assert_eq!(unix_from_civil(1970, 1, 1, 24, 0, 0), None);
    assert_eq!(unix_from_civil(1970, 1, 1, 0, 60, 0), None);
    assert_eq!(unix_from_civil(1970, 1, 1, 0, 0, 60), None);
    assert_eq!(unix_from_civil(1899, 12, 31, 23, 59, 59), None);
    assert_eq!(unix_from_civil(2100, 1, 1, 0, 0, 0), None);
}

#[test]
fn instants_out_of_range_are_refused() {
    assert_eq!(civil_from_unix(MIN_UNIX_TIME - 1), None);
    assert_eq!(civil_from_unix(MAX_UNIX_TIME), None);
    assert!(civil_from_unix(MIN_UNIX_TIME).is_some());
    assert!(civil_from_unix(MAX_UNIX_TIME - 1).is_some());
}

#[test]
fn splitting_known_instants() {
    assert_eq!(civil_from_unix(0), Some((1970, 1, 1, 0, 0, 0)));
    assert_eq!(civil_from_unix(946684800), Some((2000, 1, 1, 0, 0, 0)));
    assert_eq!(civil_from_unix(2147483647), Some((2038, 1, 19, 3, 14, 7)));
    assert_eq!(civil_from_unix(86399), Some((1970, 1, 1, 23, 59, 59)));
}

#[test]
fn round_trips() {
    for &(y, m, d, h, mi, s) in [
        (1900, 1, 1, 0, 0, 0),
        (1969, 12, 31, 23, 59, 59),
        (1970, 1, 1, 0, 0, 1),
        (2000, 2, 29, 12, 0, 0),
        (2024, 6, 1, 12, 34, 56),
        (2099, 12, 31, 23, 59, 59),
    ]
    .iter()
    {
        let t = unix_from_civil(y, m, d, h, mi, s).expect("valid date");
        assert_eq!(civil_from_unix(t), Some((y, m, d, h, mi, s)));
    }
    for &t in [MIN_UNIX_TIME, -1, 0, 1, 951826154, MAX_UNIX_TIME - 1].iter() {
        let (y, m, d, h, mi, s) = civil_from_unix(t).expect("in range");
        assert_eq!(unix_from_civil(y, m, d, h, mi, s), Some(t));
    }
}
