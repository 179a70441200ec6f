use demo_synth::header::{
    c_str_len, c_string_length, generic_property_present, header_field_present, header_source,
    resource_property_present, string_assign, HeaderSource,
};
use demo_synth::protocol::GENERIC_HEADER_COUNT;

#[test]
fn field_presence() {
    let f = [true, false, true];
    assert!(header_field_present(&f, 0));
    assert!(!header_field_present(&f, 1));
    assert!(header_field_present(&f, 2));
    assert!(!header_field_present(&f, 3));
    assert!(!header_field_present(&[], 0));
    assert!(generic_property_present(&f, 2));
}

#[test]
fn resource_fields_follow_generic_ones() {
    let mut f = vec![false; GENERIC_HEADER_COUNT + 4];
    f[GENERIC_HEADER_COUNT + 2] = true;
    assert!(resource_property_present(&f, 2));
    assert!(!header_field_present(&f, 2));
    assert!(!resource_property_present(&f, 4));
}

#[test]
fn header_sources() {
    assert!(matches!(header_source(true, None), HeaderSource::Existing));
    assert!(matches!(header_source(true, Some(false)), HeaderSource::Existing));
    assert!(matches!(header_source(false, Some(true)), HeaderSource::Allocate));
    assert!(matches!(header_source(false, Some(false)), HeaderSource::Unavailable));
    assert!(matches!(header_source(false, None), HeaderSource::Unavailable));
}

#[test]
fn c_strings() {
    assert_eq!(c_str_len(b"LPCM\0"), 4);
    assert_eq!(c_str_len(b"\0abc"), 0);
    assert_eq!(c_str_len(b"ab\0cd\0"), 2);
    assert_eq!(c_string_length(None), 0);
    assert_eq!(c_string_length(Some(b"David\0")), 5);
}

#[test]
fn string_assignment() {
    let a = string_assign(Some(b"LPCM\0"));
    assert_eq!(a.length, 4);
    assert!(a.copy);
    let a = string_assign(Some(b"\0"));
    assert_eq!(a.length, 0);
    assert!(!a.copy);
    let a = string_assign(None);
    assert_eq!(a.length, 0);
    assert!(!a.copy);
}
