//! Marshaller tests: encoding text into zero-terminated wide units,
//! decoding wide results back, and the round trip between the two.

use mediainfo::CWcharString;

#[test]
fn encodes_with_terminating_zero() {
    let w = CWcharString::from_str("hi").unwrap();
    assert_eq!(w.n_chars, 2);
    assert_eq!(w.as_units().as_slice(), &[104u32, 105, 0]);
}

#[test]
fn encodes_the_empty_string() {
    let w = CWcharString::from_str("").unwrap();
    assert_eq!(w.n_chars, 0);
    assert_eq!(w.as_units().as_slice(), &[0u32]);
}

#[test]
fn encodes_beyond_ascii() {
    let w = CWcharString::from_str("né£").unwrap();
    assert_eq!(w.n_chars, 3);
    assert_eq!(w.as_units().as_slice(), &[110u32, 0xE9, 0xA3, 0]);
}

#[test]
fn rejects_embedded_nul() {
    assert!(CWcharString::from_str("a\u{0}b").is_err());
}

#[test]
fn decodes_up_to_the_first_zero() {
    let units: Vec<u32> = vec![104, 105, 0, 120, 121];
    let s = CWcharString::from_units_to_string(units.as_slice()).unwrap();
    assert_eq!(s, "hi");
}

#[test]
fn decodes_without_a_terminator() {
    let units: Vec<u32> = vec![65, 86, 67];
    let s = CWcharString::from_units_to_string(units.as_slice()).unwrap();
    assert_eq!(s, "AVC");
}

#[test]
fn rejects_a_surrogate_unit() {
    let units: Vec<u32> = vec![65, 0xD800, 66];
    assert!(CWcharString::from_units_to_string(units.as_slice()).is_err());
}

#[test]
fn rejects_a_unit_above_the_unicode_range() {
    let units: Vec<u32> = vec![0x110000];
    assert!(CWcharString::from_units_to_string(units.as_slice()).is_err());
}

#[test]
fn ignores_garbage_after_the_terminator() {
    let units: Vec<u32> = vec![104, 0, 0xD800];
    let s = CWcharString::from_units_to_string(units.as_slice()).unwrap();
    assert_eq!(s, "h");
}

#[test]
fn round_trip_restores_the_original_text() {
    let texts: Vec<&str> = vec!["", "a", "hello world", "Base Media / Version 2", "né£ — ≠"];
    for text in texts {
        let w = CWcharString::from_str(text).unwrap();
        let back = CWcharString::from_units_to_string(w.as_units().as_slice()).unwrap();
        assert_eq!(back, text);
    }
}
