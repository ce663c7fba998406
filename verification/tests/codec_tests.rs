//! Tests for the hex-text frame codec and the view-state helpers.

use flight_tracker::avr::{format_avr, parse_avr};
use flight_tracker::message::DecodeError;
use flight_tracker::ui::{next_row_index, previous_row_index, TabsState};

#[test]
fn test_parse_avr() {
    let v = vec![141, 164, 109, 79, 153, 21, 88, 24, 168, 4, 64, 117, 211, 43];
    assert_eq!(parse_avr("*8DA46D4F99155818A8044075D32B;"), Ok(v));
}

#[test]
fn parse_avr_lower_case_digits() {
    assert_eq!(parse_avr("*8da4;"), Ok(vec![0x8d, 0xa4]));
}

#[test]
fn parse_avr_empty_payload() {
    assert_eq!(parse_avr("*;"), Ok(vec![]));
}

#[test]
fn parse_avr_rejects_short_frame() {
    assert_eq!(parse_avr(""), Err(DecodeError::MalformedHex));
    assert_eq!(parse_avr("*"), Err(DecodeError::MalformedHex));
}

#[test]
fn parse_avr_rejects_odd_payload() {
    assert_eq!(parse_avr("*8DA;"), Err(DecodeError::MalformedHex));
}

#[test]
fn parse_avr_rejects_non_hex_payload() {
    assert_eq!(parse_avr("*8G;"), Err(DecodeError::MalformedHex));
}

#[test]
fn format_avr_known_value() {
    let v = vec![141, 164, 109, 79, 153, 21, 88, 24, 168, 4, 64, 117, 211, 43];
    assert_eq!(format_avr(&v), "*8DA46D4F99155818A8044075D32B;".to_string());
}

#[test]
fn format_then_parse_round_trip() {
    let cases: Vec<Vec<u8>> = vec![
        vec![],
        vec![0],
        vec![255],
        vec![141, 164, 109, 79, 153, 21, 88, 24, 168, 4, 64, 117, 211, 43],
        (0u8..=255).collect(),
    ];
    for bytes in cases {
        let text = format_avr(&bytes);
        assert_eq!(parse_avr(&text), Ok(bytes));
    }
}

#[test]
fn tabs_wrap_around() {
    let mut tabs = TabsState::new(vec!["Tab0", "Tab1"]);
    assert_eq!(tabs.index, 0);
    tabs.next();
    assert_eq!(tabs.index, 1);
    tabs.next();
    assert_eq!(tabs.index, 0);
    tabs.previous();
    assert_eq!(tabs.index, 1);
    tabs.previous();
    assert_eq!(tabs.index, 0);
}

#[test]
fn row_selection_wraps() {
    assert_eq!(next_row_index(None, 3), 0);
    assert_eq!(next_row_index(Some(0), 3), 1);
    assert_eq!(next_row_index(Some(2), 3), 0);
    assert_eq!(previous_row_index(None, 3), 0);
    assert_eq!(previous_row_index(Some(2), 3), 1);
    assert_eq!(previous_row_index(Some(0), 3), 2);
}
