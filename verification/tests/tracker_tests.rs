//! Tests for the tracker: statistics counters, the position merge engine,
//! windowed queries and throughput accounting.

use flight_tracker::format_avr;
use flight_tracker::message::{CprFragment, DecodeError, DecodedMessage, VerticalRateSource};
use flight_tracker::Tracker;

const IDENT_FRAME: &[u8] = b"\x8D\x48\x40\xD6\x20\x2C\xC3\x71\xC3\x2C\xE0\x57\x60\x98";
const EVEN_POS_FRAME: &[u8] = b"\x8D\x40\x62\x1D\x58\xC3\x82\xD6\x90\xC8\xAC\x28\x63\xA7";
const ODD_POS_FRAME: &[u8] = b"\x8D\x40\x62\x1D\x58\xC3\x86\x43\x5C\xC4\x12\x69\x2A\xD6";
const VELOCITY_FRAME: &[u8] = b"\x8D\x48\x50\x20\x99\x44\x09\x94\x08\x38\x17\x5B\x28\x4F";
const SQUAWK_FRAME: &[u8] = b"\x28\x00\x08\x08\xF4\x60\xE0";

// The reference CPR cell values carried by the two position frames above.
const EVEN_LAT: u32 = 93000;
const EVEN_LON: u32 = 51372;
const ODD_LAT: u32 = 74158;
const ODD_LON: u32 = 50194;

fn even_fragment(lat: u32, lon: u32) -> CprFragment {
    CprFragment::from_raw(true, lat, lon)
}

fn odd_fragment(lat: u32, lon: u32) -> CprFragment {
    CprFragment::from_raw(false, lat, lon)
}

fn position_message(icao: u32, fragment: CprFragment) -> DecodedMessage {
    DecodedMessage::airborne_position(17, icao, 38000, fragment)
}

/// The coordinates the external resolver yields for the reference pair, with
/// the even half older than the odd half.
fn reference_position() -> (f64, f64) {
    let even = adsb::CPRFrame {
        parity: adsb::Parity::Even,
        position: adsb::Position { latitude: EVEN_LAT as f64, longitude: EVEN_LON as f64 },
    };
    let odd = adsb::CPRFrame {
        parity: adsb::Parity::Odd,
        position: adsb::Position { latitude: ODD_LAT as f64, longitude: ODD_LON as f64 },
    };
    let p = adsb::cpr::get_position((&even, &odd)).expect("reference pair must resolve");
    (p.latitude, p.longitude)
}

#[test]
fn counts_total_and_balance() {
    let mut tracker = Tracker::new();
    let frames: [&[u8]; 5] = [IDENT_FRAME, EVEN_POS_FRAME, ODD_POS_FRAME, VELOCITY_FRAME,
        SQUAWK_FRAME];
    for (i, frame) in frames.iter().enumerate() {
        tracker.update_with_binary(frame, i as i64 * 1000).unwrap();
    }
    tracker.update_with_message(DecodedMessage::unknown(0), &[0x00], 9_000);
    assert_eq!(tracker.get_num_messages(), 6);
    let known_sum: u64 = tracker.get_known_message_statistics().values().sum();
    assert_eq!(known_sum + tracker.get_num_unknown_messages(), 6);
    assert_eq!(tracker.get_num_unknown_messages(), 1);
}

#[test]
fn unknown_messages_sampled_by_latest() {
    let mut tracker = Tracker::new();
    tracker.update_with_message(DecodedMessage::unknown(7), &[1], 0);
    tracker.update_with_message(DecodedMessage::unknown(7), &[2, 2], 1);
    tracker.update_with_message(DecodedMessage::unknown(7), &[3, 3, 3], 2);
    assert_eq!(tracker.get_num_unknown_messages(), 3);
    assert_eq!(tracker.get_unknown_message_statistics().get(&7), Some(&3));
    assert_eq!(tracker.get_unknown_message_data().get(&7), Some(&vec![3u8, 3, 3]));
    assert_eq!(tracker.get_num_messages(), 3);
    // unknown messages leave the per-aircraft state and time fields alone
    assert!(tracker.get_all_aircraft().is_empty());
    assert_eq!(tracker.get_most_recent_message_time(), None);
}

#[test]
fn ident_sets_trimmed_callsign() {
    let mut tracker = Tracker::new();
    tracker.update_with_binary(IDENT_FRAME, 1_000).unwrap();
    let all = tracker.get_all_aircraft();
    assert_eq!(all.len(), 1);
    let aircraft = all[0];
    assert_eq!(aircraft.icao_address, 0x4840D6);
    // the frame carries "KLM1023 " with a trailing pad; the record stores it trimmed
    assert_eq!(aircraft.callsign.as_deref(), Some("KLM1023"));
    assert_eq!(aircraft.last_seen, 1_000);
}

#[test]
fn velocity_sets_motion_fields() {
    let mut tracker = Tracker::new();
    tracker.update_with_binary(VELOCITY_FRAME, 0).unwrap();
    let all = tracker.get_all_aircraft();
    assert_eq!(all.len(), 1);
    let aircraft = all[0];
    assert_eq!(aircraft.icao_address, 0x485020);
    assert_eq!(aircraft.heading.map(f64::from_bits), Some(182.8803775528476));
    assert_eq!(aircraft.ground_speed.map(f64::from_bits), Some(159.20113064925135));
    assert_eq!(aircraft.vertical_rate, Some(-832));
    assert_eq!(
        aircraft.vertical_rate_source,
        Some(VerticalRateSource::BarometricPressureAltitude)
    );
}

#[test]
fn squawk_frame_sets_squawk() {
    let mut tracker = Tracker::new();
    tracker.update_with_binary(SQUAWK_FRAME, 0).unwrap();
    let aircraft = tracker.get_aircraft(0xA40442).expect("record must exist");
    assert_eq!(aircraft.squawk, Some(0x1200));
}

#[test]
fn binary_position_pair_resolves() {
    let mut tracker = Tracker::new();
    tracker.update_with_binary(EVEN_POS_FRAME, 0).unwrap();
    tracker.update_with_binary(ODD_POS_FRAME, 5_000).unwrap();
    let (lat, lon) = reference_position();
    let aircraft = tracker.get_aircraft(0x40621D).expect("record must exist");
    assert_eq!(aircraft.altitude, Some(38000));
    assert_eq!(aircraft.latitude.map(f64::from_bits), Some(lat));
    assert_eq!(aircraft.longitude.map(f64::from_bits), Some(lon));
    // ballpark sanity: this pair decodes to a position over the Netherlands
    assert!((52.0..53.0).contains(&lat), "lat = {}", lat);
    assert!((3.5..4.5).contains(&lon), "lon = {}", lon);
}

#[test]
fn position_scenario_with_stale_third_fragment() {
    let icao = 0xA12345;
    let mut tracker = Tracker::new();
    // Even fragment at t = 0 s: no pair yet, no position.
    tracker.update_with_message(position_message(icao, even_fragment(EVEN_LAT, EVEN_LON)), &[], 0);
    assert_eq!(tracker.get_aircraft(icao).unwrap().latitude, None);
    // Odd fragment at t = 5 s: resolves to the reference coordinates.
    tracker.update_with_message(position_message(icao, odd_fragment(ODD_LAT, ODD_LON)), &[], 5_000);
    let (lat, lon) = reference_position();
    {
        let aircraft = tracker.get_aircraft(icao).unwrap();
        assert_eq!(aircraft.latitude.map(f64::from_bits), Some(lat));
        assert_eq!(aircraft.longitude.map(f64::from_bits), Some(lon));
        assert_eq!(aircraft.last_pos_seen, Some(5_000));
    }
    // A third (even) fragment at t = 40 s pairs against the stale odd from
    // t = 5 s: the delta is 35 s > 30 s, so it must not resolve.
    tracker.update_with_message(
        position_message(icao, even_fragment(EVEN_LAT + 40, EVEN_LON + 40)),
        &[],
        40_000,
    );
    {
        let aircraft = tracker.get_aircraft(icao).unwrap();
        assert_eq!(aircraft.latitude.map(f64::from_bits), Some(lat));
        assert_eq!(aircraft.longitude.map(f64::from_bits), Some(lon));
        assert_eq!(aircraft.last_pos_seen, Some(5_000));
    }
}

#[test]
fn same_parity_fragments_never_resolve() {
    let icao = 0xA12345;
    let mut tracker = Tracker::new();
    tracker.update_with_message(position_message(icao, even_fragment(EVEN_LAT, EVEN_LON)), &[], 0);
    tracker.update_with_message(
        position_message(icao, even_fragment(EVEN_LAT + 1, EVEN_LON + 1)),
        &[],
        1_000,
    );
    let aircraft = tracker.get_aircraft(icao).unwrap();
    assert_eq!(aircraft.latitude, None);
    assert_eq!(aircraft.longitude, None);
    assert_eq!(aircraft.last_pos_seen, None);
}

#[test]
fn fresh_pair_resolves_and_feeds_histogram() {
    let icao = 0xA12345;
    let mut tracker = Tracker::new();
    tracker.update_with_message(position_message(icao, even_fragment(EVEN_LAT, EVEN_LON)), &[], 0);
    tracker.update_with_message(position_message(icao, odd_fragment(ODD_LAT, ODD_LON)), &[], 5_000);
    // A new even fragment 1.25 s after the fix: within the window, resolves
    // again, and the 1250 ms fix interval lands in the 1200 ms bucket.
    tracker.update_with_message(
        position_message(icao, even_fragment(EVEN_LAT, EVEN_LON)),
        &[],
        6_250,
    );
    let aircraft = tracker.get_aircraft(icao).unwrap();
    assert_eq!(aircraft.last_pos_seen, Some(6_250));
    assert_eq!(tracker.get_pos_update_times().get(&1200), Some(&1));
}

#[test]
fn last_seen_follows_event_time_even_backwards() {
    let icao = 0xA12345;
    let mut tracker = Tracker::new();
    tracker.update_with_message(DecodedMessage::surveillance_identity(5, icao, 0x1200), &[], 100_000);
    assert_eq!(tracker.get_aircraft(icao).unwrap().last_seen, 100_000);
    tracker.update_with_message(DecodedMessage::surveillance_identity(5, icao, 0x1201), &[], 50_000);
    // last_seen is overwritten, not clamped; the global maximum keeps the max
    assert_eq!(tracker.get_aircraft(icao).unwrap().last_seen, 50_000);
    assert_eq!(tracker.get_most_recent_message_time(), Some(100_000));
}

#[test]
fn current_aircraft_window_is_strict() {
    let mut tracker = Tracker::new();
    tracker.update_with_message(DecodedMessage::surveillance_identity(5, 1, 0x0001), &[], 0);
    tracker.update_with_message(DecodedMessage::surveillance_identity(5, 2, 0x0002), &[], 50_000);
    tracker.update_with_message(DecodedMessage::surveillance_identity(5, 3, 0x0003), &[], 100_000);
    let current: Vec<u32> = tracker
        .get_current_aircraft(60_000, 100_000)
        .iter()
        .map(|a| a.icao_address)
        .collect();
    assert_eq!(current, vec![2, 3]);
    // the boundary case: a record exactly one window old is excluded
    let current: Vec<u32> = tracker
        .get_current_aircraft(50_000, 100_000)
        .iter()
        .map(|a| a.icao_address)
        .collect();
    assert_eq!(current, vec![3]);
    assert_eq!(tracker.get_all_aircraft().len(), 3);
}

#[test]
fn throughput_absent_then_defined() {
    let mut tracker = Tracker::new();
    assert_eq!(tracker.get_messages_per_second_real_time(), None);
    // one message: no wall-clock time elapsed yet, so the rate is absent
    tracker.update_with_message_at(DecodedMessage::surveillance_identity(5, 1, 0x0001), &[], 0, 1_000);
    assert_eq!(tracker.get_messages_per_second_real_time(), None);
    // a second message one wall-clock second later: 2 messages per second
    tracker.update_with_message_at(DecodedMessage::surveillance_identity(5, 1, 0x0002), &[], 1, 2_000);
    assert_eq!(tracker.get_messages_per_second_real_time(), Some(2));
}

#[test]
fn throughput_ignores_unknown_messages() {
    let mut tracker = Tracker::new();
    tracker.update_with_message_at(DecodedMessage::unknown(0), &[0], 0, 1_000);
    // the wall-clock fields are only stamped by known messages
    assert_eq!(tracker.get_messages_per_second_real_time(), None);
}

#[test]
fn update_with_binary_rejects_garbage() {
    let mut tracker = Tracker::new();
    assert_eq!(tracker.update_with_binary(&[], 0), Err(DecodeError::UnparsableFrame));
    assert_eq!(tracker.get_num_messages(), 0);
}

#[test]
fn update_with_avr_accepts_frame() {
    let mut tracker = Tracker::new();
    tracker.update_with_avr("*8D4840D6202CC371C32CE0576098;", 500).unwrap();
    let aircraft = tracker.get_aircraft(0x4840D6).expect("record must exist");
    assert_eq!(aircraft.callsign.as_deref(), Some("KLM1023"));
    assert_eq!(aircraft.last_seen, 500);
}

#[test]
fn update_with_avr_rejects_bad_frames() {
    let mut tracker = Tracker::new();
    assert_eq!(tracker.update_with_avr("nope", 0), Err(DecodeError::UnparsableFrame));
    // the decoder tolerates trailing text after the end marker, but then the
    // frame is no even-length run of hex digits between two markers
    assert_eq!(
        tracker.update_with_avr("*8D4840D6202CC371C32CE0576098;x", 0),
        Err(DecodeError::MalformedHex)
    );
    assert_eq!(tracker.get_num_messages(), 0);
}

#[test]
fn encoded_frame_feeds_avr_update() {
    let mut via_binary = Tracker::new();
    via_binary.update_with_binary(IDENT_FRAME, 7).unwrap();
    let mut via_avr = Tracker::new();
    via_avr.update_with_avr(&format_avr(IDENT_FRAME), 7).unwrap();
    let a = via_binary.get_aircraft(0x4840D6).unwrap();
    let b = via_avr.get_aircraft(0x4840D6).unwrap();
    assert_eq!(a.callsign, b.callsign);
    assert_eq!(a.last_seen, b.last_seen);
    assert_eq!(via_avr.get_num_messages(), 1);
}

#[test]
fn icao_extraction() {
    assert_eq!(
        flight_tracker::icao(&DecodedMessage::surveillance_identity(5, 0xABCDEF, 0x1200)),
        Some(0xABCDEF)
    );
    assert_eq!(flight_tracker::icao(&DecodedMessage::unknown(0)), None);
}
