//! The trusted boundary around the `adsb` crate.
//!
//! Everything the library takes from the outside decoder passes through the
//! items of this module: frame decoding, CPR position resolution, callsign
//! trimming and the wall-clock reading.  Each result that is a function of
//! the arguments alone is given a name (an uninterpreted spec function), and
//! the verified code around these calls is specified in terms of those names.

use vstd::prelude::*;

use crate::message::{Coordinate, CprFragment, DecodedMessage as Msg, DecodedMessageView};

verus! {

/// What `adsb::parse_binary` yields for a byte frame, lowered to the
/// library's message model; absent when the decoder rejects the frame.
pub uninterp spec fn spec_decode_binary(frame: Seq<u8>) -> Option<DecodedMessageView>;

/// What `adsb::parse_avr` yields for a hex-text frame, lowered to the
/// library's message model; absent when the decoder rejects the frame.
pub uninterp spec fn spec_decode_avr(frame: Seq<char>) -> Option<DecodedMessageView>;

/// What `adsb::cpr::get_position` resolves an (older, newer) pair of CPR
/// fragments to; absent when the pair does not decode.
pub uninterp spec fn spec_resolve(older: CprFragment, newer: CprFragment) -> Option<Coordinate>;

/// What `str::trim` leaves of a character sequence.
pub uninterp spec fn spec_trimmed(s: Seq<char>) -> Seq<char>;

#[verifier::external_type_specification]
#[verifier::external_body]
pub struct ExAdsbMessage(adsb::Message);

#[verifier::external_type_specification]
#[verifier::external_body]
pub struct ExAdsbMessageKind(adsb::ADSBMessageKind);

/// Lowers a decoded `adsb::Message` into the library's message model, one
/// variant at a time.  Relies on the `Display` impls of `adsb::ICAOAddress`
/// and `adsb::Squawk`, which print the value as hexadecimal digits.
#[verifier::external_body]
fn lower_message(m: adsb::Message) -> Msg {
    let df = m.downlink_format;
    match m.kind {
        adsb::MessageKind::ADSBMessage { icao_address, kind, .. } => {
            lower_adsb_kind(df, u32::from_str_radix(&format!("{}", icao_address), 16).unwrap_or(0), kind)
        },
        adsb::MessageKind::ModeSMessage {
            icao_address, kind: adsb::ModeSMessageKind::SurveillanceIdentity { squawk },
        } => Msg::surveillance_identity(df,
            u32::from_str_radix(&format!("{}", icao_address), 16).unwrap_or(0),
            u16::from_str_radix(&format!("{}", squawk), 16).unwrap_or(0)),
        adsb::MessageKind::Unknown => Msg::unknown(df),
    }
}

/// Lowers the ADS-B payload variants.  The raw CPR cell values are 17-bit
/// integers that `adsb` carries as whole double-precision numbers, so the
/// casts are exact; heading and ground speed are kept as bit patterns.
#[verifier::external_body]
fn lower_adsb_kind(downlink_format: u8, icao_address: u32, kind: adsb::ADSBMessageKind) -> Msg {
    match kind {
        adsb::ADSBMessageKind::AircraftIdentification { callsign, .. } => {
            Msg::identification(downlink_format, icao_address, callsign)
        },
        adsb::ADSBMessageKind::AirbornePosition { altitude, cpr_frame } => {
            Msg::airborne_position(downlink_format, icao_address, altitude,
                CprFragment::from_raw(matches!(cpr_frame.parity, adsb::Parity::Even),
                    cpr_frame.position.latitude as u32, cpr_frame.position.longitude as u32))
        },
        adsb::ADSBMessageKind::AirborneVelocity { heading, ground_speed, vertical_rate, vertical_rate_source } => {
            Msg::airborne_velocity(downlink_format, icao_address, heading.to_bits(), ground_speed.to_bits(),
                vertical_rate, matches!(vertical_rate_source, adsb::VerticalRateSource::GeometricAltitude))
        },
    }
}

/// Relies on `adsb::parse_binary`: decoding a byte frame is a function of
/// the bytes alone.
#[verifier::external_body]
pub(crate) fn decode_binary(frame: &[u8]) -> (r: Option<Msg>)
    ensures
        match r {
            Some(m) => spec_decode_binary(frame@) == Some(m@),
            None => spec_decode_binary(frame@) is None,
        },
{
    match adsb::parse_binary(frame) {
        Ok((m, _)) => Some(lower_message(m)),
        Err(_) => None,
    }
}

/// Relies on `adsb::parse_avr`: decoding a hex-text frame is a function of
/// the text alone.
#[verifier::external_body]
pub(crate) fn decode_avr(frame: &str) -> (r: Option<Msg>)
    ensures
        match r {
            Some(m) => spec_decode_avr(frame@) == Some(m@),
            None => spec_decode_avr(frame@) is None,
        },
{
    match adsb::parse_avr(frame) {
        Ok((m, _)) => Some(lower_message(m)),
        Err(_) => None,
    }
}

/// Relies on `adsb::cpr::get_position`: resolving a pair of CPR fragments is
/// a function of the two fragments alone, the second being the more recent
/// one.  The raw cell values convert to whole double-precision numbers; the
/// resolved coordinates come back as bit patterns.
#[verifier::external_body]
pub(crate) fn resolve_position(older: &CprFragment, newer: &CprFragment) -> (r: Option<Coordinate>)
    ensures
        r == spec_resolve(*older, *newer),
{
    let a = adsb::CPRFrame {
        parity: match older.parity { crate::message::Parity::Even => adsb::Parity::Even, _ => adsb::Parity::Odd },
        position: adsb::Position { latitude: older.lat_cpr.into(), longitude: older.lon_cpr.into() },
    };
    let b = adsb::CPRFrame {
        parity: match newer.parity { crate::message::Parity::Even => adsb::Parity::Even, _ => adsb::Parity::Odd },
        position: adsb::Position { latitude: newer.lat_cpr.into(), longitude: newer.lon_cpr.into() },
    };
    adsb::cpr::get_position((&a, &b)).map(|p| Coordinate {
        latitude_bits: p.latitude.to_bits(),
        longitude_bits: p.longitude.to_bits(),
    })
}

/// Relies on `str::trim`: trimming is a function of the characters alone.
#[verifier::external_body]
pub(crate) fn trim_string(s: &str) -> (r: String)
    ensures
        r@ == spec_trimmed(s@),
{
    s.trim().to_string()
}

/// Relies on `chrono::Utc::now` for the wall-clock reading in milliseconds
/// since the epoch.  Nothing is promised of the value: callers handle every
/// reading.
#[verifier::external_body]
pub(crate) fn now_millis() -> i64 {
    chrono::Utc::now().timestamp_millis()
}

} // verus!
