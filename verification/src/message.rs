//! The decoded-message model: what the tracker reads of one surveillance
//! message once the bit-level decoder has done its work.
//!
//! All fields are plain values.  Angles and speeds arrive from the decoder as
//! double-precision numbers; the tracker never computes with them, only
//! stores and hands them back, so they are carried as their IEEE-754 bit
//! patterns.

use vstd::prelude::*;

verus! {

/// Why an update rejected its input frame.
#[derive(Clone, Copy, PartialEq, Eq, Structural, Debug)]
pub enum DecodeError {
    /// The decoder could not parse the frame.
    UnparsableFrame,
    /// The hex-text payload of an AVR frame is malformed.
    MalformedHex,
}

/// Parity of a CPR position fragment: positions are broadcast as alternating
/// even and odd frames, and one of each is needed to resolve a coordinate.
#[derive(Clone, Copy, PartialEq, Eq, Structural, Debug)]
pub enum Parity {
    Even,
    Odd,
}

/// One half of a two-part CPR position encoding: the raw 17-bit latitude and
/// longitude cell values together with the frame parity.
#[derive(Clone, Copy, PartialEq, Eq, Structural, Debug)]
pub struct CprFragment {
    pub parity: Parity,
    pub lat_cpr: u32,
    pub lon_cpr: u32,
}

impl CprFragment {
    pub fn from_raw(even: bool, lat_cpr: u32, lon_cpr: u32) -> (f: CprFragment)
        ensures
            f == (CprFragment {
                parity: if even {
                    Parity::Even
                } else {
                    Parity::Odd
                },
                lat_cpr,
                lon_cpr,
            }),
    {
        CprFragment { parity: if even { Parity::Even } else { Parity::Odd }, lat_cpr, lon_cpr }
    }
}

/// A resolved geographic position.  Latitude and longitude are the IEEE-754
/// bit patterns of the resolver's double-precision degrees.
#[derive(Clone, Copy, PartialEq, Eq, Structural, Debug)]
pub struct Coordinate {
    pub latitude_bits: u64,
    pub longitude_bits: u64,
}

/// Source for vertical rate information.
#[derive(Clone, Copy, PartialEq, Eq, Structural, Debug)]
pub enum VerticalRateSource {
    BarometricPressureAltitude,
    GeometricAltitude,
}

/// Payload of one decoded message.  Every variant that concerns a single
/// aircraft carries its 24-bit ICAO address as a plain integer.
pub enum MessagePayload {
    /// Aircraft identification and category (callsign).
    AircraftIdentification { icao_address: u32, callsign: String },
    /// Airborne position: altitude in feet plus one CPR fragment.
    AirbornePosition { icao_address: u32, altitude: u16, cpr_frame: CprFragment },
    /// Airborne velocity.  Heading (degrees) and ground speed (knots) are
    /// carried as IEEE-754 bit patterns; the vertical rate is in feet per
    /// minute.
    AirborneVelocity {
        icao_address: u32,
        heading_bits: u64,
        ground_speed_bits: u64,
        vertical_rate: i16,
        vertical_rate_source: VerticalRateSource,
    },
    /// Surveillance identity (squawk code).
    SurveillanceIdentity { icao_address: u32, squawk: u16 },
    /// A message the decoder does not support; only its downlink format and
    /// raw payload are recorded.
    Unknown,
}

/// Mathematical model of a message payload: as `MessagePayload`, with the
/// callsign as a sequence of characters.
pub enum MessagePayloadView {
    AircraftIdentification { icao_address: u32, callsign: Seq<char> },
    AirbornePosition { icao_address: u32, altitude: u16, cpr_frame: CprFragment },
    AirborneVelocity {
        icao_address: u32,
        heading_bits: u64,
        ground_speed_bits: u64,
        vertical_rate: i16,
        vertical_rate_source: VerticalRateSource,
    },
    SurveillanceIdentity { icao_address: u32, squawk: u16 },
    Unknown,
}

impl View for MessagePayload {
    type V = MessagePayloadView;

    open spec fn view(&self) -> MessagePayloadView {
        match *self {
            MessagePayload::AircraftIdentification { icao_address, ref callsign } => (
                MessagePayloadView::AircraftIdentification { icao_address, callsign: callsign@ }
            ),
            MessagePayload::AirbornePosition { icao_address, altitude, cpr_frame } => (
                MessagePayloadView::AirbornePosition { icao_address, altitude, cpr_frame }
            ),
            MessagePayload::AirborneVelocity {
                icao_address,
                heading_bits,
                ground_speed_bits,
                vertical_rate,
                vertical_rate_source,
            } => (
                MessagePayloadView::AirborneVelocity {
                    icao_address,
                    heading_bits,
                    ground_speed_bits,
                    vertical_rate,
                    vertical_rate_source,
                }
            ),
            MessagePayload::SurveillanceIdentity { icao_address, squawk } => (
                MessagePayloadView::SurveillanceIdentity { icao_address, squawk }
            ),
            MessagePayload::Unknown => MessagePayloadView::Unknown,
        }
    }
}

/// One decoded ADS-B / Mode-S message.
pub struct DecodedMessage {
    /// Downlink format (DF): the numeric code identifying the structural
    /// type of the message.
    pub downlink_format: u8,
    /// Kind of message.
    pub kind: MessagePayload,
}

/// Mathematical model of a decoded message.
pub struct DecodedMessageView {
    pub downlink_format: u8,
    pub kind: MessagePayloadView,
}

impl View for DecodedMessage {
    type V = DecodedMessageView;

    open spec fn view(&self) -> DecodedMessageView {
        DecodedMessageView { downlink_format: self.downlink_format, kind: self.kind@ }
    }
}

/// The ICAO address a message payload speaks of, if any.
pub open spec fn spec_icao(kind: MessagePayloadView) -> Option<u32> {
    match kind {
        MessagePayloadView::AircraftIdentification { icao_address, .. } => Some(icao_address),
        MessagePayloadView::AirbornePosition { icao_address, .. } => Some(icao_address),
        MessagePayloadView::AirborneVelocity { icao_address, .. } => Some(icao_address),
        MessagePayloadView::SurveillanceIdentity { icao_address, .. } => Some(icao_address),
        MessagePayloadView::Unknown => None,
    }
}

/// Extract the ICAO address carried by a message, absent for messages the
/// decoder does not support.
pub fn icao(message: &DecodedMessage) -> (r: Option<u32>)
    ensures
        r == spec_icao(message@.kind),
{
    match message.kind {
        MessagePayload::AircraftIdentification { icao_address, .. } => Some(icao_address),
        MessagePayload::AirbornePosition { icao_address, .. } => Some(icao_address),
        MessagePayload::AirborneVelocity { icao_address, .. } => Some(icao_address),
        MessagePayload::SurveillanceIdentity { icao_address, .. } => Some(icao_address),
        MessagePayload::Unknown => None,
    }
}

impl DecodedMessage {
    pub fn identification(downlink_format: u8, icao_address: u32, callsign: String) -> (m:
        DecodedMessage)
        ensures
            m@ == (DecodedMessageView {
                downlink_format,
                kind: MessagePayloadView::AircraftIdentification {
                    icao_address,
                    callsign: callsign@,
                },
            }),
    {
        DecodedMessage {
            downlink_format,
            kind: MessagePayload::AircraftIdentification { icao_address, callsign },
        }
    }

    pub fn airborne_position(
        downlink_format: u8,
        icao_address: u32,
        altitude: u16,
        cpr_frame: CprFragment,
    ) -> (m: DecodedMessage)
        ensures
            m@ == (DecodedMessageView {
                downlink_format,
                kind: MessagePayloadView::AirbornePosition { icao_address, altitude, cpr_frame },
            }),
    {
        DecodedMessage {
            downlink_format,
            kind: MessagePayload::AirbornePosition { icao_address, altitude, cpr_frame },
        }
    }

    pub fn airborne_velocity(
        downlink_format: u8,
        icao_address: u32,
        heading_bits: u64,
        ground_speed_bits: u64,
        vertical_rate: i16,
        geometric_source: bool,
    ) -> (m: DecodedMessage)
        ensures
            m@ == (DecodedMessageView {
                downlink_format,
                kind: MessagePayloadView::AirborneVelocity {
                    icao_address,
                    heading_bits,
                    ground_speed_bits,
                    vertical_rate,
                    vertical_rate_source: if geometric_source {
                        VerticalRateSource::GeometricAltitude
                    } else {
                        VerticalRateSource::BarometricPressureAltitude
                    },
                },
            }),
    {
        DecodedMessage {
            downlink_format,
            kind: MessagePayload::AirborneVelocity {
                icao_address,
                heading_bits,
                ground_speed_bits,
                vertical_rate,
                vertical_rate_source: if geometric_source {
                    VerticalRateSource::GeometricAltitude
                } else {
                    VerticalRateSource::BarometricPressureAltitude
                },
            },
        }
    }

    pub fn surveillance_identity(downlink_format: u8, icao_address: u32, squawk: u16) -> (m:
        DecodedMessage)
        ensures
            m@ == (DecodedMessageView {
                downlink_format,
                kind: MessagePayloadView::SurveillanceIdentity { icao_address, squawk },
            }),
    {
        DecodedMessage {
            downlink_format,
            kind: MessagePayload::SurveillanceIdentity { icao_address, squawk },
        }
    }

    pub fn unknown(downlink_format: u8) -> (m: DecodedMessage)
        ensures
            m@ == (DecodedMessageView { downlink_format, kind: MessagePayloadView::Unknown }),
    {
        DecodedMessage { downlink_format, kind: MessagePayload::Unknown }
    }
}

} // verus!
