//! Aggregation and state-tracking engine for a stream of decoded
//! aircraft-surveillance (ADS-B / Mode-S) messages.
//!
//! The tracker keeps a live record per aircraft, merges paired CPR position
//! fragments into absolute coordinates under a bounded validity window,
//! maintains running statistics counters, and answers time-windowed snapshot
//! queries.  Bit-level frame decoding and CPR resolution are done by the
//! `adsb` crate behind a small set of trusted wrappers; everything around
//! those calls is verified.

pub mod aircraft;
pub mod avr;
pub mod decode;
pub mod message;
pub mod tracker;
pub mod ui;

pub use aircraft::Aircraft;
pub use avr::{format_avr, parse_avr};
pub use message::{icao, DecodeError, DecodedMessage};
pub use tracker::Tracker;
