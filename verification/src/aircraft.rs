//! Per-aircraft state, and the engine that merges paired CPR position
//! fragments into resolved coordinates under a bounded validity window.

use vstd::prelude::*;

use crate::decode::{resolve_position, spec_resolve};
use crate::message::{Coordinate, CprFragment, Parity, VerticalRateSource};

verus! {

/// Two position fragments pair into a coordinate only when their arrival
/// times lie at most this many milliseconds apart.
pub const FRAGMENT_PAIR_WINDOW_MILLIS: i64 = 30_000;

/// A tracked aircraft: the live state kept for one ICAO address.  All
/// timestamps are event times in milliseconds.
pub struct Aircraft {
    /// Unique 24-bit ICAO address assigned to an aircraft upon national
    /// registration.
    pub icao_address: u32,
    /// Current aircraft callsign.
    pub callsign: Option<String>,
    /// Squawk code.
    pub squawk: Option<u16>,
    /// Current altitude (feet).
    pub altitude: Option<u16>,
    /// Current heading (degrees), as the IEEE-754 bits of the decoder's
    /// double-precision value.
    pub heading: Option<u64>,
    /// Current ground speed (knots), as IEEE-754 bits.
    pub ground_speed: Option<u64>,
    /// Current vertical rate (feet per minute).
    pub vertical_rate: Option<i16>,
    /// Current latitude (degrees), as IEEE-754 bits.
    pub latitude: Option<u64>,
    /// Current longitude (degrees), as IEEE-754 bits.
    pub longitude: Option<u64>,
    /// Source for vertical rate information.
    pub vertical_rate_source: Option<VerticalRateSource>,
    /// Timestamp of the last received message.
    pub last_seen: i64,
    /// Most recent even-parity fragment and its arrival time.
    pub last_cpr_even: Option<(CprFragment, i64)>,
    /// Most recent odd-parity fragment and its arrival time.
    pub last_cpr_odd: Option<(CprFragment, i64)>,
    /// Event time of the last position fix.
    pub last_pos_seen: Option<i64>,
}

/// Mathematical model of an aircraft record.
pub struct AircraftView {
    pub icao_address: u32,
    pub callsign: Option<Seq<char>>,
    pub squawk: Option<u16>,
    pub altitude: Option<u16>,
    pub heading: Option<u64>,
    pub ground_speed: Option<u64>,
    pub vertical_rate: Option<i16>,
    pub latitude: Option<u64>,
    pub longitude: Option<u64>,
    pub vertical_rate_source: Option<VerticalRateSource>,
    pub last_seen: i64,
    pub last_cpr_even: Option<(CprFragment, i64)>,
    pub last_cpr_odd: Option<(CprFragment, i64)>,
    pub last_pos_seen: Option<i64>,
}

impl View for Aircraft {
    type V = AircraftView;

    open spec fn view(&self) -> AircraftView {
        AircraftView {
            icao_address: self.icao_address,
            callsign: match self.callsign {
                Some(ref s) => Some(s@),
                None => None,
            },
            squawk: self.squawk,
            altitude: self.altitude,
            heading: self.heading,
            ground_speed: self.ground_speed,
            vertical_rate: self.vertical_rate,
            latitude: self.latitude,
            longitude: self.longitude,
            vertical_rate_source: self.vertical_rate_source,
            last_seen: self.last_seen,
            last_cpr_even: self.last_cpr_even,
            last_cpr_odd: self.last_cpr_odd,
            last_pos_seen: self.last_pos_seen,
        }
    }
}

impl AircraftView {
    /// Every timestamp held by a record is non-negative.
    pub open spec fn wf(self) -> bool {
        &&& 0 <= self.last_seen
        &&& match self.last_cpr_even {
            Some((_, t)) => 0 <= t,
            None => true,
        }
        &&& match self.last_cpr_odd {
            Some((_, t)) => 0 <= t,
            None => true,
        }
        &&& match self.last_pos_seen {
            Some(t) => 0 <= t,
            None => true,
        }
    }
}

/// A fresh record: every optional field absent, `last_seen` at the creating
/// message's event time.
pub open spec fn spec_new_aircraft(icao_address: u32, time: i64) -> AircraftView {
    AircraftView {
        icao_address,
        callsign: None,
        squawk: None,
        altitude: None,
        heading: None,
        ground_speed: None,
        vertical_rate: None,
        latitude: None,
        longitude: None,
        vertical_rate_source: None,
        last_seen: time,
        last_cpr_even: None,
        last_cpr_odd: None,
        last_pos_seen: None,
    }
}

/// Overwrite the slot matching the fragment's parity, discarding whatever
/// was there.
pub open spec fn spec_store_fragment(a: AircraftView, f: CprFragment, t: i64) -> AircraftView {
    match f.parity {
        Parity::Even => AircraftView { last_cpr_even: Some((f, t)), ..a },
        Parity::Odd => AircraftView { last_cpr_odd: Some((f, t)), ..a },
    }
}

/// Both slots populated and their arrival times within the validity window.
pub open spec fn spec_pair_in_window(a: AircraftView) -> bool {
    match (a.last_cpr_even, a.last_cpr_odd) {
        (Some((_, te)), Some((_, to))) => -(FRAGMENT_PAIR_WINDOW_MILLIS as int) <= te - to <= (
        FRAGMENT_PAIR_WINDOW_MILLIS as int),
        _ => false,
    }
}

/// The coordinate the merge engine obtains after a fragment of parity `p`
/// has just been stored: absent unless both slots are populated within the
/// window and the resolver decodes the pair.  The fragment that arrived most
/// recently is handed to the resolver second, anchoring the decode against
/// the older complementary half.
pub open spec fn spec_fix_attempt(a: AircraftView, p: Parity) -> Option<Coordinate> {
    if spec_pair_in_window(a) {
        let (fe, _) = a.last_cpr_even.unwrap();
        let (fo, _) = a.last_cpr_odd.unwrap();
        match p {
            Parity::Even => spec_resolve(fo, fe),
            Parity::Odd => spec_resolve(fe, fo),
        }
    } else {
        None
    }
}

/// One step of the position merge engine: the record after feeding it one
/// fragment, and the elapsed time since the previous fix when this fragment
/// produced a new one.
pub open spec fn spec_update_position(a: AircraftView, f: CprFragment, t: i64) -> (
    AircraftView,
    Option<int>,
) {
    let stored = spec_store_fragment(a, f, t);
    match spec_fix_attempt(stored, f.parity) {
        Some(c) => (
            AircraftView {
                latitude: Some(c.latitude_bits),
                longitude: Some(c.longitude_bits),
                last_pos_seen: Some(t),
                ..stored
            },
            match a.last_pos_seen {
                Some(prev) => Some(t - prev as int),
                None => None,
            },
        ),
        None => (stored, None),
    }
}

impl Aircraft {
    /// A record is created on the first message bearing its ICAO address.
    pub(crate) fn new(icao_address: u32, time: i64) -> (a: Aircraft)
        requires
            0 <= time,
        ensures
            a@ == spec_new_aircraft(icao_address, time),
    {
        Aircraft {
            icao_address,
            callsign: None,
            squawk: None,
            altitude: None,
            heading: None,
            ground_speed: None,
            vertical_rate: None,
            latitude: None,
            longitude: None,
            vertical_rate_source: None,
            last_seen: time,
            last_cpr_even: None,
            last_cpr_odd: None,
            last_pos_seen: None,
        }
    }

    /// Feed one CPR fragment to the merge engine: store it, and resolve a
    /// coordinate when it pairs with the complementary half inside the
    /// validity window.  Returns the elapsed time since the previous fix
    /// when a new fix was obtained after an earlier one.
    pub(crate) fn update_position(&mut self, cpr_frame: CprFragment, when: i64) -> (r: Option<
        i64,
    >)
        requires
            old(self)@.wf(),
            0 <= when,
        ensures
            final(self)@.wf(),
            final(self)@ == spec_update_position(old(self)@, cpr_frame, when).0,
            r is Some <==> spec_update_position(old(self)@, cpr_frame, when).1 is Some,
            r is Some ==> r.unwrap() as int == spec_update_position(
                old(self)@,
                cpr_frame,
                when,
            ).1.unwrap(),
    {
        match cpr_frame.parity {
            Parity::Even => {
                self.last_cpr_even = Some((cpr_frame, when));
            },
            Parity::Odd => {
                self.last_cpr_odd = Some((cpr_frame, when));
            },
        }

        if let (Some((even, even_time)), Some((odd, odd_time))) = (
            self.last_cpr_even,
            self.last_cpr_odd,
        ) {
            let delta = even_time - odd_time;
            if -FRAGMENT_PAIR_WINDOW_MILLIS <= delta && delta <= FRAGMENT_PAIR_WINDOW_MILLIS {
                let position = match cpr_frame.parity {
                    Parity::Even => resolve_position(&odd, &even),
                    Parity::Odd => resolve_position(&even, &odd),
                };
                if let Some(coordinate) = position {
                    self.latitude = Some(coordinate.latitude_bits);
                    self.longitude = Some(coordinate.longitude_bits);
                    let previous_fix = self.last_pos_seen;
                    self.last_pos_seen = Some(when);
                    match previous_fix {
                        Some(prev) => Some(when - prev),
                        None => None,
                    }
                } else {
                    None
                }
            } else {
                None
            }
        } else {
            None
        }
    }
}

/// Law: two fragments of the same parity, fed consecutively to a record
/// whose complementary slot is empty, never produce a position fix: the
/// resolved coordinates and the fix time are untouched by both steps.
pub proof fn lemma_same_parity_no_fix(
    a: AircraftView,
    f1: CprFragment,
    t1: i64,
    f2: CprFragment,
    t2: i64,
)
    requires
        f1.parity == f2.parity,
        f1.parity is Even ==> a.last_cpr_odd is None,
        f1.parity is Odd ==> a.last_cpr_even is None,
    ensures
        ({
            let (a1, d1) = spec_update_position(a, f1, t1);
            let (a2, d2) = spec_update_position(a1, f2, t2);
            &&& d1 is None
            &&& d2 is None
            &&& a1.latitude == a.latitude
            &&& a1.longitude == a.longitude
            &&& a1.last_pos_seen == a.last_pos_seen
            &&& a2.latitude == a.latitude
            &&& a2.longitude == a.longitude
            &&& a2.last_pos_seen == a.last_pos_seen
        }),
{
}

/// Law: a fragment arriving when the complementary slot holds a fragment
/// more than the validity window away never produces a position fix.
pub proof fn lemma_stale_pair_no_fix(
    a: AircraftView,
    f: CprFragment,
    t: i64,
    g: CprFragment,
    tg: i64,
)
    requires
        f.parity is Even ==> a.last_cpr_odd == Some((g, tg)),
        f.parity is Odd ==> a.last_cpr_even == Some((g, tg)),
        t - tg > FRAGMENT_PAIR_WINDOW_MILLIS as int || tg - t > FRAGMENT_PAIR_WINDOW_MILLIS as int,
    ensures
        ({
            let (a1, d1) = spec_update_position(a, f, t);
            &&& d1 is None
            &&& a1.latitude == a.latitude
            &&& a1.longitude == a.longitude
            &&& a1.last_pos_seen == a.last_pos_seen
        }),
{
}

/// Law: a fragment arriving when the complementary slot holds a fragment
/// within the validity window resolves exactly when the resolver decodes
/// the pair (older half first, the arriving fragment second), and the
/// record then carries that coordinate.
pub proof fn lemma_fresh_pair_resolves(
    a: AircraftView,
    f: CprFragment,
    t: i64,
    g: CprFragment,
    tg: i64,
)
    requires
        f.parity is Even ==> a.last_cpr_odd == Some((g, tg)),
        f.parity is Odd ==> a.last_cpr_even == Some((g, tg)),
        -(FRAGMENT_PAIR_WINDOW_MILLIS as int) <= t - tg <= FRAGMENT_PAIR_WINDOW_MILLIS as int,
    ensures
        ({
            let (a1, d1) = spec_update_position(a, f, t);
            match spec_resolve(g, f) {
                Some(c) => {
                    &&& a1.latitude == Some(c.latitude_bits)
                    &&& a1.longitude == Some(c.longitude_bits)
                    &&& a1.last_pos_seen == Some(t)
                    &&& (d1 is Some <==> a.last_pos_seen is Some)
                },
                None => {
                    &&& d1 is None
                    &&& a1.latitude == a.latitude
                    &&& a1.longitude == a.longitude
                    &&& a1.last_pos_seen == a.last_pos_seen
                },
            }
        }),
{
}

} // verus!
