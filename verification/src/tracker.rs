//! The aircraft store: the live per-aircraft map, the running statistics
//! counters, the throughput accounting, and the windowed snapshot queries.

use vstd::prelude::*;

use std::collections::HashMap;

use crate::aircraft::{spec_new_aircraft, spec_update_position, Aircraft, AircraftView};
use crate::avr::{parse_avr, spec_parse_avr};
use crate::decode::{
    decode_avr, decode_binary, now_millis, spec_decode_avr, spec_decode_binary, spec_trimmed,
    trim_string,
};
use crate::message::{spec_icao, DecodeError, DecodedMessage, DecodedMessageView, MessagePayload,
    MessagePayloadView};

verus! {

broadcast use vstd::std_specs::hash::group_hash_axioms;

/// Stores the set of currently tracked aircraft together with the running
/// message statistics.  Event timestamps are milliseconds and must be
/// non-negative; wall-clock readings are milliseconds since the epoch.
pub struct Tracker {
    aircraft: Vec<Aircraft>,
    num_messages: u64,
    num_unknown_messages: u64,
    unknown_message_counts: HashMap<u8, u64>,
    unknown_message_data: HashMap<u8, Vec<u8>>,
    known_message_counts: HashMap<u8, u64>,
    most_recent_message_time: Option<i64>,
    first_message_real_time: Option<i64>,
    most_recent_message_real_time: Option<i64>,
    pos_update_times: HashMap<i64, u32>,
}

/// Mathematical model of the tracker state.
#[verifier::ext_equal]
pub struct TrackerView {
    /// The tracked records, in order of first appearance.
    pub aircraft: Seq<AircraftView>,
    /// Total number of messages fed to the tracker.
    pub num_messages: u64,
    /// Number of messages without a resolvable ICAO address.
    pub num_unknown_messages: u64,
    /// Per-downlink-format count of unknown messages.
    pub unknown_message_counts: Map<u8, u64>,
    /// Latest raw payload seen per unknown downlink format.
    pub unknown_message_data: Map<u8, Seq<u8>>,
    /// Per-downlink-format count of known messages.
    pub known_message_counts: Map<u8, u64>,
    /// Running maximum of the event timestamps of known messages.
    pub most_recent_message_time: Option<i64>,
    /// Wall clock at the first known message.
    pub first_message_real_time: Option<i64>,
    /// Wall clock at the most recent known message.
    pub most_recent_message_real_time: Option<i64>,
    /// Histogram of elapsed times between consecutive position fixes,
    /// bucketed to 100 ms.
    pub pos_update_times: Map<i64, u32>,
}

impl View for Tracker {
    type V = TrackerView;

    closed spec fn view(&self) -> TrackerView {
        TrackerView {
            aircraft: self.aircraft@.map_values(|a: Aircraft| a@),
            num_messages: self.num_messages,
            num_unknown_messages: self.num_unknown_messages,
            unknown_message_counts: self.unknown_message_counts@,
            unknown_message_data: self.unknown_message_data@.map_values(|v: Vec<u8>| v@),
            known_message_counts: self.known_message_counts@,
            most_recent_message_time: self.most_recent_message_time,
            first_message_real_time: self.first_message_real_time,
            most_recent_message_real_time: self.most_recent_message_real_time,
            pos_update_times: self.pos_update_times@,
        }
    }
}

/// The count a statistics map holds for one downlink format, zero when the
/// format was never seen.
pub open spec fn spec_count_at(m: Map<u8, u64>, d: u8) -> int {
    if m.contains_key(d) {
        m[d] as int
    } else {
        0
    }
}

/// Sum of the counts for the downlink formats below `k`.
pub open spec fn spec_count_upto(m: Map<u8, u64>, k: int) -> int
    decreases k,
{
    if k <= 0 {
        0
    } else {
        spec_count_upto(m, k - 1) + spec_count_at(m, (k - 1) as u8)
    }
}

/// Sum of the counts over every possible downlink format.
pub open spec fn spec_count_total(m: Map<u8, u64>) -> int {
    spec_count_upto(m, 256)
}

/// A statistics map with the count for format `d` raised by one.
pub open spec fn spec_bump(m: Map<u8, u64>, d: u8) -> Map<u8, u64> {
    m.insert(d, (spec_count_at(m, d) + 1) as u64)
}

proof fn lemma_count_upto_nonneg(m: Map<u8, u64>, k: int)
    ensures
        0 <= spec_count_upto(m, k),
    decreases k,
{
    if k > 0 {
        lemma_count_upto_nonneg(m, k - 1);
    }
}

proof fn lemma_count_split(m: Map<u8, u64>, d: u8, k: int)
    requires
        d < k <= 256,
    ensures
        spec_count_at(m, d) <= spec_count_upto(m, k),
    decreases k,
{
    lemma_count_upto_nonneg(m, k - 1);
    if d + 1 < k {
        lemma_count_split(m, d, k - 1);
    } else {
        lemma_count_upto_nonneg(m, d as int);
    }
}

/// Each single count is bounded by the total.
pub proof fn lemma_count_at_le_total(m: Map<u8, u64>, d: u8)
    ensures
        spec_count_at(m, d) <= spec_count_total(m),
{
    lemma_count_split(m, d, 256);
}

proof fn lemma_bump_upto(m: Map<u8, u64>, d: u8, k: int)
    requires
        spec_count_at(m, d) + 1 <= u64::MAX,
        k <= 256,
    ensures
        spec_count_upto(spec_bump(m, d), k) == spec_count_upto(m, k) + if (d as int) < k {
            1int
        } else {
            0int
        },
    decreases k,
{
    if k > 0 {
        lemma_bump_upto(m, d, k - 1);
        let b = spec_bump(m, d);
        if d as int == k - 1 {
            assert(spec_count_at(b, (k - 1) as u8) == spec_count_at(m, (k - 1) as u8) + 1);
        } else {
            assert(spec_count_at(b, (k - 1) as u8) == spec_count_at(m, (k - 1) as u8));
        }
    }
}

/// Raising one count raises the total by exactly one.
pub proof fn lemma_bump_total(m: Map<u8, u64>, d: u8)
    requires
        spec_count_at(m, d) + 1 <= u64::MAX,
    ensures
        spec_count_total(spec_bump(m, d)) == spec_count_total(m) + 1,
{
    lemma_bump_upto(m, d, 256);
}

impl TrackerView {
    /// Internal consistency of the tracker state: records are keyed by
    /// distinct ICAO addresses and hold non-negative timestamps, and the
    /// statistics counters balance — the known counts and the unknown count
    /// together account for every message.
    pub open spec fn wf(self) -> bool {
        &&& forall|i: int, j: int|
            0 <= i < j < self.aircraft.len() ==> self.aircraft[i].icao_address
                != self.aircraft[j].icao_address
        &&& forall|i: int|
            0 <= i < self.aircraft.len() ==> (#[trigger] self.aircraft[i]).wf()
        &&& spec_count_total(self.known_message_counts) + self.num_unknown_messages as int
            == self.num_messages as int
        &&& spec_count_total(self.unknown_message_counts) == self.num_unknown_messages as int
        &&& match self.most_recent_message_time {
            Some(t) => 0 <= t,
            None => true,
        }
    }
}

/// The state of a freshly created tracker: no aircraft, every counter zero,
/// no timestamps.
pub open spec fn spec_new_tracker() -> TrackerView {
    TrackerView {
        aircraft: Seq::empty(),
        num_messages: 0,
        num_unknown_messages: 0,
        unknown_message_counts: Map::empty(),
        unknown_message_data: Map::empty(),
        known_message_counts: Map::empty(),
        most_recent_message_time: None,
        first_message_real_time: None,
        most_recent_message_real_time: None,
        pos_update_times: Map::empty(),
    }
}

proof fn lemma_count_total_empty(k: int)
    ensures
        spec_count_upto(Map::<u8, u64>::empty(), k) == 0,
    decreases k,
{
    if k > 0 {
        lemma_count_total_empty(k - 1);
    }
}

impl Tracker {
    /// Create a new tracker.
    pub fn new() -> (t: Tracker)
        ensures
            t@ == spec_new_tracker(),
            t@.wf(),
    {
        let t = Tracker {
            aircraft: Vec::new(),
            num_messages: 0,
            num_unknown_messages: 0,
            unknown_message_counts: HashMap::new(),
            unknown_message_data: HashMap::new(),
            known_message_counts: HashMap::new(),
            most_recent_message_time: None,
            first_message_real_time: None,
            most_recent_message_real_time: None,
            pos_update_times: HashMap::new(),
        };
        proof {
            lemma_count_total_empty(256);
            assert(t@ =~~= spec_new_tracker());
        }
        t
    }

    /// Total number of messages processed so far.
    pub fn get_num_messages(&self) -> (r: u64)
        ensures
            r == self@.num_messages,
    {
        self.num_messages
    }

    /// Number of processed messages that carried no resolvable ICAO address.
    pub fn get_num_unknown_messages(&self) -> (r: u64)
        ensures
            r == self@.num_unknown_messages,
    {
        self.num_unknown_messages
    }

    /// Per-downlink-format counts of unknown messages.
    pub fn get_unknown_message_statistics(&self) -> (r: &HashMap<u8, u64>)
        ensures
            r@ == self@.unknown_message_counts,
    {
        &self.unknown_message_counts
    }

    /// Latest raw payload observed per unknown downlink format.
    pub fn get_unknown_message_data(&self) -> (r: &HashMap<u8, Vec<u8>>)
        ensures
            r@.map_values(|v: Vec<u8>| v@) == self@.unknown_message_data,
    {
        &self.unknown_message_data
    }

    /// Per-downlink-format counts of known messages.
    pub fn get_known_message_statistics(&self) -> (r: &HashMap<u8, u64>)
        ensures
            r@ == self@.known_message_counts,
    {
        &self.known_message_counts
    }

    /// The running maximum of the event timestamps of known messages.
    pub fn get_most_recent_message_time(&self) -> (r: Option<i64>)
        ensures
            r == self@.most_recent_message_time,
    {
        self.most_recent_message_time
    }

    /// Histogram of elapsed times between consecutive position fixes,
    /// bucketed to 100 ms.
    pub fn get_pos_update_times(&self) -> (r: &HashMap<i64, u32>)
        ensures
            r@ == self@.pos_update_times,
    {
        &self.pos_update_times
    }
}

/// Running maximum of the most-recent event time.
pub open spec fn spec_max_time(current: Option<i64>, time: i64) -> i64 {
    match current {
        Some(t) => if t < time {
            time
        } else {
            t
        },
        None => time,
    }
}

/// The 100 ms bucket a fix interval falls in, truncated toward zero.
pub open spec fn spec_bucket(d: int) -> int {
    if d >= 0 {
        100 * (d / 100)
    } else {
        -(100 * ((-d) / 100))
    }
}

/// A histogram with the count for one bucket raised by one; a count that
/// has reached its ceiling stays there.
pub open spec fn spec_bump_hist(h: Map<i64, u32>, bucket: i64) -> Map<i64, u32> {
    let c = if h.contains_key(bucket) {
        h[bucket]
    } else {
        0u32
    };
    h.insert(bucket, if c < u32::MAX {
        (c + 1) as u32
    } else {
        c
    })
}

/// What one known message does to the record it addresses: dispatch the
/// payload fields, then stamp `last_seen` with the event time.  The second
/// component is the elapsed time between position fixes when the message
/// produced a new fix after an earlier one.
pub open spec fn spec_apply_message(a: AircraftView, kind: MessagePayloadView, time: i64) -> (
    AircraftView,
    Option<int>,
) {
    let (updated, fix_delta) = match kind {
        MessagePayloadView::AircraftIdentification { callsign, .. } => (
            AircraftView { callsign: Some(spec_trimmed(callsign)), ..a },
            None::<int>,
        ),
        MessagePayloadView::AirbornePosition { altitude, cpr_frame, .. } => (
            spec_update_position(AircraftView { altitude: Some(altitude), ..a }, cpr_frame, time)
        ),
        MessagePayloadView::AirborneVelocity {
            heading_bits,
            ground_speed_bits,
            vertical_rate,
            vertical_rate_source,
            ..
        } => (
            AircraftView {
                heading: Some(heading_bits),
                ground_speed: Some(ground_speed_bits),
                vertical_rate: Some(vertical_rate),
                vertical_rate_source: Some(vertical_rate_source),
                ..a
            },
            None::<int>,
        ),
        MessagePayloadView::SurveillanceIdentity { squawk, .. } => (
            AircraftView { squawk: Some(squawk), ..a },
            None::<int>,
        ),
        MessagePayloadView::Unknown => (a, None::<int>),
    };
    (AircraftView { last_seen: time, ..updated }, fix_delta)
}

/// Some record carries this ICAO address.
pub open spec fn spec_has_icao(s: Seq<AircraftView>, icao_address: u32) -> bool {
    exists|i: int| 0 <= i < s.len() && s[i].icao_address == icao_address
}

/// The index of the record carrying this ICAO address (unique when the
/// tracker is well formed).
pub open spec fn spec_icao_index(s: Seq<AircraftView>, icao_address: u32) -> int {
    choose|i: int| 0 <= i < s.len() && s[i].icao_address == icao_address
}

/// Fetch-or-create: the fleet after dispatching one known message to the
/// record for `icao_address`, and the fix interval the dispatch yielded.
pub open spec fn spec_apply_to_fleet(
    s: Seq<AircraftView>,
    icao_address: u32,
    kind: MessagePayloadView,
    time: i64,
) -> (Seq<AircraftView>, Option<int>) {
    if spec_has_icao(s, icao_address) {
        let i = spec_icao_index(s, icao_address);
        let (a, d) = spec_apply_message(s[i], kind, time);
        (s.update(i, a), d)
    } else {
        let (a, d) = spec_apply_message(spec_new_aircraft(icao_address, time), kind, time);
        (s.push(a), d)
    }
}

/// What a message without a resolvable ICAO address does to the tracker:
/// the unknown counters rise and the raw payload is sampled, overwriting the
/// previous sample for that downlink format; nothing else changes.
pub open spec fn spec_record_unknown(t: TrackerView, downlink_format: u8, data: Seq<u8>) -> TrackerView {
    TrackerView {
        num_unknown_messages: (t.num_unknown_messages + 1) as u64,
        unknown_message_counts: spec_bump(t.unknown_message_counts, downlink_format),
        unknown_message_data: t.unknown_message_data.insert(downlink_format, data),
        ..t
    }
}

/// One update step of the tracker: count the message; for an unknown one,
/// sample it and stop; for a known one, count its downlink format, dispatch
/// it to the record it addresses (creating the record on first sight), feed
/// the fix-interval histogram, advance the running maximum of event times,
/// and stamp the wall-clock fields.
pub open spec fn spec_update(
    t: TrackerView,
    m: DecodedMessageView,
    data: Seq<u8>,
    time: i64,
    wall: i64,
) -> TrackerView {
    let bumped = TrackerView { num_messages: (t.num_messages + 1) as u64, ..t };
    match spec_icao(m.kind) {
        None => spec_record_unknown(bumped, m.downlink_format, data),
        Some(icao_address) => {
            let counted = TrackerView {
                known_message_counts: spec_bump(t.known_message_counts, m.downlink_format),
                ..bumped
            };
            let (fleet, fix_delta) = spec_apply_to_fleet(t.aircraft, icao_address, m.kind, time);
            let hist = match fix_delta {
                Some(d) => spec_bump_hist(t.pos_update_times, spec_bucket(d) as i64),
                None => t.pos_update_times,
            };
            TrackerView {
                aircraft: fleet,
                pos_update_times: hist,
                most_recent_message_time: Some(spec_max_time(t.most_recent_message_time, time)),
                first_message_real_time: if t.first_message_real_time is Some {
                    t.first_message_real_time
                } else {
                    Some(wall)
                },
                most_recent_message_real_time: Some(wall),
                ..counted
            }
        },
    }
}

/// Messages processed per second of wall-clock time: absent until a known
/// message has been processed, and absent unless wall-clock time has passed
/// between the first and the most recent one.
pub open spec fn spec_throughput(t: TrackerView) -> Option<u128> {
    match (t.first_message_real_time, t.most_recent_message_real_time) {
        (Some(first), Some(recent)) => {
            let elapsed = recent - first;
            if t.num_messages > 0 && elapsed > 0 {
                Some((1000 * t.num_messages as int / elapsed) as u128)
            } else {
                None
            }
        },
        _ => None,
    }
}

impl Tracker {
    /// Messages processed per second of wall-clock time, absent while it is
    /// undefined (no message yet, or no wall-clock time elapsed).
    pub fn get_messages_per_second_real_time(&self) -> (r: Option<u128>)
        ensures
            r == spec_throughput(self@),
    {
        match (self.first_message_real_time, self.most_recent_message_real_time) {
            (Some(first), Some(recent)) => {
                let elapsed: i128 = recent as i128 - first as i128;
                if self.num_messages > 0 && elapsed > 0 {
                    Some(1000 * self.num_messages as u128 / elapsed as u128)
                } else {
                    None
                }
            },
            _ => None,
        }
    }
}

/// The 100 ms histogram bucket of a fix interval, truncated toward zero.
fn bucket_of(d: i64) -> (r: i64)
    requires
        i64::MIN < d,
    ensures
        r as int == spec_bucket(d as int),
{
    if d >= 0 {
        let q = d / 100;
        proof {
            vstd::arithmetic::div_mod::lemma_fundamental_div_mod(d as int, 100);
        }
        100 * q
    } else {
        let q = (-d) / 100;
        proof {
            vstd::arithmetic::div_mod::lemma_fundamental_div_mod(-d as int, 100);
        }
        -(100 * q)
    }
}

/// Dispatch one known message's payload to an aircraft record and stamp its
/// `last_seen`; yields the fix interval when the payload produced a new
/// position fix after an earlier one.
fn apply_payload(record: &mut Aircraft, kind: MessagePayload, time: i64) -> (r: Option<i64>)
    requires
        old(record)@.wf(),
        0 <= time,
    ensures
        final(record)@.wf(),
        final(record)@ == spec_apply_message(old(record)@, kind@, time).0,
        match r {
            Some(d) => spec_apply_message(old(record)@, kind@, time).1 == Some(d as int),
            None => spec_apply_message(old(record)@, kind@, time).1 is None,
        },
{
    let fix = match kind {
        MessagePayload::AircraftIdentification { callsign, .. } => {
            record.callsign = Some(trim_string(callsign.as_str()));
            None
        },
        MessagePayload::AirbornePosition { altitude, cpr_frame, .. } => {
            record.altitude = Some(altitude);
            record.update_position(cpr_frame, time)
        },
        MessagePayload::AirborneVelocity {
            heading_bits,
            ground_speed_bits,
            vertical_rate,
            vertical_rate_source,
            ..
        } => {
            record.heading = Some(heading_bits);
            record.ground_speed = Some(ground_speed_bits);
            record.vertical_rate = Some(vertical_rate);
            record.vertical_rate_source = Some(vertical_rate_source);
            None
        },
        MessagePayload::SurveillanceIdentity { squawk, .. } => {
            record.squawk = Some(squawk);
            None
        },
        MessagePayload::Unknown => None,
    };
    record.last_seen = time;
    fix
}

impl Tracker {
    /// The position of the record for an ICAO address in the store.
    fn find_aircraft_index(&self, icao_address: u32) -> (r: Option<usize>)
        ensures
            match r {
                Some(i) => i < self@.aircraft.len() && self@.aircraft[i as int].icao_address
                    == icao_address,
                None => !spec_has_icao(self@.aircraft, icao_address),
            },
    {
        let mut i: usize = 0;
        while i < self.aircraft.len()
            invariant
                i <= self.aircraft.len(),
                forall|j: int| 0 <= j < i ==> self@.aircraft[j].icao_address != icao_address,
            decreases self.aircraft.len() - i,
        {
            if self.aircraft[i].icao_address == icao_address {
                return Some(i);
            }
            i += 1;
        }
        None
    }

    /// Count an unknown message and sample its raw payload.
    fn update_unknown_message_statistics(&mut self, downlink_format: u8, data: &[u8])
        requires
            old(self)@.num_unknown_messages < u64::MAX,
            spec_count_at(old(self)@.unknown_message_counts, downlink_format) < u64::MAX,
        ensures
            final(self)@ == spec_record_unknown(old(self)@, downlink_format, data@),
    {
        let c = match self.unknown_message_counts.get(&downlink_format) {
            Some(v) => *v,
            None => 0,
        };
        self.unknown_message_counts.insert(downlink_format, c + 1);
        self.unknown_message_data.insert(downlink_format, vstd::slice::slice_to_vec(data));
        self.num_unknown_messages = self.num_unknown_messages + 1;
        proof {
            assert(self@ =~~= spec_record_unknown(old(self)@, downlink_format, data@));
        }
    }

    /// Count a known message under its downlink format.
    fn bump_known_count(&mut self, downlink_format: u8)
        requires
            spec_count_at(old(self)@.known_message_counts, downlink_format) < u64::MAX,
        ensures
            final(self)@ == (TrackerView {
                known_message_counts: spec_bump(old(self)@.known_message_counts, downlink_format),
                ..old(self)@
            }),
    {
        let c = match self.known_message_counts.get(&downlink_format) {
            Some(v) => *v,
            None => 0,
        };
        self.known_message_counts.insert(downlink_format, c + 1);
        proof {
            assert(self@ =~~= (TrackerView {
                known_message_counts: spec_bump(old(self)@.known_message_counts, downlink_format),
                ..old(self)@
            }));
        }
    }

    /// Update the tracker with one decoded message, its raw payload, its
    /// event timestamp and the wall-clock reading taken for it.
    pub fn update_with_message_at(
        &mut self,
        message: DecodedMessage,
        data: &[u8],
        time: i64,
        wall_time: i64,
    )
        requires
            old(self)@.wf(),
            0 <= time,
            old(self)@.num_messages < u64::MAX,
        ensures
            final(self)@.wf(),
            final(self)@ == spec_update(old(self)@, message@, data@, time, wall_time),
    {
        let ghost pre = old(self)@;
        let DecodedMessage { downlink_format, kind } = message;
        self.num_messages = self.num_messages + 1;
        let icao_opt = match &kind {
            MessagePayload::AircraftIdentification { icao_address, .. } => Some(*icao_address),
            MessagePayload::AirbornePosition { icao_address, .. } => Some(*icao_address),
            MessagePayload::AirborneVelocity { icao_address, .. } => Some(*icao_address),
            MessagePayload::SurveillanceIdentity { icao_address, .. } => Some(*icao_address),
            MessagePayload::Unknown => None,
        };
        let icao_address = match icao_opt {
            Some(icao_address) => icao_address,
            None => {
                proof {
                    lemma_count_at_le_total(pre.unknown_message_counts, downlink_format);
                    lemma_count_upto_nonneg(pre.known_message_counts, 256);
                }
                self.update_unknown_message_statistics(downlink_format, data);
                proof {
                    lemma_bump_total(pre.unknown_message_counts, downlink_format);
                    assert(self@ =~~= spec_update(pre, message@, data@, time, wall_time));
                }
                return ;
            },
        };
        proof {
            lemma_count_at_le_total(pre.known_message_counts, downlink_format);
            lemma_count_upto_nonneg(pre.unknown_message_counts, 256);
        }
        self.bump_known_count(downlink_format);
        let idx = self.find_aircraft_index(icao_address);
        let mut record = match idx {
            Some(i) => self.aircraft.remove(i),
            None => Aircraft::new(icao_address, time),
        };
        let fix = apply_payload(&mut record, kind, time);
        match idx {
            Some(i) => self.aircraft.insert(i, record),
            None => self.aircraft.push(record),
        }
        if let Some(d) = fix {
            let bucket = bucket_of(d);
            let c = match self.pos_update_times.get(&bucket) {
                Some(v) => *v,
                None => 0,
            };
            let c2 = if c < u32::MAX {
                c + 1
            } else {
                c
            };
            self.pos_update_times.insert(bucket, c2);
        }
        self.most_recent_message_time = Some(
            match self.most_recent_message_time {
                Some(t) => if t < time {
                    time
                } else {
                    t
                },
                None => time,
            },
        );
        if self.first_message_real_time.is_none() {
            self.first_message_real_time = Some(wall_time);
        }
        self.most_recent_message_real_time = Some(wall_time);
        proof {
            lemma_bump_total(pre.known_message_counts, downlink_format);
            assert(self@ =~~= spec_update(pre, message@, data@, time, wall_time));
        }
    }
}

/// A record is current at `now` for a window `interval` when strictly less
/// than `interval` has passed since it was last seen.
pub open spec fn spec_in_window(a: AircraftView, interval: i64, now: i64) -> bool {
    now - a.last_seen < interval
}

impl Tracker {
    /// Update the tracker with one decoded message, its raw payload and its
    /// event timestamp, reading the wall clock for the throughput
    /// accounting.
    pub fn update_with_message(&mut self, message: DecodedMessage, data: &[u8], time: i64)
        requires
            old(self)@.wf(),
            0 <= time,
            old(self)@.num_messages < u64::MAX,
        ensures
            final(self)@.wf(),
            exists|wall: i64|
                final(self)@ == spec_update(old(self)@, message@, data@, time, wall),
    {
        let wall_time = now_millis();
        let ghost m = message@;
        self.update_with_message_at(message, data, time, wall_time);
        proof {
            assert(self@ == spec_update(old(self)@, m, data@, time, wall_time));
        }
    }

    /// Update the tracker with a received ADS-B message in AVR (hex-text)
    /// format: decode the frame, unpack its payload bytes, then process the
    /// message.  A frame the decoder rejects, or whose hex payload is
    /// malformed, is reported and leaves the tracker untouched.
    pub fn update_with_avr(&mut self, frame: &str, time: i64) -> (r: Result<(), DecodeError>)
        requires
            old(self)@.wf(),
            0 <= time,
            old(self)@.num_messages < u64::MAX,
        ensures
            final(self)@.wf(),
            match spec_decode_avr(frame@) {
                Some(m) => match spec_parse_avr(frame@) {
                    Some(bytes) => r is Ok && exists|wall: i64|
                        final(self)@ == spec_update(old(self)@, m, bytes, time, wall),
                    None => r == Err::<(), DecodeError>(DecodeError::MalformedHex) && final(self)@
                        == old(self)@,
                },
                None => r == Err::<(), DecodeError>(DecodeError::UnparsableFrame) && final(self)@
                    == old(self)@,
            },
    {
        let message = match decode_avr(frame) {
            Some(m) => m,
            None => {
                return Err(DecodeError::UnparsableFrame);
            },
        };
        let data = match parse_avr(frame) {
            Ok(d) => d,
            Err(e) => {
                return Err(e);
            },
        };
        let ghost m = message@;
        let ghost bytes = data@;
        self.update_with_message(message, data.as_slice(), time);
        proof {
            let wall = choose|wall: i64| self@ == spec_update(old(self)@, m, bytes, time, wall);
            assert(self@ == spec_update(old(self)@, m, bytes, time, wall));
            assert(spec_decode_avr(frame@) == Some(m));
            assert(spec_parse_avr(frame@) == Some(bytes));
            assert(exists|w: i64|
                self@ == spec_update(
                    old(self)@,
                    spec_decode_avr(frame@).unwrap(),
                    spec_parse_avr(frame@).unwrap(),
                    time,
                    w,
                ));
        }
        Ok(())
    }

    /// Update the tracker with a received ADS-B message in binary format:
    /// decode the frame, then process the message.  A frame the decoder
    /// rejects is reported and leaves the tracker untouched.
    pub fn update_with_binary(&mut self, frame: &[u8], time: i64) -> (r: Result<(), DecodeError>)
        requires
            old(self)@.wf(),
            0 <= time,
            old(self)@.num_messages < u64::MAX,
        ensures
            final(self)@.wf(),
            match spec_decode_binary(frame@) {
                Some(m) => r is Ok && exists|wall: i64|
                    final(self)@ == spec_update(old(self)@, m, frame@, time, wall),
                None => r == Err::<(), DecodeError>(DecodeError::UnparsableFrame) && final(self)@
                    == old(self)@,
            },
    {
        match decode_binary(frame) {
            Some(message) => {
                self.update_with_message(message, frame, time);
                Ok(())
            },
            None => Err(DecodeError::UnparsableFrame),
        }
    }

    /// Get the aircraft last seen within the given interval (milliseconds)
    /// of the reference time `now`: exactly those records strictly younger
    /// than the interval, in store order.
    pub fn get_current_aircraft(&self, interval: i64, now: i64) -> (r: Vec<&Aircraft>)
        requires
            self@.wf(),
            0 <= now,
        ensures
            r@.map_values(|a: &Aircraft| a@) == self@.aircraft.filter(
                |av: AircraftView| spec_in_window(av, interval, now),
            ),
    {
        let ghost pred = |av: AircraftView| spec_in_window(av, interval, now);
        let mut r: Vec<&Aircraft> = Vec::new();
        let mut i: usize = 0;
        while i < self.aircraft.len()
            invariant
                self@.wf(),
                0 <= now,
                i <= self.aircraft.len(),
                self@.aircraft.len() == self.aircraft.len(),
                r@.map_values(|a: &Aircraft| a@) == self@.aircraft.subrange(0, i as int).filter(
                    pred,
                ),
                pred == (|av: AircraftView| spec_in_window(av, interval, now)),
            decreases self.aircraft.len() - i,
        {
            let ghost prefix = self@.aircraft.subrange(0, i as int);
            let ghost prefix2 = self@.aircraft.subrange(0, i + 1 as int);
            let ghost r_before = r@;
            let a = &self.aircraft[i];
            assert(a@ == self@.aircraft[i as int]);
            assert(a@.wf());
            if now - a.last_seen < interval {
                r.push(a);
            }
            proof {
                assert(prefix2 =~= prefix.push(a@));
                prefix.lemma_filter_push(a@, pred);
                assert(prefix2.filter(pred) == if pred(a@) {
                    prefix.filter(pred).push(a@)
                } else {
                    prefix.filter(pred)
                });
                if pred(a@) {
                    assert(r@ == r_before.push(a));
                    assert(r@.map_values(|a: &Aircraft| a@) =~= r_before.map_values(
                        |a: &Aircraft| a@,
                    ).push(a@));
                } else {
                    assert(r@ == r_before);
                }
                assert(r@.map_values(|a: &Aircraft| a@) =~= prefix2.filter(pred));
            }
            i += 1;
        }
        proof {
            assert(self@.aircraft.subrange(0, self@.aircraft.len() as int) =~= self@.aircraft);
        }
        r
    }

    /// Get a list of all tracked aircraft, in store order.
    pub fn get_all_aircraft(&self) -> (r: Vec<&Aircraft>)
        ensures
            r@.map_values(|a: &Aircraft| a@) == self@.aircraft,
    {
        let mut r: Vec<&Aircraft> = Vec::new();
        let mut i: usize = 0;
        while i < self.aircraft.len()
            invariant
                i <= self.aircraft.len(),
                self@.aircraft.len() == self.aircraft.len(),
                r@.map_values(|a: &Aircraft| a@) == self@.aircraft.subrange(0, i as int),
            decreases self.aircraft.len() - i,
        {
            let ghost r_before = r@;
            let a = &self.aircraft[i];
            r.push(a);
            proof {
                assert(a@ == self@.aircraft[i as int]);
                assert(r@.map_values(|a: &Aircraft| a@) =~= r_before.map_values(
                    |a: &Aircraft| a@,
                ).push(a@));
                assert(r@.map_values(|a: &Aircraft| a@) =~= self@.aircraft.subrange(0, i + 1));
            }
            i += 1;
        }
        proof {
            assert(self@.aircraft.subrange(0, self@.aircraft.len() as int) =~= self@.aircraft);
        }
        r
    }

    /// The record tracked for an ICAO address, if any.
    pub fn get_aircraft(&self, icao_address: u32) -> (r: Option<&Aircraft>)
        requires
            self@.wf(),
        ensures
            match r {
                Some(a) => spec_has_icao(self@.aircraft, icao_address) && a@ == self@.aircraft[
                    spec_icao_index(self@.aircraft, icao_address)
                ],
                None => !spec_has_icao(self@.aircraft, icao_address),
            },
    {
        match self.find_aircraft_index(icao_address) {
            Some(i) => {
                let a = &self.aircraft[i];
                proof {
                    let j = spec_icao_index(self@.aircraft, icao_address);
                    assert(0 <= j < self@.aircraft.len() && self@.aircraft[j].icao_address
                        == icao_address);
                    assert(j == i as int);
                }
                Some(a)
            },
            None => None,
        }
    }
}

/// One recorded update call: the decoded message, its raw payload, its event
/// timestamp and the wall-clock reading taken for it.
pub struct UpdateEvent {
    pub message: DecodedMessageView,
    pub data: Seq<u8>,
    pub time: i64,
    pub wall: i64,
}

/// The tracker state after a sequence of update calls.
pub open spec fn spec_run(t: TrackerView, events: Seq<UpdateEvent>) -> TrackerView
    decreases events.len(),
{
    if events.len() == 0 {
        t
    } else {
        let e = events.last();
        spec_update(spec_run(t, events.drop_last()), e.message, e.data, e.time, e.wall)
    }
}

/// Law: one update step counts exactly one message and keeps the books
/// balanced — the known counts and the unknown count together account for
/// every message.
pub proof fn lemma_update_conserves_counts(
    t: TrackerView,
    m: DecodedMessageView,
    data: Seq<u8>,
    time: i64,
    wall: i64,
)
    requires
        t.num_messages < u64::MAX,
        spec_count_total(t.known_message_counts) + t.num_unknown_messages as int
            == t.num_messages as int,
        spec_count_total(t.unknown_message_counts) == t.num_unknown_messages as int,
    ensures
        ({
            let t2 = spec_update(t, m, data, time, wall);
            &&& t2.num_messages as int == t.num_messages as int + 1
            &&& spec_count_total(t2.known_message_counts) + t2.num_unknown_messages as int
                == t2.num_messages as int
            &&& spec_count_total(t2.unknown_message_counts) == t2.num_unknown_messages as int
        }),
{
    match spec_icao(m.kind) {
        None => {
            lemma_count_at_le_total(t.unknown_message_counts, m.downlink_format);
            lemma_count_upto_nonneg(t.known_message_counts, 256);
            lemma_bump_total(t.unknown_message_counts, m.downlink_format);
        },
        Some(_) => {
            lemma_count_at_le_total(t.known_message_counts, m.downlink_format);
            lemma_count_upto_nonneg(t.unknown_message_counts, 256);
            lemma_bump_total(t.known_message_counts, m.downlink_format);
        },
    }
}

/// Law: after any sequence of update calls on a fresh tracker, the total
/// message count equals the number of calls, and the known counts plus the
/// unknown count together equal that total.
pub proof fn lemma_run_counts(events: Seq<UpdateEvent>)
    requires
        events.len() <= u64::MAX,
    ensures
        ({
            let t = spec_run(spec_new_tracker(), events);
            &&& t.num_messages as int == events.len()
            &&& spec_count_total(t.known_message_counts) + t.num_unknown_messages as int
                == t.num_messages as int
            &&& spec_count_total(t.unknown_message_counts) == t.num_unknown_messages as int
        }),
    decreases events.len(),
{
    lemma_count_total_empty(256);
    if events.len() > 0 {
        lemma_run_counts(events.drop_last());
        let e = events.last();
        lemma_update_conserves_counts(
            spec_run(spec_new_tracker(), events.drop_last()),
            e.message,
            e.data,
            e.time,
            e.wall,
        );
    }
}

/// Law: after an update with a known message, the record it addresses
/// carries exactly the event timestamp passed to that update, however the
/// event timestamps are ordered across calls.
pub proof fn lemma_last_seen_is_event_time(
    t: TrackerView,
    m: DecodedMessageView,
    data: Seq<u8>,
    time: i64,
    wall: i64,
)
    requires
        t.wf(),
        spec_icao(m.kind) is Some,
    ensures
        ({
            let t2 = spec_update(t, m, data, time, wall);
            let icao_address = spec_icao(m.kind).unwrap();
            &&& spec_has_icao(t2.aircraft, icao_address)
            &&& t2.aircraft[spec_icao_index(t2.aircraft, icao_address)].last_seen == time
        }),
{
    let t2 = spec_update(t, m, data, time, wall);
    let icao_address = spec_icao(m.kind).unwrap();
    if spec_has_icao(t.aircraft, icao_address) {
        let i = spec_icao_index(t.aircraft, icao_address);
        assert(0 <= i < t.aircraft.len() && t.aircraft[i].icao_address == icao_address);
        assert(t2.aircraft[i].icao_address == icao_address);
        assert(t2.aircraft[i].last_seen == time);
        assert(spec_has_icao(t2.aircraft, icao_address));
        let j = spec_icao_index(t2.aircraft, icao_address);
        assert(0 <= j < t2.aircraft.len() && t2.aircraft[j].icao_address == icao_address);
        assert(j == i);
    } else {
        let i = t.aircraft.len() as int;
        assert(t2.aircraft[i].icao_address == icao_address);
        assert(t2.aircraft[i].last_seen == time);
        assert(spec_has_icao(t2.aircraft, icao_address));
        let j = spec_icao_index(t2.aircraft, icao_address);
        assert(0 <= j < t2.aircraft.len() && t2.aircraft[j].icao_address == icao_address);
        assert(j == i);
    }
}

impl Default for Tracker {
    /// A fresh tracker.
    fn default() -> (t: Tracker)
        ensures
            t@ == spec_new_tracker(),
            t@.wf(),
    {
        Tracker::new()
    }
}

} // verus!
