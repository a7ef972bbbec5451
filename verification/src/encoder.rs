//! The Current Time Service payload.

use crate::calendar::{second_of_day, utc_calendar, utc_fields, UtcDateTime};
use vstd::prelude::*;

verus! {

/// Length in bytes of the payload written to the time characteristic.
pub const PAYLOAD_LEN: usize = 11;

/// Adjust-reason bit field of every payload: a manual time update.
pub const ADJUST_REASON_MANUAL: u8 = 1;

/// The bytes written to the time characteristic, in wire order: year (low
/// byte, then high byte), month, day, hour, minute, second, day of week,
/// fractions of a second, a reserved byte and the adjust reason.
#[derive(Clone, Copy, Debug, PartialEq, Eq)]
pub struct TimePayload {
    pub bytes: [u8; 11],
}

impl View for TimePayload {
    type V = Seq<u8>;

    open spec fn view(&self) -> Seq<u8> {
        self.bytes@
    }
}

/// Low byte of the year as a 16-bit number.
pub open spec fn year_low(year: i32) -> u8 {
    ((year as u16) & 0xFF) as u8
}

/// High byte of the year as a 16-bit number.
pub open spec fn year_high(year: i32) -> u8 {
    (((year as u16) >> 8) & 0xFF) as u8
}

/// The payload for an instant: each calendar field as one byte, the year as
/// two, the day of week counted from Sunday as 0, no fractions, and the
/// manual adjust reason.
pub open spec fn payload_of(t: UtcDateTime) -> TimePayload {
    TimePayload {
        bytes: [
            year_low(t.year),
            year_high(t.year),
            t.month as u8,
            t.day as u8,
            t.hour as u8,
            t.minute as u8,
            t.second as u8,
            t.weekday as u8,
            0u8,
            0u8,
            ADJUST_REASON_MANUAL,
        ],
    }
}

/// Encodes a calendar instant as the payload of the time characteristic.
pub fn encode(t: &UtcDateTime) -> (payload: TimePayload)
    requires
        t.valid(),
    ensures
        payload == payload_of(*t),
        payload@.len() == PAYLOAD_LEN,
{
    let year: u16 = #[verifier::truncate] (t.year as u16);
    let low: u16 = year & 0xFF;
    let high: u16 = (year >> 8) & 0xFF;
    assert(low <= 0xFF) by (bit_vector)
        requires
            low == year & 0xFF,
    ;
    assert(high <= 0xFF) by (bit_vector)
        requires
            high == (year >> 8) & 0xFF,
    ;
    TimePayload {
        bytes: [
            low as u8,
            high as u8,
            t.month as u8,
            t.day as u8,
            t.hour as u8,
            t.minute as u8,
            t.second as u8,
            t.weekday as u8,
            0,
            0,
            ADJUST_REASON_MANUAL,
        ],
    }
}

/// Encodes the instant `secs` seconds after the Unix epoch, or returns `None`
/// where that instant lies outside the calendar's range.
pub fn encode_timestamp(secs: i64) -> (payload: Option<TimePayload>)
    ensures
        payload == match utc_calendar(secs) {
            Some(t) => Some(payload_of(t)),
            None => None,
        },
        payload matches Some(p) ==> {
            &&& p@[4] == second_of_day(secs) / 3600
            &&& p@[5] == second_of_day(secs) / 60 % 60
            &&& p@[6] == second_of_day(secs) % 60
        },
{
    match utc_fields(secs) {
        Some(t) => Some(encode(&t)),
        None => None,
    }
}

/// Encoding is deterministic: two payloads made from the same instant are the
/// same payload, byte for byte.
pub proof fn lemma_encode_is_deterministic(t: UtcDateTime, first: TimePayload, second: TimePayload)
    requires
        first == payload_of(t),
        second == payload_of(t),
    ensures
        first == second,
        first@ == second@,
{
}

/// Every payload has eleven bytes, ends in two zero bytes and the manual
/// adjust reason, and carries each calendar field of a valid instant
/// unchanged in the byte of its own.
pub proof fn lemma_payload_layout(t: UtcDateTime)
    requires
        t.valid(),
    ensures
        payload_of(t)@.len() == PAYLOAD_LEN,
        payload_of(t)@[2] == t.month,
        payload_of(t)@[3] == t.day,
        payload_of(t)@[4] == t.hour,
        payload_of(t)@[5] == t.minute,
        payload_of(t)@[6] == t.second,
        payload_of(t)@[7] == t.weekday,
        payload_of(t)@[8] == 0,
        payload_of(t)@[9] == 0,
        payload_of(t)@[10] == ADJUST_REASON_MANUAL,
{
}

/// The two year bytes give the year back, low byte first, for every year
/// that sixteen bits can hold.
pub proof fn lemma_year_bytes_reconstruct_year(t: UtcDateTime)
    requires
        0 <= t.year <= 0xFFFF,
    ensures
        (payload_of(t)@[0] as u32) | ((payload_of(t)@[1] as u32) << 8) == t.year,
        payload_of(t)@[0] + 256 * payload_of(t)@[1] == t.year,
{
    let year = t.year as u16;
    let low = year_low(t.year);
    let high = year_high(t.year);
    assert(payload_of(t)@[0] == low);
    assert(payload_of(t)@[1] == high);
    assert((low as u32) | ((high as u32) << 8) == year as u32 && low as u32 + 256 * (high as u32)
        == year as u32) by (bit_vector)
        requires
            low == ((year & 0xFF) as u8),
            high == (((year >> 8) & 0xFF) as u8),
    ;
}

} // verus!
