//! The scalar conversions of the wire protocol: time points, durations and
//! bit fields.
//!
//! The daemon sends a time point as seconds since the Unix epoch, a duration
//! as a number of seconds and a bit field as base64 text. A value that says
//! nothing (zero or a negative number, text that is no base64) is read as
//! absent; it never makes the surrounding answer unreadable.

use crate::json::{field, Json, JsonValue};
use crate::wire::{integer_between, integer_value, read_integer};
use base64::Engine;
use vstd::prelude::*;

verus! {

/// A point in time: seconds since the Unix epoch and the nanoseconds that
/// follow that second.
#[derive(Debug, Clone, Copy, PartialEq, Eq, Structural)]
pub struct TimePoint {
    pub secs: i64,
    pub nanos: u32,
}

/// A length of time, in whole seconds.
#[derive(Debug, Clone, Copy, PartialEq, Eq, Structural)]
pub struct TimeSpan {
    pub secs: i64,
}

impl DeepView for TimePoint {
    type V = TimePoint;

    open spec fn deep_view(&self) -> TimePoint {
        *self
    }
}

impl DeepView for TimeSpan {
    type V = TimeSpan;

    open spec fn deep_view(&self) -> TimeSpan {
        *self
    }
}

/// The last second that a UTC time point of `chrono` can hold: the end of the
/// year 262142.
pub const LAST_SECOND: i64 = 8_210_266_876_799;

/// The longest duration of `chrono` in whole seconds: `i64::MAX`
/// milliseconds.
pub const LONGEST_SPAN: i64 = 9_223_372_036_854_775;

/// The nanoseconds of a second.
pub const NANOS_PER_SECOND: i128 = 1_000_000_000;

/// The seconds of a day.
pub const SECONDS_PER_DAY: i128 = 86_400;

/// The time point that a positive number of seconds stands for: absent where
/// the number is not positive or lies after the last representable second.
pub open spec fn time_point_at(secs: int) -> Option<TimePoint> {
    if 0 < secs <= LAST_SECOND {
        Some(TimePoint { secs: secs as i64, nanos: 0 })
    } else {
        None
    }
}

/// The duration that a positive number of seconds stands for: absent where
/// the number is not positive or longer than the longest duration.
pub open spec fn time_span_of(secs: int) -> Option<TimeSpan> {
    if 0 < secs <= LONGEST_SPAN {
        Some(TimeSpan { secs: secs as i64 })
    } else {
        None
    }
}

/// A time point on the wire: `null` or an integer that fits 64 bits. Any
/// other value is not accepted.
pub open spec fn decoded_timestamp(value: JsonValue) -> Option<Option<TimePoint>> {
    match value {
        JsonValue::Null => Some(None),
        _ => match integer_between(value, i64::MIN as int, i64::MAX as int) {
            Some(n) => Some(time_point_at(n)),
            None => None,
        },
    }
}

/// A duration on the wire: `null` or an integer that fits 64 bits. Any other
/// value is not accepted.
pub open spec fn decoded_time(value: JsonValue) -> Option<Option<TimeSpan>> {
    match value {
        JsonValue::Null => Some(None),
        _ => match integer_between(value, i64::MIN as int, i64::MAX as int) {
            Some(n) => Some(time_span_of(n)),
            None => None,
        },
    }
}

/// What the standard base64 alphabet with padding decodes a text to, or
/// nothing where the text is no such encoding.
pub uninterp spec fn base64_decoded(text: Seq<char>) -> Option<Seq<u8>>;

/// A bit field on the wire: a text. Any other value is not accepted.
pub open spec fn decoded_bitfield(value: JsonValue) -> Option<Option<Seq<u8>>> {
    match value {
        JsonValue::Text(t) => Some(base64_decoded(t)),
        _ => None,
    }
}

/// The nanoseconds from the Unix epoch to a time point.
pub open spec fn nanos_of(t: TimePoint) -> int {
    t.secs * 1_000_000_000 + t.nanos
}

/// Whether more than `days` days lie between `then` and the later `now`.
pub open spec fn older_than(then: TimePoint, now: TimePoint, days: nat) -> bool {
    nanos_of(now) - nanos_of(then) > days * 86_400 * 1_000_000_000
}

/// `chrono::DateTime::<Utc>::from_timestamp_secs`, read back through
/// `timestamp` and `timestamp_subsec_nanos`: the time point of a positive
/// number of seconds, or nothing where it lies after the year 262142.
#[verifier::external_body]
fn utc_from_timestamp_secs(secs: i64) -> (r: Option<TimePoint>)
    requires
        secs > 0,
    ensures
        r == time_point_at(secs as int),
{
    chrono::DateTime::from_timestamp_secs(secs).map(
        |t| TimePoint { secs: t.timestamp(), nanos: t.timestamp_subsec_nanos() },
    )
}

/// `chrono::TimeDelta::new` with no nanoseconds, read back through
/// `num_seconds`: the duration of a positive number of seconds, or nothing
/// where it is longer than `i64::MAX` milliseconds.
#[verifier::external_body]
fn time_delta_from_secs(secs: i64) -> (r: Option<TimeSpan>)
    requires
        secs > 0,
    ensures
        r == time_span_of(secs as int),
{
    chrono::TimeDelta::new(secs, 0).map(|d| TimeSpan { secs: d.num_seconds() })
}

/// `base64::Engine::decode` of `base64::engine::general_purpose::STANDARD`.
/// The bytes decoded are named by [`base64_decoded`]: they depend on the text
/// alone.
#[verifier::external_body]
fn base64_standard_decode(text: &str) -> (r: Option<Vec<u8>>)
    ensures
        match r {
            Some(bytes) => base64_decoded(text@) == Some(bytes@),
            None => base64_decoded(text@) is None,
        },
{
    base64::engine::general_purpose::STANDARD.decode(text).ok()
}

/// Reads a time point.
pub fn deserialize_timestamp(json: &Json) -> (r: Option<Option<TimePoint>>)
    ensures
        r == decoded_timestamp(json@),
{
    if json.is_null() {
        return Some(None);
    }
    match read_integer(json, i64::MIN as i128, i64::MAX as i128) {
        Some(n) => if n > 0 {
            Some(utc_from_timestamp_secs(n as i64))
        } else {
            Some(None)
        },
        None => None,
    }
}

/// Reads a duration.
pub fn deserialize_time(json: &Json) -> (r: Option<Option<TimeSpan>>)
    ensures
        r == decoded_time(json@),
{
    if json.is_null() {
        return Some(None);
    }
    match read_integer(json, i64::MIN as i128, i64::MAX as i128) {
        Some(n) => if n > 0 {
            Some(time_delta_from_secs(n as i64))
        } else {
            Some(None)
        },
        None => None,
    }
}

/// Reads a bit field. Text that is no base64 gives an absent bit field.
pub fn deserialize_bitfield(json: &Json) -> (r: Option<Option<Vec<u8>>>)
    ensures
        r.deep_view() == decoded_bitfield(json@),
{
    match json {
        Json::Text(t) => {
            let bytes = base64_standard_decode(t.as_str());
            proof {
                if bytes is Some {
                    assert(bytes->0.deep_view() =~= bytes->0@);
                }
            }
            Some(bytes)
        },
        _ => None,
    }
}

/// The time point at the member `key` of an object, absent where the member
/// is missing.
#[verifier::opaque]
pub open spec fn timestamp_at(object: JsonValue, key: Seq<char>) -> Option<Option<TimePoint>> {
    match field(object, key) {
        None => Some(None),
        Some(v) => decoded_timestamp(v),
    }
}

/// The duration at the member `key` of an object, absent where the member is
/// missing.
#[verifier::opaque]
pub open spec fn time_at(object: JsonValue, key: Seq<char>) -> Option<Option<TimeSpan>> {
    match field(object, key) {
        None => Some(None),
        Some(v) => decoded_time(v),
    }
}

/// The bit field at the member `key` of an object, absent where the member is
/// missing.
#[verifier::opaque]
pub open spec fn bitfield_at(object: JsonValue, key: Seq<char>) -> Option<Option<Seq<u8>>> {
    match field(object, key) {
        None => Some(None),
        Some(v) => decoded_bitfield(v),
    }
}

/// Reads the time point at the member `key` of an object.
pub fn read_timestamp(object: &Json, key: &str) -> (r: Option<Option<TimePoint>>)
    ensures
        r == timestamp_at(object@, key@),
{
    reveal(timestamp_at);
    match object.get(key) {
        None => Some(None),
        Some(v) => deserialize_timestamp(v),
    }
}

/// Reads the duration at the member `key` of an object.
pub fn read_time(object: &Json, key: &str) -> (r: Option<Option<TimeSpan>>)
    ensures
        r == time_at(object@, key@),
{
    reveal(time_at);
    match object.get(key) {
        None => Some(None),
        Some(v) => deserialize_time(v),
    }
}

/// Reads the bit field at the member `key` of an object.
pub fn read_bitfield(object: &Json, key: &str) -> (r: Option<Option<Vec<u8>>>)
    ensures
        r.deep_view() == bitfield_at(object@, key@),
{
    reveal(bitfield_at);
    match object.get(key) {
        None => Some(None),
        Some(v) => deserialize_bitfield(v),
    }
}

/// A count of seconds that is not positive stands for no time point: it is
/// read as absent, and the value is accepted.
pub proof fn timestamp_not_positive_is_absent(secs: int)
    requires
        i64::MIN <= secs <= 0,
    ensures
        decoded_timestamp(integer_value(secs)) == Some(None::<TimePoint>),
{
}

/// A count of seconds that is not positive stands for no duration: it is read
/// as absent, and the value is accepted.
pub proof fn duration_not_positive_is_absent(secs: int)
    requires
        i64::MIN <= secs <= 0,
    ensures
        decoded_time(integer_value(secs)) == Some(None::<TimeSpan>),
{
}

/// A text is always accepted as a bit field: where it is no base64, the bit
/// field is absent, and what surrounds it is read all the same.
pub proof fn bitfield_text_is_accepted(object: JsonValue, key: Seq<char>, text: Seq<char>)
    requires
        field(object, key) == Some(JsonValue::Text(text)),
    ensures
        decoded_bitfield(JsonValue::Text(text)) == Some(base64_decoded(text)),
        bitfield_at(object, key) is Some,
        base64_decoded(text) is None ==> bitfield_at(object, key) == Some(None::<Seq<u8>>),
{
    reveal(bitfield_at);
}

impl TimePoint {
    /// Whether more than `days` days have passed at `now` since this time
    /// point.
    pub fn is_older_than(&self, now: &TimePoint, days: u32) -> (r: bool)
        ensures
            r == older_than(*self, *now, days as nat),
    {
        let then: i128 = self.secs as i128 * NANOS_PER_SECOND + self.nanos as i128;
        let today: i128 = now.secs as i128 * NANOS_PER_SECOND + now.nanos as i128;
        let limit: i128 = days as i128 * SECONDS_PER_DAY * NANOS_PER_SECOND;
        today - then > limit
    }
}

} // verus!
