//! The two ways a date is read from text, and the order between them.
//!
//! A text is first tried as an RFC 3339 timestamp. Only where that fails is
//! it tried as a signed integer: seconds since the epoch where the text has
//! at most ten bytes, milliseconds where it has more.

use crate::datetime::{in_calendar, moment_of, within_calendar, Moment, UtcDateTime};
use crate::decimal::{decimal_i64, parse_i64, MINUS};
use vstd::prelude::*;
use vstd::string::StringSliceAdditionalSpecFns;
use vstd::utf8::encode_utf8;

verus! {

/// The longest text, in bytes, that is read as a count of seconds.
pub const SECONDS_MAX_LEN: usize = 10;

/// `value / divisor` rounded toward zero, for a positive `divisor`.
pub open spec fn quotient_toward_zero(value: int, divisor: int) -> int {
    if value >= 0 {
        value / divisor
    } else {
        -((-value) / divisor)
    }
}

/// What `quotient_toward_zero` leaves over. It has the sign of `value`.
pub open spec fn remainder_toward_zero(value: int, divisor: int) -> int {
    value - divisor * quotient_toward_zero(value, divisor)
}

/// The moment that the integer `value` stands for when it was written in
/// `len` bytes. A negative count of milliseconds that is no whole number of
/// seconds gives a negative nanosecond part, which no date has.
pub open spec fn epoch_moment(value: int, len: nat) -> Moment {
    if len <= SECONDS_MAX_LEN {
        Moment { secs: value, nanos: 0 }
    } else {
        Moment {
            secs: quotient_toward_zero(value, 1_000),
            nanos: remainder_toward_zero(value, 1_000) * 1_000_000,
        }
    }
}

/// The date of the integer `value`, written in `len` bytes: `None` where
/// `epoch_moment` lies outside the calendar.
pub fn epoch_datetime(value: i64, len: usize) -> (datetime: Option<UtcDateTime>)
    ensures
        moment_of(datetime) == within_calendar(Some(epoch_moment(value as int, len as nat))),
{
    if len <= SECONDS_MAX_LEN {
        UtcDateTime::from_timestamp(value, 0)
    } else {
        let seconds: i64 = value / 1_000;
        let remainder: i64 = value % 1_000;
        if remainder < 0 {
            None
        } else {
            UtcDateTime::from_timestamp(seconds, remainder as u32 * 1_000_000)
        }
    }
}

/// The moment that `bytes` names as an integer, if it writes one.
pub open spec fn epoch_reading(bytes: Seq<u8>) -> Option<Moment> {
    match decimal_i64(bytes) {
        Some(value) => Some(epoch_moment(value as int, bytes.len())),
        None => None,
    }
}

/// The instant that chrono finds in `text` read as an RFC 3339 timestamp,
/// in seconds since the epoch and nanoseconds, or `None` where it rejects
/// the text.
pub uninterp spec fn rfc3339_instant(text: Seq<char>) -> Option<(i64, u32)>;

/// Whether the fifth byte is a hyphen, as after the year of a timestamp.
pub open spec fn has_year_hyphen(bytes: Seq<u8>) -> bool {
    bytes.len() > 4 && bytes[4] == MINUS
}

/// The two numbers of an instant as a `Moment`.
pub open spec fn moment_from_parts(parts: Option<(i64, u32)>) -> Option<Moment> {
    match parts {
        Some((secs, nanos)) => Some(Moment { secs: secs as int, nanos: nanos as int }),
        None => None,
    }
}

/// Calls `chrono::DateTime::parse_from_rfc3339`, moves the result to UTC
/// with `with_timezone`, and takes it apart with `timestamp` and
/// `timestamp_subsec_nanos`.
///
/// Not proved: that the outcome depends on the text alone; that the parser
/// accepts no text without a hyphen as its fifth byte, where it looks for
/// the one that ends the year; and that the instant it gives is one of the
/// calendar, as every `DateTime` of chrono is whose offset is a whole
/// number of minutes.
#[verifier::external_body]
fn rfc3339_parts(text: &str) -> (parts: Option<(i64, u32)>)
    ensures
        parts == rfc3339_instant(text@),
        parts is Some ==> has_year_hyphen(text.spec_bytes()),
        parts is Some ==> in_calendar(moment_from_parts(parts)->0),
{
    match chrono::DateTime::parse_from_rfc3339(text) {
        Ok(parsed) => {
            let utc = parsed.with_timezone(&chrono::Utc);
            Some((utc.timestamp(), utc.timestamp_subsec_nanos()))
        },
        Err(_) => None,
    }
}

/// The moment that `text` names as an RFC 3339 timestamp, if it is one.
/// The parser takes no text without the hyphen after the year and gives no
/// instant outside the calendar, so the two tests leave nothing out; they
/// are here so that a run of digits is seen to be no timestamp, and a
/// timestamp to be a date.
pub open spec fn timestamp_reading(text: Seq<char>) -> Option<Moment> {
    if has_year_hyphen(encode_utf8(text)) {
        within_calendar(moment_from_parts(rfc3339_instant(text)))
    } else {
        None
    }
}

/// The date of a text of which `timestamp` is the reading as a timestamp
/// and `bytes` are the bytes: the timestamp where there is one, else the
/// integer, and in either case only a moment inside the calendar.
pub open spec fn select_reading(timestamp: Option<Moment>, bytes: Seq<u8>) -> Option<Moment> {
    within_calendar(
        match timestamp {
            Some(moment) => Some(moment),
            None => epoch_reading(bytes),
        },
    )
}

/// The date that `text` names, or `None` where it names none.
pub open spec fn date_reading(text: Seq<char>) -> Option<Moment> {
    select_reading(timestamp_reading(text), encode_utf8(text))
}

/// Chooses between the two readings of one text. `timestamp` is what the
/// RFC 3339 parser made of it, `bytes` the text itself. The integer is
/// looked at only where there is no timestamp.
pub fn read_date(timestamp: Option<(i64, u32)>, bytes: &[u8]) -> (datetime: Option<UtcDateTime>)
    ensures
        moment_of(datetime) == select_reading(moment_from_parts(timestamp), bytes@),
{
    match timestamp {
        Some((secs, nanos)) => UtcDateTime::from_timestamp(secs, nanos),
        None => match parse_i64(bytes) {
            Some(value) => epoch_datetime(value, bytes.len()),
            None => None,
        },
    }
}

/// Reads a date from `date_string`: an RFC 3339 timestamp, or else a count
/// of seconds or milliseconds since the epoch. Returns `None` where the
/// text is neither, and where the integer names an instant outside the
/// calendar.
pub fn parse_date_string(date_string: &str) -> (datetime: Option<UtcDateTime>)
    ensures
        moment_of(datetime) == date_reading(date_string@),
{
    let timestamp = rfc3339_parts(date_string);
    read_date(timestamp, date_string.as_bytes())
}

} // verus!
