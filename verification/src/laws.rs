//! What holds of every reading and of every answer, proved from the
//! definitions.

use crate::datetime::{
    has_rfc2822_text, in_calendar, rfc2822_text, unix_millis, within_calendar, Moment,
    NANOS_PER_MILLI, NANOS_PER_SECOND, RFC2822_MAX_TIMESTAMP,
};
use crate::decimal::{
    decimal_i64, decimal_value, digits_value, is_digit, is_digits,
    lemma_decimal_bytes_are_digits, lemma_decimal_value_bound, lemma_digits_value_bound,
    lemma_pow10_grows, pow10, unsigned_part,
};
use crate::parse::{
    date_reading, epoch_moment, epoch_reading, has_year_hyphen, timestamp_reading,
    SECONDS_MAX_LEN,
};
use crate::response::{is_clock_reading, resolution, resolution_of, Resolution};
use vstd::prelude::*;
use vstd::utf8::encode_utf8;

verus! {

/// The first millisecond of the calendar.
pub const MIN_UNIX_MILLIS: i64 = -8_334_601_228_800_000;

/// The last millisecond of the calendar.
pub const MAX_UNIX_MILLIS: i64 = 8_210_266_876_799_999;

/// The first millisecond of the year 0.
pub const RFC2822_MIN_UNIX_MILLIS: i64 = -62_167_219_200_000;

/// The last millisecond of the year 9999.
pub const RFC2822_MAX_UNIX_MILLIS: i64 = 253_402_300_799_999;

/// The most digits that always write a millisecond of the calendar.
pub const MILLIS_SAFE_LEN: usize = 15;

/// Only the empty text has no bytes.
pub proof fn lemma_bytes_of_text(text: Seq<char>)
    ensures
        text.len() == 0 <==> encode_utf8(text).len() == 0,
{
    if text.len() > 0 {
        assert(encode_utf8(text) == vstd::utf8::encode_scalar(text[0] as u32) + encode_utf8(
            text.drop_first(),
        ));
    }
}

/// No text is both an integer and a timestamp.
pub proof fn lemma_readings_exclude_each_other(text: Seq<char>)
    ensures
        !(decimal_value(encode_utf8(text)) is Some && timestamp_reading(text) is Some),
{
    let bytes = encode_utf8(text);
    if decimal_value(bytes) is Some && has_year_hyphen(bytes) {
        lemma_decimal_bytes_are_digits(bytes, 4);
    }
}

/// Inside the calendar the milliseconds run from its first to the end of a
/// leap second that closes its last.
pub proof fn lemma_unix_millis_range(moment: Moment)
    requires
        in_calendar(moment),
    ensures
        MIN_UNIX_MILLIS <= unix_millis(moment) <= MAX_UNIX_MILLIS + 1_000,
        has_rfc2822_text(moment) ==> RFC2822_MIN_UNIX_MILLIS <= unix_millis(moment)
            <= RFC2822_MAX_UNIX_MILLIS + 1_000,
{
}

/// Whatever is read is a moment of the calendar.
pub proof fn lemma_reading_in_calendar(text: Seq<char>)
    requires
        date_reading(text) is Some,
    ensures
        in_calendar(date_reading(text)->0),
{
}

/// A valid answer has a `unix` in the years 0 to 9999, whatever was asked
/// and whatever the clock read.
pub proof fn lemma_valid_unix_range(text: Seq<char>, now: Moment)
    requires
        resolution(text, now) is Valid,
    ensures
        RFC2822_MIN_UNIX_MILLIS <= resolution(text, now)->unix <= RFC2822_MAX_UNIX_MILLIS
            + 1_000,
{
    if text.len() == 0 {
        lemma_unix_millis_range(now);
    } else {
        lemma_unix_millis_range(date_reading(text)->0);
    }
}

/// The timestamp comes first: a text that is an RFC 3339 timestamp is read
/// as the instant of that timestamp, whatever the text is as an integer.
/// The answer is the one for that instant, valid exactly where its year
/// lies in 0 to 9999.
pub proof fn lemma_timestamp_comes_first(text: Seq<char>, now: Moment)
    requires
        timestamp_reading(text) is Some,
    ensures
        date_reading(text) == timestamp_reading(text),
        resolution(text, now) == resolution_of(timestamp_reading(text)),
        resolution(text, now) is Valid <==> has_rfc2822_text(timestamp_reading(text)->0),
{
    lemma_bytes_of_text(text);
}

/// A timestamp keeps its instant: where the text is an RFC 3339 timestamp of
/// a moment in the years 0 to 9999, the answer is valid and `unix` is the
/// millisecond in which that moment falls.
pub proof fn lemma_timestamp_keeps_instant(text: Seq<char>, now: Moment)
    requires
        timestamp_reading(text) is Some,
        has_rfc2822_text(timestamp_reading(text)->0),
    ensures
        ({
            let moment = timestamp_reading(text)->0;
            &&& resolution(text, now) == Resolution::Valid {
                unix: unix_millis(moment),
                utc: rfc2822_text(moment.secs, moment.nanos),
            }
            &&& unix_millis(moment) * NANOS_PER_MILLI <= moment.secs * NANOS_PER_SECOND
                + moment.nanos < (unix_millis(moment) + 1) * NANOS_PER_MILLI
        }),
{
    lemma_timestamp_comes_first(text, now);
}

/// An integer written in at most ten bytes counts seconds: it is read as
/// that second, the answer is valid, and `unix` is a thousand times the
/// integer.
pub proof fn lemma_short_integer_counts_seconds(text: Seq<char>, now: Moment)
    requires
        decimal_value(encode_utf8(text)) is Some,
        encode_utf8(text).len() <= SECONDS_MAX_LEN,
    ensures
        ({
            let value = decimal_value(encode_utf8(text))->0;
            &&& date_reading(text) == Some(Moment { secs: value, nanos: 0 })
            &&& resolution(text, now) == Resolution::Valid {
                unix: 1_000 * value,
                utc: rfc2822_text(value, 0),
            }
        }),
{
    let bytes = encode_utf8(text);
    lemma_bytes_of_text(text);
    lemma_readings_exclude_each_other(text);
    lemma_decimal_value_bound(bytes);
    lemma_pow10_grows(bytes.len(), 10);
    assert(pow10(10) == 10_000_000_000) by {
        reveal_with_fuel(pow10, 11);
    }
}

/// A run of more than ten digits counts milliseconds. Where it writes no
/// more than `MAX_UNIX_MILLIS` it is read as that millisecond. The answer
/// is valid, with the number itself for `unix`, up to
/// `RFC2822_MAX_UNIX_MILLIS`, and invalid above.
pub proof fn lemma_long_digits_count_millis(text: Seq<char>, now: Moment)
    requires
        is_digits(encode_utf8(text)),
        encode_utf8(text).len() > SECONDS_MAX_LEN,
        digits_value(encode_utf8(text)) <= MAX_UNIX_MILLIS,
    ensures
        ({
            let value = digits_value(encode_utf8(text));
            let moment = Moment { secs: value / 1_000, nanos: (value % 1_000) * 1_000_000 };
            &&& date_reading(text) == Some(moment)
            &&& unix_millis(moment) == value
            &&& value <= RFC2822_MAX_UNIX_MILLIS ==> resolution(text, now) == (Resolution::Valid {
                unix: value,
                utc: rfc2822_text(moment.secs, moment.nanos),
            })
            &&& value > RFC2822_MAX_UNIX_MILLIS ==> resolution(text, now) == Resolution::Invalid
        }),
{
    let bytes = encode_utf8(text);
    assert(is_digit(bytes[0]));
    assert(unsigned_part(bytes) == bytes);
    lemma_digits_value_bound(bytes);
    lemma_long_integer_counts_millis(text, now);
}

/// A run of eleven to fifteen digits is always read, as the millisecond it
/// writes.
pub proof fn lemma_digits_up_to_fifteen_are_read(text: Seq<char>)
    requires
        is_digits(encode_utf8(text)),
        SECONDS_MAX_LEN < encode_utf8(text).len() <= MILLIS_SAFE_LEN,
    ensures
        date_reading(text) is Some,
        unix_millis(date_reading(text)->0) == digits_value(encode_utf8(text)),
{
    let bytes = encode_utf8(text);
    lemma_digits_value_bound(bytes);
    lemma_pow10_grows(bytes.len(), 15);
    assert(pow10(15) == 1_000_000_000_000_000) by {
        reveal_with_fuel(pow10, 16);
    }
    lemma_long_digits_count_millis(text, Moment { secs: 0, nanos: 0 });
}

/// An integer written in more than ten bytes counts milliseconds. It is
/// read exactly where it lies between `MIN_UNIX_MILLIS` and
/// `MAX_UNIX_MILLIS` and, if negative, is a whole number of seconds, and
/// then as the millisecond it writes. The answer is valid exactly where
/// that millisecond lies in the years 0 to 9999; `unix` is then the integer
/// itself.
pub proof fn lemma_long_integer_counts_millis(text: Seq<char>, now: Moment)
    requires
        decimal_i64(encode_utf8(text)) is Some,
        encode_utf8(text).len() > SECONDS_MAX_LEN,
    ensures
        ({
            let value = decimal_i64(encode_utf8(text))->0 as int;
            let whole = value >= 0 || value % 1_000 == 0;
            let read = MIN_UNIX_MILLIS <= value <= MAX_UNIX_MILLIS && whole;
            let valid = RFC2822_MIN_UNIX_MILLIS <= value <= RFC2822_MAX_UNIX_MILLIS && whole;
            &&& read <==> date_reading(text) is Some
            &&& read ==> unix_millis(date_reading(text)->0) == value
            &&& valid <==> resolution(text, now) is Valid
            &&& valid ==> resolution(text, now)->unix == value
        }),
{
    let bytes = encode_utf8(text);
    let value = decimal_i64(bytes)->0 as int;
    lemma_bytes_of_text(text);
    lemma_readings_exclude_each_other(text);
    assert(date_reading(text) == within_calendar(epoch_reading(bytes)));
    assert(epoch_reading(bytes) == Some(epoch_moment(value, bytes.len())));
}

/// The empty text is answered with the present moment: valid, with `unix`
/// the clock's reading in milliseconds, wherever the clock stands in the
/// years 0 to 9999 of the calendar, and invalid elsewhere.
pub proof fn lemma_empty_text_is_now(text: Seq<char>, now: Moment)
    requires
        text.len() == 0,
    ensures
        in_calendar(now) && has_rfc2822_text(now) ==> resolution(text, now) == (Resolution::Valid {
            unix: unix_millis(now),
            utc: rfc2822_text(now.secs, now.nanos),
        }),
        !(in_calendar(now) && has_rfc2822_text(now)) ==> resolution(text, now) == (
        Resolution::Invalid),
{
}

/// While the clock has not passed the year 9999, the empty text gets a
/// valid answer, and `unix` is no earlier than the epoch.
pub proof fn lemma_empty_text_is_valid(text: Seq<char>, now: Moment)
    requires
        text.len() == 0,
        is_clock_reading(now),
        now.secs <= RFC2822_MAX_TIMESTAMP,
    ensures
        resolution(text, now) is Valid,
        resolution(text, now)->unix == unix_millis(now),
        0 <= unix_millis(now),
{
}

/// A text that is neither empty, nor a timestamp, nor an integer that fits
/// in 64 bits, is read as nothing and answered with `Invalid`.
pub proof fn lemma_unreadable_is_invalid(text: Seq<char>, now: Moment)
    requires
        text.len() > 0,
        timestamp_reading(text) is None,
        decimal_i64(encode_utf8(text)) is None,
    ensures
        date_reading(text) is None,
        resolution(text, now) == Resolution::Invalid,
{
}

} // verus!
