//! Instants of the UTC calendar.
//!
//! An instant is a count of whole seconds since 1970-01-01T00:00:00Z and a
//! count of nanoseconds into that second. The nanoseconds reach past one
//! second only to stand for a leap second, which the calendar writes as
//! second 60 of a minute.
//!
//! The calendar is the one chrono keeps, from the year -262143 to the year
//! 262142. Only the years 0 to 9999 of it can be written as an RFC 2822
//! date.

use vstd::prelude::*;

verus! {

/// The first second of the calendar, at the start of the year -262143.
pub const MIN_TIMESTAMP: i64 = -8_334_601_228_800;

/// The last second of the calendar, at the end of the year 262142.
pub const MAX_TIMESTAMP: i64 = 8_210_266_876_799;

/// The first second of the year 0: 0000-01-01T00:00:00Z.
pub const RFC2822_MIN_TIMESTAMP: i64 = -62_167_219_200;

/// The last second of the year 9999: 9999-12-31T23:59:59Z.
pub const RFC2822_MAX_TIMESTAMP: i64 = 253_402_300_799;

/// Nanoseconds in a second.
pub const NANOS_PER_SECOND: u32 = 1_000_000_000;

/// Nanoseconds in a millisecond.
pub const NANOS_PER_MILLI: u32 = 1_000_000;

/// Milliseconds in a second.
pub const MILLIS_PER_SECOND: i64 = 1_000;

/// An instant as plain numbers: seconds since the epoch, and nanoseconds
/// since the start of that second. Any pair of integers is a `Moment`; the
/// ones that are dates are those that `in_calendar` accepts.
pub struct Moment {
    pub secs: int,
    pub nanos: int,
}

/// Whether `moment` is an instant of the calendar: a second between its
/// first and its last, with a nanosecond part that is either within the
/// second or a leap second at the end of a minute.
pub open spec fn in_calendar(moment: Moment) -> bool {
    &&& MIN_TIMESTAMP <= moment.secs <= MAX_TIMESTAMP
    &&& 0 <= moment.nanos < 2 * NANOS_PER_SECOND
    &&& moment.nanos >= NANOS_PER_SECOND ==> moment.secs % 60 == 59
}

/// Whether `moment` lies in the years 0 to 9999, the only ones that an
/// RFC 2822 date can name.
pub open spec fn has_rfc2822_text(moment: Moment) -> bool {
    RFC2822_MIN_TIMESTAMP <= moment.secs <= RFC2822_MAX_TIMESTAMP
}

/// `reading` where it lies in the calendar, and `None` otherwise.
pub open spec fn within_calendar(reading: Option<Moment>) -> Option<Moment> {
    match reading {
        Some(moment) => if in_calendar(moment) {
            Some(moment)
        } else {
            None
        },
        None => None,
    }
}

/// Milliseconds from the epoch to `moment`, the part of a millisecond
/// dropped. During a leap second the count runs on into the next second.
pub open spec fn unix_millis(moment: Moment) -> int {
    moment.secs * MILLIS_PER_SECOND + moment.nanos / (NANOS_PER_MILLI as int)
}

/// The RFC 2822 date that chrono writes for the instant `secs` seconds and
/// `nanos` nanoseconds after the epoch, in UTC: such as
/// `Fri, 1 Jan 2021 00:00:00 +0000`.
pub uninterp spec fn rfc2822_text(secs: int, nanos: int) -> Seq<char>;

/// Calls `chrono::DateTime::from_timestamp` and then `to_rfc2822` on the
/// `DateTime<Utc>` it gives.
///
/// Not proved: that the string depends on the two numbers alone, which is
/// all the contract says of it. Nor that the call returns: inside the
/// calendar `from_timestamp` gives `Some`, and in the years 0 to 9999
/// `to_rfc2822` can write the date; outside them one of the two would
/// panic.
#[verifier::external_body]
fn rfc2822_string(secs: i64, nanos: u32) -> (text: String)
    requires
        in_calendar(Moment { secs: secs as int, nanos: nanos as int }),
        has_rfc2822_text(Moment { secs: secs as int, nanos: nanos as int }),
    ensures
        text@ == rfc2822_text(secs as int, nanos as int),
{
    chrono::DateTime::from_timestamp(secs, nanos).unwrap().to_rfc2822()
}

/// An instant of the calendar, in UTC.
#[derive(Clone, Copy, Debug, PartialEq, Eq)]
pub struct UtcDateTime {
    secs: i64,
    nanos: u32,
}

impl View for UtcDateTime {
    type V = Moment;

    closed spec fn view(&self) -> Moment {
        Moment { secs: self.secs as int, nanos: self.nanos as int }
    }
}

/// The moment that `datetime` holds, if any.
pub open spec fn moment_of(datetime: Option<UtcDateTime>) -> Option<Moment> {
    match datetime {
        Some(datetime) => Some(datetime@),
        None => None,
    }
}

impl UtcDateTime {
    /// Every value lies inside the calendar.
    #[verifier::type_invariant]
    spec fn well_formed(self) -> bool {
        in_calendar(self@)
    }

    /// The instant `secs` seconds and `nanos` nanoseconds after the epoch,
    /// or `None` where that lies outside the calendar.
    pub fn from_timestamp(secs: i64, nanos: u32) -> (datetime: Option<UtcDateTime>)
        ensures
            moment_of(datetime) == within_calendar(
                Some(Moment { secs: secs as int, nanos: nanos as int }),
            ),
    {
        if secs < MIN_TIMESTAMP || secs > MAX_TIMESTAMP {
            return None;
        }
        if nanos >= NANOS_PER_SECOND {
            // `%` keeps the sign of `secs`; the second of the minute does not.
            let remainder: i64 = secs % 60;
            let second: i64 = if remainder < 0 { remainder + 60 } else { remainder };
            assert(second == (secs as int) % 60);
            if nanos >= 2 * NANOS_PER_SECOND || second != 59 {
                return None;
            }
        }
        Some(UtcDateTime { secs, nanos })
    }

    /// Whole seconds since the epoch.
    pub fn timestamp(&self) -> (secs: i64)
        ensures
            secs == self@.secs,
            in_calendar(self@),
    {
        proof {
            use_type_invariant(self);
        }
        self.secs
    }

    /// Nanoseconds since the start of the second.
    pub fn timestamp_subsec_nanos(&self) -> (nanos: u32)
        ensures
            nanos == self@.nanos,
    {
        self.nanos
    }

    /// Milliseconds since the epoch.
    pub fn timestamp_millis(&self) -> (millis: i64)
        ensures
            millis == unix_millis(self@),
    {
        proof {
            use_type_invariant(self);
        }
        let subsec: u32 = self.nanos / NANOS_PER_MILLI;
        self.secs * MILLIS_PER_SECOND + subsec as i64
    }

    /// The date in RFC 2822 form, with the offset `+0000`, or `None` where
    /// the year lies outside 0 to 9999 and the date has no such form.
    pub fn to_rfc2822(&self) -> (text: Option<String>)
        ensures
            has_rfc2822_text(self@) ==> text is Some && text->0@ == rfc2822_text(
                self@.secs,
                self@.nanos,
            ),
            !has_rfc2822_text(self@) ==> text is None,
    {
        proof {
            use_type_invariant(self);
        }
        if self.secs < RFC2822_MIN_TIMESTAMP || self.secs > RFC2822_MAX_TIMESTAMP {
            None
        } else {
            Some(rfc2822_string(self.secs, self.nanos))
        }
    }
}

} // verus!
