//! The answer to a request for a date, and how it is made.

use crate::datetime::{
    has_rfc2822_text, moment_of, rfc2822_text, unix_millis, within_calendar, Moment,
    UtcDateTime, NANOS_PER_SECOND,
};
use crate::parse::{date_reading, parse_date_string};
use vstd::prelude::*;

verus! {

/// What a request is answered with.
#[derive(Debug, PartialEq, Eq)]
pub enum Response {
    /// The date was read. `unix` is in milliseconds since the epoch, `utc`
    /// is the date in RFC 2822 form.
    Valid { unix: i64, utc: String },
    /// The text names no date, or one that RFC 2822 cannot write.
    Invalid,
}

/// A `Response` as mathematical values.
pub enum Resolution {
    Valid { unix: int, utc: Seq<char> },
    Invalid,
}

impl View for Response {
    type V = Resolution;

    open spec fn view(&self) -> Resolution {
        match self {
            Response::Valid { unix, utc } => Resolution::Valid { unix: *unix as int, utc: utc@ },
            Response::Invalid => Resolution::Invalid,
        }
    }
}

impl Clone for Response {
    fn clone(&self) -> (copy: Self)
        ensures
            copy@ == self@,
    {
        match self {
            Response::Valid { unix, utc } => Response::Valid { unix: *unix, utc: utc.clone() },
            Response::Invalid => Response::Invalid,
        }
    }
}

/// The answer for a reading: both forms of the moment, or `Invalid` where
/// there is no moment or it has no RFC 2822 date.
pub open spec fn resolution_of(reading: Option<Moment>) -> Resolution {
    match reading {
        Some(moment) => if has_rfc2822_text(moment) {
            Resolution::Valid {
                unix: unix_millis(moment),
                utc: rfc2822_text(moment.secs, moment.nanos),
            }
        } else {
            Resolution::Invalid
        },
        None => Resolution::Invalid,
    }
}

/// The answer to `text` when the clock reads `now`: the empty text asks for
/// the present moment, any other for the date it names.
pub open spec fn resolution(text: Seq<char>, now: Moment) -> Resolution {
    if text.len() == 0 {
        resolution_of(within_calendar(Some(now)))
    } else {
        resolution_of(date_reading(text))
    }
}

/// Calls `chrono::Utc::now` and takes the result apart with `timestamp`
/// and `timestamp_subsec_nanos`.
///
/// Not proved: that the clock stands at or after the epoch, and within a
/// second. chrono measures it as a span from the epoch on, whose part of a
/// second is below one second, and panics where the system clock stands
/// before 1970. Of the reading itself nothing is claimed: it changes from
/// call to call.
#[verifier::external_body]
fn clock_reading() -> (now: (i64, u32))
    ensures
        0 <= now.0,
        now.1 < NANOS_PER_SECOND,
{
    let now = chrono::Utc::now();
    (now.timestamp(), now.timestamp_subsec_nanos())
}

/// Answers with the two forms of `reading`, or with `Invalid` where there
/// is no reading or its year lies outside 0 to 9999.
pub fn respond(reading: Option<UtcDateTime>) -> (response: Response)
    ensures
        response@ == resolution_of(moment_of(reading)),
{
    match reading {
        Some(datetime) => match datetime.to_rfc2822() {
            Some(utc) => Response::Valid { unix: datetime.timestamp_millis(), utc },
            None => Response::Invalid,
        },
        None => Response::Invalid,
    }
}

/// Answers `date_string` as if the clock read `now_secs` seconds and
/// `now_nanos` nanoseconds after the epoch.
pub fn handle_timestamp_at(date_string: &str, now_secs: i64, now_nanos: u32) -> (response:
    Response)
    ensures
        response@ == resolution(
            date_string@,
            Moment { secs: now_secs as int, nanos: now_nanos as int },
        ),
{
    if date_string.is_empty() {
        respond(UtcDateTime::from_timestamp(now_secs, now_nanos))
    } else {
        respond(parse_date_string(date_string))
    }
}

/// Whether `now` is a reading that the clock can give: at or after the
/// epoch, and within a second.
pub open spec fn is_clock_reading(now: Moment) -> bool {
    0 <= now.secs && 0 <= now.nanos < NANOS_PER_SECOND
}

/// Answers `date_string`. The clock is read only for the empty text, and
/// once; what it reads is not known here, so of the empty text this says
/// no more than that the answer is the one for some reading of the clock.
pub fn handle_timestamp(date_string: &str) -> (response: Response)
    ensures
        date_string@.len() > 0 ==> response@ == resolution_of(date_reading(date_string@)),
        exists|now: Moment| is_clock_reading(now) && response@ == resolution(date_string@, now),
{
    if date_string.is_empty() {
        let now: (i64, u32) = clock_reading();
        let response = handle_timestamp_at(date_string, now.0, now.1);
        let ghost read = Moment { secs: now.0 as int, nanos: now.1 as int };
        assert(is_clock_reading(read) && response@ == resolution(date_string@, read));
        response
    } else {
        let response = respond(parse_date_string(date_string));
        // The clock plays no part here: any reading of it bears the answer out.
        let ghost any = Moment { secs: 0, nanos: 0 };
        assert(is_clock_reading(any) && response@ == resolution(date_string@, any));
        response
    }
}

} // verus!
