//! Reading of dates given as text: an RFC 3339 timestamp or a count of seconds
//! or milliseconds since the Unix epoch, resolved to an instant in UTC.

pub mod datetime;
pub mod decimal;
pub mod laws;
pub mod parse;
pub mod response;

pub use datetime::UtcDateTime;
pub use parse::parse_date_string;
pub use response::{handle_timestamp, handle_timestamp_at, Response};
