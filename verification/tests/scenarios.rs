use std::time::{SystemTime, UNIX_EPOCH};
use timestamp_microservice::{handle_timestamp, handle_timestamp_at, parse_date_string, Response};

fn valid(unix: i64, utc: &str) -> Response {
    Response::Valid { unix, utc: utc.to_string() }
}

fn system_millis() -> i64 {
    SystemTime::now().duration_since(UNIX_EPOCH).unwrap().as_millis() as i64
}

#[test]
fn empty_text_is_the_present() {
    let before = system_millis();
    let response = handle_timestamp("");
    let after = system_millis();
    match response {
        Response::Valid { unix, utc } => {
            assert!(before - 5_000 <= unix && unix <= after + 5_000);
            assert!(utc.ends_with(" +0000"));
        }
        Response::Invalid => panic!("the present has a date"),
    }
}

#[test]
fn empty_text_reads_the_clock_each_time() {
    let read = || match handle_timestamp("") {
        Response::Valid { unix, .. } => unix,
        Response::Invalid => panic!("the present has a date"),
    };
    let first = read();
    let mut later = first;
    let mut tries: u32 = 0;
    while later == first && tries < 50_000_000 {
        later = read();
        tries += 1;
    }
    assert!(later > first);
}

#[test]
fn empty_text_at_a_given_clock() {
    assert_eq!(
        handle_timestamp_at("", 1_609_459_200, 123_456_789),
        valid(1_609_459_200_123, "Fri, 1 Jan 2021 00:00:00 +0000")
    );
    assert_eq!(handle_timestamp_at("", 253_402_300_800, 0), Response::Invalid);
    assert_eq!(handle_timestamp_at("", 0, 2_000_000_000), Response::Invalid);
}

#[test]
fn clock_is_ignored_for_a_text() {
    assert_eq!(
        handle_timestamp_at("1609459200", 5, 5),
        valid(1_609_459_200_000, "Fri, 1 Jan 2021 00:00:00 +0000")
    );
    assert_eq!(handle_timestamp_at("abc", 5, 5), Response::Invalid);
}

#[test]
fn ten_digits_are_seconds() {
    assert_eq!(
        handle_timestamp("1609459200"),
        valid(1_609_459_200_000, "Fri, 1 Jan 2021 00:00:00 +0000")
    );
}

#[test]
fn thirteen_digits_are_milliseconds() {
    assert_eq!(
        handle_timestamp("1609459200000"),
        valid(1_609_459_200_000, "Fri, 1 Jan 2021 00:00:00 +0000")
    );
}

#[test]
fn timestamp_with_zulu() {
    assert_eq!(
        handle_timestamp("2021-01-01T00:00:00Z"),
        valid(1_609_459_200_000, "Fri, 1 Jan 2021 00:00:00 +0000")
    );
}

#[test]
fn letters_are_invalid() {
    assert_eq!(handle_timestamp("abc"), Response::Invalid);
    assert!(parse_date_string("abc").is_none());
}

#[test]
fn garbage_is_invalid() {
    assert_eq!(handle_timestamp("not-a-date"), Response::Invalid);
    assert_eq!(handle_timestamp("2021-01-01"), Response::Invalid);
    assert_eq!(handle_timestamp("2021-01-01T00:00:00"), Response::Invalid);
    assert_eq!(handle_timestamp("1e9"), Response::Invalid);
    assert_eq!(handle_timestamp("12.5"), Response::Invalid);
    assert_eq!(handle_timestamp(" "), Response::Invalid);
    assert_eq!(handle_timestamp("-"), Response::Invalid);
    assert_eq!(handle_timestamp("+"), Response::Invalid);
    assert_eq!(handle_timestamp("١٢٣"), Response::Invalid);
    assert_eq!(handle_timestamp("Fri, 1 Jan 2021 00:00:00 +0000"), Response::Invalid);
}

#[test]
fn negative_milliseconds_before_1970() {
    assert_eq!(
        handle_timestamp("-5000000000000"),
        valid(-5_000_000_000_000, "Tue, 23 Jul 1811 15:06:40 +0000")
    );
}

#[test]
fn negative_milliseconds_with_a_fraction_are_invalid() {
    assert_eq!(handle_timestamp("-5000000000001"), Response::Invalid);
    assert_eq!(handle_timestamp("-5000000000999"), Response::Invalid);
    assert_eq!(handle_timestamp("-00000000001"), Response::Invalid);
}

#[test]
fn exactly_ten_bytes_are_seconds() {
    assert_eq!(
        handle_timestamp("9999999999"),
        valid(9_999_999_999_000, "Sat, 20 Nov 2286 17:46:39 +0000")
    );
    assert_eq!(
        handle_timestamp("0000000001"),
        valid(1_000, "Thu, 1 Jan 1970 00:00:01 +0000")
    );
}

#[test]
fn eleven_bytes_are_milliseconds() {
    assert_eq!(
        handle_timestamp("10000000000"),
        valid(10_000_000_000, "Sun, 26 Apr 1970 17:46:40 +0000")
    );
    assert_eq!(
        handle_timestamp("00000000001"),
        valid(1, "Thu, 1 Jan 1970 00:00:00 +0000")
    );
}

#[test]
fn the_sign_counts_toward_the_length() {
    assert_eq!(
        handle_timestamp("-999999999"),
        valid(-999_999_999_000, "Sun, 24 Apr 1938 22:13:21 +0000")
    );
    assert_eq!(
        handle_timestamp("-1000000000"),
        valid(-1_000_000_000, "Sat, 20 Dec 1969 10:13:20 +0000")
    );
    assert_eq!(
        handle_timestamp("+160945920"),
        valid(160_945_920_000, "Thu, 6 Feb 1975 19:12:00 +0000")
    );
    assert_eq!(
        handle_timestamp("+1609459200"),
        valid(1_609_459_200, "Mon, 19 Jan 1970 15:04:19 +0000")
    );
}

#[test]
fn small_numbers() {
    assert_eq!(handle_timestamp("0"), valid(0, "Thu, 1 Jan 1970 00:00:00 +0000"));
    assert_eq!(handle_timestamp("-0"), valid(0, "Thu, 1 Jan 1970 00:00:00 +0000"));
    assert_eq!(handle_timestamp("1"), valid(1_000, "Thu, 1 Jan 1970 00:00:01 +0000"));
    assert_eq!(handle_timestamp("-1"), valid(-1_000, "Wed, 31 Dec 1969 23:59:59 +0000"));
    assert_eq!(handle_timestamp("86399"), valid(86_399_000, "Thu, 1 Jan 1970 23:59:59 +0000"));
}

#[test]
fn milliseconds_keep_their_fraction() {
    assert_eq!(
        handle_timestamp("1609459200123"),
        valid(1_609_459_200_123, "Fri, 1 Jan 2021 00:00:00 +0000")
    );
    let datetime = parse_date_string("1609459200123").unwrap();
    assert_eq!(datetime.timestamp(), 1_609_459_200);
    assert_eq!(datetime.timestamp_subsec_nanos(), 123_000_000);
}

#[test]
fn valid_answers_end_with_the_year_9999() {
    assert_eq!(
        handle_timestamp("253402300799999"),
        valid(253_402_300_799_999, "Fri, 31 Dec 9999 23:59:59 +0000")
    );
    assert_eq!(handle_timestamp("253402300800000"), Response::Invalid);
    assert_eq!(handle_timestamp("9223372036854775807"), Response::Invalid);
}

#[test]
fn valid_answers_start_with_the_year_0() {
    assert_eq!(
        handle_timestamp("-62167219200000"),
        valid(-62_167_219_200_000, "Sat, 1 Jan 0000 00:00:00 +0000")
    );
    assert_eq!(handle_timestamp("-62167219201000"), Response::Invalid);
    assert_eq!(handle_timestamp("-9223372036854775808"), Response::Invalid);
}

#[test]
fn numbers_too_large_for_64_bits_are_invalid() {
    assert_eq!(handle_timestamp("9223372036854775808"), Response::Invalid);
    assert_eq!(handle_timestamp("99999999999999999999"), Response::Invalid);
    assert_eq!(handle_timestamp("-9223372036854775809"), Response::Invalid);
}

#[test]
fn timestamp_with_an_offset_is_moved_to_utc() {
    assert_eq!(
        handle_timestamp("2023-05-01T12:00:00+00:00"),
        valid(1_682_942_400_000, "Mon, 1 May 2023 12:00:00 +0000")
    );
    assert_eq!(
        handle_timestamp("2021-01-01T01:00:00+01:00"),
        valid(1_609_459_200_000, "Fri, 1 Jan 2021 00:00:00 +0000")
    );
    assert_eq!(
        handle_timestamp("2020-12-31T16:00:00-08:00"),
        valid(1_609_459_200_000, "Fri, 1 Jan 2021 00:00:00 +0000")
    );
}

#[test]
fn timestamp_in_other_spellings() {
    assert_eq!(
        handle_timestamp("2021-01-01t00:00:00z"),
        valid(1_609_459_200_000, "Fri, 1 Jan 2021 00:00:00 +0000")
    );
    assert_eq!(
        handle_timestamp("2021-01-01 00:00:00Z"),
        valid(1_609_459_200_000, "Fri, 1 Jan 2021 00:00:00 +0000")
    );
}

#[test]
fn timestamp_with_a_fraction() {
    assert_eq!(
        handle_timestamp("2021-01-01T00:00:00.123456789Z"),
        valid(1_609_459_200_123, "Fri, 1 Jan 2021 00:00:00 +0000")
    );
    let datetime = parse_date_string("2021-01-01T00:00:00.123456789Z").unwrap();
    assert_eq!(datetime.timestamp(), 1_609_459_200);
    assert_eq!(datetime.timestamp_subsec_nanos(), 123_456_789);
    assert_eq!(datetime.timestamp_millis(), 1_609_459_200_123);
}

#[test]
fn timestamp_before_1970() {
    assert_eq!(
        handle_timestamp("1969-12-31T23:59:59.500Z"),
        valid(-500, "Wed, 31 Dec 1969 23:59:59 +0000")
    );
}

#[test]
fn timestamp_on_a_leap_second() {
    assert_eq!(
        handle_timestamp("2016-12-31T23:59:60Z"),
        valid(1_483_228_800_000, "Sat, 31 Dec 2016 23:59:60 +0000")
    );
    let datetime = parse_date_string("2016-12-31T23:59:60.25Z").unwrap();
    assert_eq!(datetime.timestamp(), 1_483_228_799);
    assert_eq!(datetime.timestamp_subsec_nanos(), 1_250_000_000);
    assert_eq!(datetime.timestamp_millis(), 1_483_228_800_250);
}

#[test]
fn timestamp_that_leaves_the_years_0_to_9999_in_utc_is_invalid() {
    assert_eq!(handle_timestamp("9999-12-31T23:59:59-01:00"), Response::Invalid);
    assert_eq!(handle_timestamp("0000-01-01T00:00:00+01:00"), Response::Invalid);
    assert_eq!(
        handle_timestamp("9999-12-31T23:59:59Z"),
        valid(253_402_300_799_000, "Fri, 31 Dec 9999 23:59:59 +0000")
    );
    assert_eq!(
        handle_timestamp("0000-01-01T00:00:00Z"),
        valid(-62_167_219_200_000, "Sat, 1 Jan 0000 00:00:00 +0000")
    );
}

#[test]
fn timestamp_with_an_impossible_date_is_invalid() {
    assert_eq!(handle_timestamp("2021-02-30T00:00:00Z"), Response::Invalid);
    assert_eq!(handle_timestamp("2021-13-01T00:00:00Z"), Response::Invalid);
    assert_eq!(handle_timestamp("2021-01-01T24:00:00Z"), Response::Invalid);
    assert_eq!(handle_timestamp("2021-01-01T00:00:00+24:00"), Response::Invalid);
    assert_eq!(handle_timestamp("2021-01-01T00:00:00Z "), Response::Invalid);
}

#[test]
fn a_response_can_be_copied() {
    let response = handle_timestamp("1609459200");
    assert_eq!(response.clone(), response);
    assert_eq!(Response::Invalid.clone(), Response::Invalid);
}
