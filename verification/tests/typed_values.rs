//! Tests of the typed conversions: decimal parsing and rendering, and
//! the fixed-pattern timestamp parse backed by the calendar library.

use mediainfo::parse::i64_to_string;
use mediainfo::parse::parse_i64;
use mediainfo::parse::parse_u64;
use mediainfo::parse::u64_to_string;
use mediainfo::streams::convert_to_date;
use mediainfo::streams::convert_to_duration;
use mediainfo::streams::convert_to_i64;
use mediainfo::timestamp::parse_utc_timestamp;
use mediainfo::MediaDuration;
use mediainfo::MediaInfoError;
use mediainfo::UtcTimestamp;

#[test]
fn parses_unsigned_decimals() {
    assert_eq!(parse_u64("0"), Some(0));
    assert_eq!(parse_u64("5568"), Some(5568));
    assert_eq!(parse_u64("+42"), Some(42));
    assert_eq!(parse_u64("18446744073709551615"), Some(u64::MAX));
    assert_eq!(parse_u64("18446744073709551616"), None);
    assert_eq!(parse_u64(""), None);
    assert_eq!(parse_u64("+"), None);
    assert_eq!(parse_u64("-1"), None);
    assert_eq!(parse_u64("12a"), None);
    assert_eq!(parse_u64(" 12"), None);
}

#[test]
fn parses_signed_decimals() {
    assert_eq!(parse_i64("551194"), Some(551194));
    assert_eq!(parse_i64("-160"), Some(-160));
    assert_eq!(parse_i64("+379880"), Some(379880));
    assert_eq!(parse_i64("9223372036854775807"), Some(i64::MAX));
    assert_eq!(parse_i64("9223372036854775808"), None);
    assert_eq!(parse_i64("-9223372036854775808"), Some(i64::MIN));
    assert_eq!(parse_i64("-9223372036854775809"), None);
    assert_eq!(parse_i64("-"), None);
    assert_eq!(parse_i64("3.5"), None);
    assert_eq!(parse_i64(""), None);
}

#[test]
fn renders_decimals() {
    assert_eq!(u64_to_string(0), "0");
    assert_eq!(u64_to_string(7), "7");
    assert_eq!(u64_to_string(560), "560");
    assert_eq!(u64_to_string(u64::MAX), "18446744073709551615");
    assert_eq!(i64_to_string(320), "320");
    assert_eq!(i64_to_string(-1), "-1");
    assert_eq!(i64_to_string(i64::MIN), "-9223372036854775808");
}

#[test]
fn converts_query_results_to_integers() {
    assert_eq!(convert_to_i64(Ok("160".to_string())), Ok(160));
    assert_eq!(
        convert_to_i64(Ok("Base Media".to_string())),
        Err(MediaInfoError::NonNumericResult)
    );
    assert_eq!(
        convert_to_i64(Err(MediaInfoError::ZeroLengthResult)),
        Err(MediaInfoError::ZeroLengthResult)
    );
}

#[test]
fn converts_query_results_to_durations() {
    assert_eq!(
        convert_to_duration(Ok("5568".to_string())),
        Ok(MediaDuration { millis: 5568 })
    );
    assert_eq!(
        convert_to_duration(Ok("-1".to_string())),
        Err(MediaInfoError::NonNumericResult)
    );
    assert_eq!(
        convert_to_duration(Err(MediaInfoError::DecodingFailure)),
        Err(MediaInfoError::DecodingFailure)
    );
}

#[test]
fn parses_the_fixed_timestamp_pattern() {
    assert_eq!(
        parse_utc_timestamp("UTC 2010-03-20 21:29:12"),
        Some(UtcTimestamp { year: 2010, month: 3, day: 20, hour: 21, minute: 29, second: 12 })
    );
    assert_eq!(parse_utc_timestamp("2010-03-20 21:29:12"), None);
    assert_eq!(parse_utc_timestamp("UTC 2010-13-20 21:29:12"), None);
    assert_eq!(parse_utc_timestamp("UTC 2010-02-30 21:29:12"), None);
    assert_eq!(parse_utc_timestamp(""), None);
}

#[test]
fn converts_query_results_to_timestamps() {
    assert_eq!(
        convert_to_date(Ok("UTC 1994-09-04 07:15:00".to_string())),
        Ok(UtcTimestamp { year: 1994, month: 9, day: 4, hour: 7, minute: 15, second: 0 })
    );
    assert_eq!(
        convert_to_date(Ok("yesterday".to_string())),
        Err(MediaInfoError::NonNumericResult)
    );
    assert_eq!(
        convert_to_date(Err(MediaInfoError::ZeroLengthResult)),
        Err(MediaInfoError::ZeroLengthResult)
    );
}
