use collection_bot::dates::{
    reproject, timestamp_of_unix, unix_of_timestamp, DateError, Timestamp, MAX_UNIX_TIMESTAMP,
    MIN_UNIX_TIMESTAMP,
};
use collection_bot::collection::{get_new_date_for_tweet, tweet_from_fields, DEFAULT_YEARS_PER_ERA};

fn ts(year: i32, month: u8, day: u8, hour: u8, minute: u8, second: u8) -> Timestamp {
    Timestamp { year, month, day, hour, minute, second }
}

#[test]
fn reprojection_is_deterministic() {
    let src = ts(2024, 2, 29, 10, 0, 0);
    let first = reproject(&src, 1, DEFAULT_YEARS_PER_ERA);
    let second = reproject(&src, 1, DEFAULT_YEARS_PER_ERA);
    assert_eq!(first, second);
    let src2 = ts(2019, 11, 3, 23, 59, 59);
    assert_eq!(reproject(&src2, 5, 2), reproject(&src2, 5, 2));
}

#[test]
fn leap_day_lands_on_end_of_february() {
    let src = ts(2024, 2, 29, 10, 0, 0);
    let got = reproject(&src, 1, 3).unwrap();
    assert_eq!(got, ts(2027, 2, 28, 23, 59, 59));
}

#[test]
fn non_leap_date_passes_through() {
    let src = ts(2021, 6, 15, 8, 0, 0);
    let got = reproject(&src, 2, 3).unwrap();
    assert_eq!(got, ts(2027, 6, 15, 8, 0, 0));
}

#[test]
fn leap_day_to_leap_year_keeps_the_day() {
    let src = ts(2000, 2, 29, 6, 30, 0);
    let got = reproject(&src, 1, 4).unwrap();
    assert_eq!(got, ts(2004, 2, 29, 6, 30, 0));
}

#[test]
fn era_zero_keeps_the_date() {
    let src = ts(2015, 12, 31, 0, 0, 1);
    assert_eq!(reproject(&src, 0, 3).unwrap(), src);
}

#[test]
fn target_year_beyond_range_is_rejected() {
    let src = ts(9998, 1, 1, 0, 0, 0);
    assert_eq!(reproject(&src, 1, 3), Err(DateError::YearOutOfRange));
    let src2 = ts(2020, 5, 5, 5, 5, 5);
    assert_eq!(reproject(&src2, usize::MAX, usize::MAX), Err(DateError::YearOutOfRange));
}

#[test]
fn unix_conversions_match_known_instants() {
    assert_eq!(timestamp_of_unix(0), Some(ts(1970, 1, 1, 0, 0, 0)));
    assert_eq!(timestamp_of_unix(1_000_000_000), Some(ts(2001, 9, 9, 1, 46, 40)));
    assert_eq!(unix_of_timestamp(&ts(1970, 1, 1, 0, 0, 0)), 0);
    assert_eq!(unix_of_timestamp(&ts(2001, 9, 9, 1, 46, 40)), 1_000_000_000);
    assert_eq!(timestamp_of_unix(i64::MAX), None);
}

#[test]
fn tweet_fields_are_assembled() {
    let t = tweet_from_fields(
        7,
        "a.png,b.jpg",
        String::from("hello"),
        String::from("translated"),
        0,
    )
    .unwrap();
    assert_eq!(t.id, 7);
    assert_eq!(t.file_names, vec![String::from("a.png"), String::from("b.jpg")]);
    assert_eq!(t.text, "hello");
    assert_eq!(t.translated_text, "translated");
    assert_eq!(t.date, ts(1970, 1, 1, 0, 0, 0));
}

#[test]
fn representable_span_has_exact_edges() {
    assert_eq!(
        timestamp_of_unix(MIN_UNIX_TIMESTAMP),
        Some(ts(-9999, 1, 1, 0, 0, 0))
    );
    assert_eq!(timestamp_of_unix(MIN_UNIX_TIMESTAMP - 1), None);
    assert_eq!(
        timestamp_of_unix(MAX_UNIX_TIMESTAMP),
        Some(ts(9999, 12, 31, 23, 59, 59))
    );
    assert_eq!(timestamp_of_unix(MAX_UNIX_TIMESTAMP + 1), None);
}

#[test]
fn corrupt_timestamp_is_rejected() {
    let r = tweet_from_fields(1, "x", String::new(), String::new(), i64::MAX);
    assert_eq!(r.err().map(|e| e == DateError::UnrepresentableInstant), Some(true));
    let edge = tweet_from_fields(1, "x", String::new(), String::new(), MAX_UNIX_TIMESTAMP + 1);
    assert!(edge.is_err());
    let inside = tweet_from_fields(1, "x", String::new(), String::new(), MAX_UNIX_TIMESTAMP);
    assert!(inside.is_ok());
}

#[test]
fn target_date_uses_era_and_span() {
    let t = tweet_from_fields(1, "x", String::new(), String::new(), 1_000_000_000).unwrap();
    // 2001-09-09 01:46:40 shifted two eras of three years.
    let target = get_new_date_for_tweet(&t, 2, 3).unwrap();
    assert_eq!(target, ts(2007, 9, 9, 1, 46, 40));
}
