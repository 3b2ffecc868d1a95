#![allow(deprecated)]

use chrono::{TimeZone, Utc};
use slash::model::snowflake::{Snowflake, Timestamp, DISCORD_EPOCH};

#[test]
fn test_snowflake_decode() {
    let snowflake = Snowflake::parse("940565712559304734").unwrap();
    let timestamp = Utc.ymd(2022, 02, 8).and_hms_milli(11, 12, 20, 740);
    assert_eq!(
        snowflake.timestamp().millis as i64,
        timestamp.timestamp_millis()
    );
}

#[test]
fn test_snowflake_new() {
    let timestamp = Utc.ymd(2022, 02, 8).and_hms_milli(11, 42, 11, 922);
    let snowflake = Snowflake::new(Timestamp {
        millis: timestamp.timestamp_millis() as u64,
    });
    assert_eq!(
        snowflake.timestamp().millis as i64,
        timestamp.timestamp_millis()
    );
}

#[test]
fn snowflake_parse_rejects_bad_text() {
    assert!(Snowflake::parse("").is_none());
    assert!(Snowflake::parse("12a").is_none());
    assert!(Snowflake::parse("99999999999999999999").is_none());
}

#[test]
fn snowflake_round_trips_through_text() {
    let snowflake = Snowflake::from(940565712559304734u64);
    let text = snowflake.to_text();
    assert_eq!(text, "940565712559304734");
    assert_eq!(Snowflake::parse(&text).unwrap(), snowflake);
}

#[test]
fn snowflake_now_is_aligned() {
    let snowflake = Snowflake::now();
    assert_eq!(snowflake.get() % 0x400000, 0);
    // The clock is past the platform epoch, so the timestamp is after it.
    assert!(snowflake.timestamp().millis >= DISCORD_EPOCH);
}

#[test]
fn snowflake_from_u64_keeps_the_value() {
    let snowflake = Snowflake::from(42u64);
    assert_eq!(snowflake.get(), 42);
}
