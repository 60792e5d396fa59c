//! Calendar and clock durations in every unit spelling, spaced and
//! adjacent.

use when_core::{DateDuration, ErrorKind, TimeDuration};

#[test]
fn parse_days() {
    let out = DateDuration::parse("0 days");
    assert!(matches!(out, Ok(("", DateDuration::Days(0)))));

    let out = DateDuration::parse("1 day");
    assert!(matches!(out, Ok(("", DateDuration::Days(1)))));

    let out = DateDuration::parse("100 days");
    assert!(matches!(out, Ok(("", DateDuration::Days(100)))));

    let out = DateDuration::parse("200 day");
    assert!(matches!(out, Ok(("", DateDuration::Days(200)))));

    let out = DateDuration::parse("300days");
    assert!(matches!(out, Ok(("", DateDuration::Days(300)))));
}

#[test]
fn parse_weeks() {
    let out = DateDuration::parse("0 weeks");
    assert!(matches!(out, Ok(("", DateDuration::Weeks(0)))));

    let out = DateDuration::parse("1 week");
    assert!(matches!(out, Ok(("", DateDuration::Weeks(1)))));

    let out = DateDuration::parse("100 weeks");
    assert!(matches!(out, Ok(("", DateDuration::Weeks(100)))));

    let out = DateDuration::parse("200 week");
    assert!(matches!(out, Ok(("", DateDuration::Weeks(200)))));

    let out = DateDuration::parse("300weeks");
    assert!(matches!(out, Ok(("", DateDuration::Weeks(300)))));
}

#[test]
fn parse_months() {
    let out = DateDuration::parse("0 months");
    assert!(matches!(out, Ok(("", DateDuration::Months(0)))));

    let out = DateDuration::parse("1 month");
    assert!(matches!(out, Ok(("", DateDuration::Months(1)))));

    let out = DateDuration::parse("100 months");
    assert!(matches!(out, Ok(("", DateDuration::Months(100)))));

    let out = DateDuration::parse("200 month");
    assert!(matches!(out, Ok(("", DateDuration::Months(200)))));

    let out = DateDuration::parse("300months");
    assert!(matches!(out, Ok(("", DateDuration::Months(300)))));
}

#[test]
fn parse_years() {
    let out = DateDuration::parse("0 years");
    assert!(matches!(out, Ok(("", DateDuration::Years(0)))));

    let out = DateDuration::parse("1 year");
    assert!(matches!(out, Ok(("", DateDuration::Years(1)))));

    let out = DateDuration::parse("100 years");
    assert!(matches!(out, Ok(("", DateDuration::Years(100)))));

    let out = DateDuration::parse("200 year");
    assert!(matches!(out, Ok(("", DateDuration::Years(200)))));

    let out = DateDuration::parse("300years");
    assert!(matches!(out, Ok(("", DateDuration::Years(300)))));
}

#[test]
fn date_duration_parse_unknown() {
    let err = DateDuration::parse("unknown").unwrap_err();
    assert_eq!(err.at, 0);
    assert_eq!(err.kind, ErrorKind::Digit);
}

#[test]
fn parse_seconds() {
    let out = TimeDuration::parse("0 seconds");
    assert!(matches!(out, Ok(("", TimeDuration::Seconds(0)))));

    let out = TimeDuration::parse("1 second");
    assert!(matches!(out, Ok(("", TimeDuration::Seconds(1)))));

    let out = TimeDuration::parse("100 secs");
    assert!(matches!(out, Ok(("", TimeDuration::Seconds(100)))));

    let out = TimeDuration::parse("200 sec");
    assert!(matches!(out, Ok(("", TimeDuration::Seconds(200)))));

    let out = TimeDuration::parse("300s");
    assert!(matches!(out, Ok(("", TimeDuration::Seconds(300)))));
}

#[test]
fn parse_minutes() {
    let out = TimeDuration::parse("0 minutes");
    assert!(matches!(out, Ok(("", TimeDuration::Minutes(0)))));

    let out = TimeDuration::parse("1 minute");
    assert!(matches!(out, Ok(("", TimeDuration::Minutes(1)))));

    let out = TimeDuration::parse("100 mins");
    assert!(matches!(out, Ok(("", TimeDuration::Minutes(100)))));

    let out = TimeDuration::parse("200 min");
    assert!(matches!(out, Ok(("", TimeDuration::Minutes(200)))));

    let out = TimeDuration::parse("300m");
    assert!(matches!(out, Ok(("", TimeDuration::Minutes(300)))));
}

#[test]
fn parse_hours() {
    let out = TimeDuration::parse("0 hours");
    assert!(matches!(out, Ok(("", TimeDuration::Hours(0)))));

    let out = TimeDuration::parse("1 hour");
    assert!(matches!(out, Ok(("", TimeDuration::Hours(1)))));

    let out = TimeDuration::parse("100 hrs");
    assert!(matches!(out, Ok(("", TimeDuration::Hours(100)))));

    let out = TimeDuration::parse("200 hr");
    assert!(matches!(out, Ok(("", TimeDuration::Hours(200)))));

    let out = TimeDuration::parse("300h");
    assert!(matches!(out, Ok(("", TimeDuration::Hours(300)))));
}

#[test]
fn time_duration_parse_unknown() {
    let err = TimeDuration::parse("unknown").unwrap_err();
    assert_eq!(err.at, 0);
    assert_eq!(err.kind, ErrorKind::Digit);
}

#[test]
fn duration_magnitude_overflow_rejected() {
    // a magnitude that does not fit the carrier type is a bounds failure
    // at the number's own position
    let err = DateDuration::parse("99999999999 days").unwrap_err();
    assert_eq!(err.at, 0);
    assert_eq!(err.kind, ErrorKind::Bounds);
}
