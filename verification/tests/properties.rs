//! End-to-end checks of the library's stated behaviour: literal
//! round-trips, the 12-hour clock, weekday arithmetic, range rejection,
//! the default timezone, and two full phrases.

use when_core::{
    parse_and_resolve, CivilDateTime, ErrorKind, WhenDate, WhenError, WhenInput,
};

fn civil(year: i32, month: u8, day: u8, hour: u8, minute: u8, second: u8) -> CivilDateTime {
    CivilDateTime { year, month, day, hour, minute, second }
}

#[test]
fn literal_round_trip_six_spellings() {
    // the same calendar day in all six spellings resolves identically
    let spellings = [
        "02-01-2004",
        "02/01/2004",
        "January 2, 2004",
        "2004-01-02",
        "2004/01/02",
        "2 January 2004",
    ];
    let now = civil(2025, 7, 3, 2, 22, 0);
    for text in spellings {
        let (rest, date) = WhenDate::parse(text).unwrap();
        assert_eq!(rest, "", "unconsumed input for {text:?}");
        let resolved = date.to_timestamp(&now).unwrap();
        assert_eq!(resolved, civil(2004, 1, 2, 0, 0, 0), "wrong resolution for {text:?}");
    }
}

#[test]
fn twelve_hour_clock_resolution() {
    // 12 AM is midnight, 12 PM is noon, and PM hours 1-11 gain twelve
    let out = parse_and_resolve("12 am", 1_000_000_000).unwrap();
    assert_eq!((out.datetime.hour, out.datetime.minute, out.datetime.second), (0, 0, 0));

    let out = parse_and_resolve("12 pm", 1_000_000_000).unwrap();
    assert_eq!((out.datetime.hour, out.datetime.minute, out.datetime.second), (12, 0, 0));

    for h in 1..=11u8 {
        let text = format!("{h}:15 pm");
        let out = parse_and_resolve(&text, 1_000_000_000).unwrap();
        assert_eq!(out.datetime.hour, h + 12);
        assert_eq!(out.datetime.minute, 15);

        let text = format!("{h}:15 am");
        let out = parse_and_resolve(&text, 1_000_000_000).unwrap();
        assert_eq!(out.datetime.hour, h);
    }
}

#[test]
fn weekday_arithmetic_closure() {
    let weekdays = [
        ("monday", 1),
        ("tuesday", 2),
        ("wednesday", 3),
        ("thursday", 4),
        ("friday", 5),
        ("saturday", 6),
        ("sunday", 7),
    ];
    // fourteen consecutive reference days starting 2001-09-09 (a Sunday),
    // at midnight so day distances read directly off the epoch seconds
    let base = 1_000_000_000 - (1_000_000_000 % 86400);
    for day in 0..14i64 {
        let now = base + day * 86400;
        let now_weekday = jiff::Timestamp::from_second(now)
            .unwrap()
            .to_zoned(jiff::tz::TimeZone::UTC)
            .weekday()
            .to_monday_one_offset() as i64;
        for (name, ordinal) in weekdays {
            let next = parse_and_resolve(&format!("next {name}"), now).unwrap();
            let diff = (next.epoch_second - now) / 86400;
            assert!(1 <= diff && diff <= 7, "next {name}: diff {diff}");
            assert_eq!((now_weekday - 1 + diff).rem_euclid(7) + 1, ordinal);

            let last = parse_and_resolve(&format!("last {name}"), now).unwrap();
            let diff = (last.epoch_second - now) / 86400;
            assert!(-7 <= diff && diff <= -1, "last {name}: diff {diff}");
            assert_eq!((now_weekday - 1 + diff).rem_euclid(7) + 1, ordinal);

            let this = parse_and_resolve(&format!("this {name}"), now).unwrap();
            let diff = (this.epoch_second - now) / 86400;
            assert!(
                -(now_weekday - 1) <= diff && diff <= 7 - now_weekday,
                "this {name}: diff {diff} from weekday {now_weekday}"
            );
            assert_eq!((now_weekday - 1 + diff).rem_euclid(7) + 1, ordinal);
        }
    }
}

#[test]
fn range_rejection() {
    // each out-of-range token is a bounds failure, not a generic
    // grammar failure
    for text in ["13 am", "12:60 am", "12:58:60 am", "24 GMT", "32/12/2004", "01/13/2004"] {
        let err = WhenInput::parse(text).unwrap_err();
        assert_eq!(err.kind, ErrorKind::Bounds, "wrong failure kind for {text:?}");
    }
    let err = WhenInput::parse("13 am").unwrap_err();
    assert_eq!(err.at, 0);
    let err = WhenInput::parse("12:60 am").unwrap_err();
    assert_eq!(err.at, 3);
    let err = WhenInput::parse("01/13/2004").unwrap_err();
    assert_eq!(err.at, 3);
}

#[test]
fn default_timezone_is_utc() {
    let out = parse_and_resolve("yesterday", 1_000_000_000).unwrap();
    assert_eq!(out.offset_seconds, 0);
    assert_eq!(out.epoch_second, 999_913_600);
    assert_eq!(out.datetime, civil(2001, 9, 8, 1, 46, 40));
}

#[test]
fn compound_phrase() {
    // (now - 10 days) + 10 hours, in UTC
    let out = parse_and_resolve("10 days ago at the next 10 hours", 1_000_000_000).unwrap();
    assert_eq!(out.offset_seconds, 0);
    assert_eq!(out.datetime, civil(2001, 8, 30, 11, 46, 40));
    assert_eq!(out.epoch_second, 999_172_000);
}

#[test]
fn full_phrase() {
    // (now + 2 calendar months) with the clock set to 20:30:00, in UTC-8
    let out = parse_and_resolve("in 2 months at 8:30 PM in UTC-8", 1_000_000_000).unwrap();
    assert_eq!(out.offset_seconds, -8 * 3600);
    assert_eq!(out.datetime, civil(2001, 11, 8, 20, 30, 0));
    assert_eq!(out.epoch_second, 1_005_280_200);
}
