//! Timezone clauses and the root grammar.

use when_core::{
    AmPm, AmPmTime, DateDuration, ErrorKind, TimeDuration, TimeKind, WhenDate, WhenExactTime,
    WhenInput, WhenInputTime, WhenNamedTimezone, WhenRelativeDate, WhenRelativeTime, WhenTime,
    WhenTimezone, WhenUtcOffset, WhenUtcOffsetSign,
};

#[test]
fn when_utc_offset_parse_hour() {
    let out = WhenUtcOffset::parse("UTC+1");
    assert!(matches!(
        out,
        Ok((
            "",
            WhenUtcOffset {
                sign: WhenUtcOffsetSign::Plus,
                hour: 1,
                minute: 0,
                second: 0
            }
        ))
    ));
}

#[test]
fn when_utc_offset_parse_hour_and_minute() {
    let out = WhenUtcOffset::parse("UTC-1:30");
    assert!(matches!(
        out,
        Ok((
            "",
            WhenUtcOffset {
                sign: WhenUtcOffsetSign::Minus,
                hour: 1,
                minute: 30,
                second: 0
            }
        ))
    ));
}

#[test]
fn when_utc_offset_parse_all() {
    let out = WhenUtcOffset::parse("UTC+1:30:24");
    assert!(matches!(
        out,
        Ok((
            "",
            WhenUtcOffset {
                sign: WhenUtcOffsetSign::Plus,
                hour: 1,
                minute: 30,
                second: 24
            }
        ))
    ));
}

#[test]
fn when_utc_offset_parse_invalid_hour() {
    let err = WhenUtcOffset::parse("UTC+24").unwrap_err();
    assert_eq!(err.at, 4);
    assert_eq!(err.kind, ErrorKind::Bounds);
}

#[test]
fn when_utc_offset_parse_invalid_minute() {
    let err = WhenUtcOffset::parse("UTC+12:60").unwrap_err();
    assert_eq!(err.at, 7);
    assert_eq!(err.kind, ErrorKind::Bounds);
}

#[test]
fn when_utc_offset_parse_invalid_second() {
    let err = WhenUtcOffset::parse("UTC+12:58:60").unwrap_err();
    assert_eq!(err.at, 10);
    assert_eq!(err.kind, ErrorKind::Bounds);
}

#[test]
fn parse_hour_offset() {
    let (_, out) = WhenUtcOffset::parse("UTC+1").unwrap();
    assert_eq!(out.to_seconds(), 3600);

    let actual = out.to_timezone().unwrap();
    let expected = jiff::tz::Offset::from_hours(1).unwrap();
    assert_eq!(actual.to_fixed_offset().unwrap(), expected);
}

#[test]
fn utc_offset_to_seconds_signs() {
    let (_, plus) = WhenUtcOffset::parse("UTC+1:30:24").unwrap();
    assert_eq!(plus.to_seconds(), 3600 + 30 * 60 + 24);

    let (_, minus) = WhenUtcOffset::parse("UTC-23:59:59").unwrap();
    assert_eq!(minus.to_seconds(), -(23 * 3600 + 59 * 60 + 59));
}

#[test]
fn parse_addis() {
    let (rest, tz) = WhenNamedTimezone::parse("Africa/Addis_Ababa").unwrap();
    assert_eq!(rest, "");
    assert_eq!(tz.name, "Africa/Addis_Ababa");
}

#[test]
fn parse_london() {
    let (rest, tz) = WhenNamedTimezone::parse("Europe/London").unwrap();
    assert_eq!(rest, "");
    assert_eq!(tz.name, "Europe/London");
}

#[test]
fn parse_new_york() {
    let (rest, tz) = WhenNamedTimezone::parse("America/New_York").unwrap();
    assert_eq!(rest, "");
    assert_eq!(tz.name, "America/New_York");
}

#[test]
fn parse_addis_timezone() {
    let (_, out) = WhenNamedTimezone::parse("Africa/Addis_Ababa").unwrap();
    let tz = out.to_timezone().unwrap();
    assert_eq!(tz.iana_name(), Some("Africa/Addis_Ababa"));
}

#[test]
fn parse_offset() {
    let out = WhenTimezone::parse("UTC+3");
    assert!(matches!(
        out,
        Ok((
            "",
            WhenTimezone::UtcOffset(WhenUtcOffset {
                sign: WhenUtcOffsetSign::Plus,
                hour: 3,
                minute: 0,
                second: 0
            })
        ))
    ));
}

#[test]
fn parse_named() {
    let (rest, tz) = WhenTimezone::parse("Africa/Addis_Ababa").unwrap();
    assert_eq!(rest, "");
    match tz {
        WhenTimezone::Named(n) => assert_eq!(n.name, "Africa/Addis_Ababa"),
        other => panic!("expected a named timezone, got {other:?}"),
    }
}

#[test]
fn when_timezone_parse_unknown() {
    let (rest, tz) = WhenTimezone::parse("unknown").unwrap();
    assert_eq!(rest, "");
    match tz {
        WhenTimezone::Named(n) => assert_eq!(n.name, "unknown"),
        other => panic!("expected a named timezone, got {other:?}"),
    }
}

#[test]
fn compare_timezone() {
    let (_, named) = WhenTimezone::parse("Africa/Addis_Ababa").unwrap();
    let (_, offset) = WhenTimezone::parse("UTC+03:00").unwrap();

    let dt = jiff::civil::date(2025, 7, 3)
        .at(2, 22, 0, 0)
        .to_zoned(jiff::tz::TimeZone::UTC)
        .unwrap();

    let named = named.to_timezone().unwrap();
    let offset = offset.to_timezone().unwrap();

    let dt_named = dt.with_time_zone(named);
    let dt_offset = dt.with_time_zone(offset);

    assert_eq!(dt_named, dt_offset);
}

#[test]
fn parse_date_only() {
    let out = WhenInput::parse("in 10 days");
    assert!(matches!(
        out,
        Ok((
            "",
            WhenInput {
                time: WhenInputTime::OnlyDate(WhenDate::Relative(WhenRelativeDate::In(
                    DateDuration::Days(10)
                ))),
                timezone: None
            }
        ))
    ));
}

#[test]
fn parse_time_only() {
    let out = WhenInput::parse("previous 10 hours");
    assert!(matches!(
        out,
        Ok((
            "",
            WhenInput {
                time: WhenInputTime::OnlyTime(WhenTime::Relative(
                    WhenRelativeTime::PreviousDuration(TimeDuration::Hours(10))
                )),
                timezone: None
            }
        ))
    ));
}

#[test]
fn parse_date_and_time() {
    let out = WhenInput::parse("10 days ago at the next 10 hours");
    assert!(matches!(
        out,
        Ok((
            "",
            WhenInput {
                time: WhenInputTime::DateAndTime {
                    date: WhenDate::Relative(WhenRelativeDate::Ago(DateDuration::Days(10))),
                    time: WhenTime::Relative(WhenRelativeTime::NextDuration(TimeDuration::Hours(
                        10
                    ))),
                },
                timezone: None,
            },
        ),)
    ));
}

#[test]
fn parse_date_time_timezone() {
    let (rest, input) =
        WhenInput::parse("10 days ago at the previous hour in Africa/Addis_Ababa").unwrap();
    assert_eq!(rest, "");
    assert!(matches!(
        input.time,
        WhenInputTime::DateAndTime {
            date: WhenDate::Relative(WhenRelativeDate::Ago(DateDuration::Days(10))),
            time: WhenTime::Relative(WhenRelativeTime::PreviousKind(TimeKind::Hour)),
        }
    ));
    match input.timezone {
        Some(WhenTimezone::Named(n)) => assert_eq!(n.name, "Africa/Addis_Ababa"),
        other => panic!("expected a named timezone, got {other:?}"),
    }
}

#[test]
fn parse_sth() {
    let out = WhenInput::parse("in 2 months at 8:30 PM in UTC-8");
    assert!(matches!(
        out,
        Ok((
            "",
            WhenInput {
                time: WhenInputTime::DateAndTime {
                    date: WhenDate::Relative(WhenRelativeDate::In(DateDuration::Months(2))),
                    time: WhenTime::Exact(WhenExactTime::AmPm(AmPmTime {
                        hour: 8,
                        minute: 30,
                        second: 0,
                        period: AmPm::Pm,
                    })),
                },
                timezone: Some(WhenTimezone::UtcOffset(WhenUtcOffset {
                    sign: WhenUtcOffsetSign::Minus,
                    hour: 8,
                    minute: 0,
                    second: 0,
                })),
            },
        ),)
    ));
}

#[test]
fn trailing_garbage_rejected() {
    let err = WhenInput::parse("now banana!").unwrap_err();
    assert_eq!(err.kind, ErrorKind::Tag);

    let err = WhenInput::parse("yesterday in UTC+1 junk").unwrap_err();
    assert_eq!(err.kind, ErrorKind::Trailing);
    assert_eq!(err.at, 18);
}
