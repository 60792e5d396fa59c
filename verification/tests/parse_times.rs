//! Literal clock readings, relative times, and the time clause.

use when_core::{
    AmPm, AmPmTime, ErrorKind, GmtTime, TimeDuration, TimeKind, WhenExactTime, WhenRelativeTime,
    WhenTime,
};

#[test]
fn am_pm_time_parse_hour() {
    let out = AmPmTime::parse("1 pm");
    assert!(matches!(
        out,
        Ok((
            "",
            AmPmTime {
                hour: 1,
                minute: 0,
                second: 0,
                period: AmPm::Pm
            }
        ))
    ));
}

#[test]
fn am_pm_time_parse_hour_and_minute() {
    let out = AmPmTime::parse("1:30 pm");
    assert!(matches!(
        out,
        Ok((
            "",
            AmPmTime {
                hour: 1,
                minute: 30,
                second: 0,
                period: AmPm::Pm
            }
        ))
    ));
}

#[test]
fn am_pm_time_parse_all() {
    let out = AmPmTime::parse("1:30:24 pm");
    assert!(matches!(
        out,
        Ok((
            "",
            AmPmTime {
                hour: 1,
                minute: 30,
                second: 24,
                period: AmPm::Pm
            }
        ))
    ));
}

#[test]
fn am_pm_time_parse_invalid_hour() {
    let err = AmPmTime::parse("13 am").unwrap_err();
    assert_eq!(err.at, 0);
    assert_eq!(err.kind, ErrorKind::Bounds);
}

#[test]
fn am_pm_time_parse_invalid_minute() {
    let err = AmPmTime::parse("12:60 am").unwrap_err();
    assert_eq!(err.at, 3);
    assert_eq!(err.kind, ErrorKind::Bounds);
}

#[test]
fn am_pm_time_parse_invalid_second() {
    let err = AmPmTime::parse("12:58:60 am").unwrap_err();
    assert_eq!(err.at, 6);
    assert_eq!(err.kind, ErrorKind::Bounds);
}

#[test]
fn gmt_time_parse_hour() {
    let out = GmtTime::parse("1 GMT");
    assert!(matches!(
        out,
        Ok((
            "",
            GmtTime {
                hour: 1,
                minute: 0,
                second: 0
            }
        ))
    ));
}

#[test]
fn gmt_time_parse_hour_and_minute() {
    let out = GmtTime::parse("1:30 GMT");
    assert!(matches!(
        out,
        Ok((
            "",
            GmtTime {
                hour: 1,
                minute: 30,
                second: 0
            }
        ))
    ));
}

#[test]
fn gmt_time_parse_all() {
    let out = GmtTime::parse("1:30:24 GMT");
    assert!(matches!(
        out,
        Ok((
            "",
            GmtTime {
                hour: 1,
                minute: 30,
                second: 24
            }
        ))
    ));
}

#[test]
fn gmt_time_parse_invalid_hour() {
    let err = GmtTime::parse("24 GMT").unwrap_err();
    assert_eq!(err.at, 0);
    assert_eq!(err.kind, ErrorKind::Bounds);
}

#[test]
fn gmt_time_parse_invalid_minute() {
    let err = GmtTime::parse("12:60 GMT").unwrap_err();
    assert_eq!(err.at, 3);
    assert_eq!(err.kind, ErrorKind::Bounds);
}

#[test]
fn gmt_time_parse_invalid_second() {
    let err = GmtTime::parse("12:58:60 GMT").unwrap_err();
    assert_eq!(err.at, 6);
    assert_eq!(err.kind, ErrorKind::Bounds);
}

#[test]
fn parse_am_pm() {
    let out = WhenExactTime::parse("01:00:00 AM");
    assert!(matches!(
        out,
        Ok((
            "",
            WhenExactTime::AmPm(AmPmTime {
                hour: 1,
                minute: 0,
                second: 0,
                period: AmPm::Am
            })
        ))
    ));
}

#[test]
fn parse_gmt() {
    let out = WhenExactTime::parse("01:00:00 GMT");
    assert!(matches!(
        out,
        Ok((
            "",
            WhenExactTime::Gmt(GmtTime {
                hour: 1,
                minute: 0,
                second: 0,
            })
        ))
    ));
}

#[test]
fn parse_unknow() {
    let err = WhenExactTime::parse("unknown").unwrap_err();
    assert_eq!(err.at, 0);
    assert_eq!(err.kind, ErrorKind::Digit);
}

#[test]
fn parse_noon() {
    let out = WhenRelativeTime::parse("noon");
    assert!(matches!(out, Ok(("", WhenRelativeTime::Noon))));
}

#[test]
fn parse_morning() {
    let out = WhenRelativeTime::parse("morning");
    assert!(matches!(out, Ok(("", WhenRelativeTime::Morning))));
}

#[test]
fn parse_evening() {
    let out = WhenRelativeTime::parse("evening");
    assert!(matches!(out, Ok(("", WhenRelativeTime::Evening))));
}

#[test]
fn parse_midnight() {
    let out = WhenRelativeTime::parse("midnight");
    assert!(matches!(out, Ok(("", WhenRelativeTime::Midnight))));
}

#[test]
fn when_relative_time_parse_next_kind() {
    let out = WhenRelativeTime::parse("next hour");
    assert!(matches!(out, Ok(("", WhenRelativeTime::NextKind(TimeKind::Hour)))));

    let out = WhenRelativeTime::parse("the next hour");
    assert!(matches!(out, Ok(("", WhenRelativeTime::NextKind(TimeKind::Hour)))));

    let out = WhenRelativeTime::parse("next     minute");
    assert!(matches!(out, Ok(("", WhenRelativeTime::NextKind(TimeKind::Minute)))));

    let out = WhenRelativeTime::parse("the next     minute");
    assert!(matches!(out, Ok(("", WhenRelativeTime::NextKind(TimeKind::Minute)))));

    let out = WhenRelativeTime::parse("next second");
    assert!(matches!(out, Ok(("", WhenRelativeTime::NextKind(TimeKind::Second)))));

    let out = WhenRelativeTime::parse("the next second");
    assert!(matches!(out, Ok(("", WhenRelativeTime::NextKind(TimeKind::Second)))));
}

#[test]
fn parse_previous_kind() {
    let out = WhenRelativeTime::parse("previous hour");
    assert!(matches!(out, Ok(("", WhenRelativeTime::PreviousKind(TimeKind::Hour)))));

    let out = WhenRelativeTime::parse("the previous hour");
    assert!(matches!(out, Ok(("", WhenRelativeTime::PreviousKind(TimeKind::Hour)))));

    let out = WhenRelativeTime::parse("previous     minute");
    assert!(matches!(out, Ok(("", WhenRelativeTime::PreviousKind(TimeKind::Minute)))));

    let out = WhenRelativeTime::parse("the previous     minute");
    assert!(matches!(out, Ok(("", WhenRelativeTime::PreviousKind(TimeKind::Minute)))));

    let out = WhenRelativeTime::parse("previous second");
    assert!(matches!(out, Ok(("", WhenRelativeTime::PreviousKind(TimeKind::Second)))));

    let out = WhenRelativeTime::parse("the previous second");
    assert!(matches!(out, Ok(("", WhenRelativeTime::PreviousKind(TimeKind::Second)))));
}

#[test]
fn when_relative_time_parse_this_kind() {
    let out = WhenRelativeTime::parse("this hour");
    assert!(matches!(out, Ok(("", WhenRelativeTime::ThisKind(TimeKind::Hour)))));

    let out = WhenRelativeTime::parse("this minute");
    assert!(matches!(out, Ok(("", WhenRelativeTime::ThisKind(TimeKind::Minute)))));

    let out = WhenRelativeTime::parse("this second");
    assert!(matches!(out, Ok(("", WhenRelativeTime::ThisKind(TimeKind::Second)))));
}

#[test]
fn parse_next_duration() {
    let out = WhenRelativeTime::parse("next 10 hours");
    assert!(matches!(out, Ok(("", WhenRelativeTime::NextDuration(TimeDuration::Hours(10))))));

    let out = WhenRelativeTime::parse("the next 10 hours");
    assert!(matches!(out, Ok(("", WhenRelativeTime::NextDuration(TimeDuration::Hours(10))))));

    let out = WhenRelativeTime::parse("next 10 minutes");
    assert!(matches!(out, Ok(("", WhenRelativeTime::NextDuration(TimeDuration::Minutes(10))))));

    let out = WhenRelativeTime::parse("the next 10 minutes");
    assert!(matches!(out, Ok(("", WhenRelativeTime::NextDuration(TimeDuration::Minutes(10))))));

    let out = WhenRelativeTime::parse("next 10 seconds");
    assert!(matches!(out, Ok(("", WhenRelativeTime::NextDuration(TimeDuration::Seconds(10))))));

    let out = WhenRelativeTime::parse("the next 10 seconds");
    assert!(matches!(out, Ok(("", WhenRelativeTime::NextDuration(TimeDuration::Seconds(10))))));
}

#[test]
fn parse_previous_duration() {
    let out = WhenRelativeTime::parse("previous 10 hours");
    assert!(matches!(out, Ok(("", WhenRelativeTime::PreviousDuration(TimeDuration::Hours(10))))));

    let out = WhenRelativeTime::parse("the previous 10 hours");
    assert!(matches!(out, Ok(("", WhenRelativeTime::PreviousDuration(TimeDuration::Hours(10))))));

    let out = WhenRelativeTime::parse("previous 10 minutes");
    assert!(matches!(out, Ok(("", WhenRelativeTime::PreviousDuration(TimeDuration::Minutes(10))))));

    let out = WhenRelativeTime::parse("the previous 10 minutes");
    assert!(matches!(out, Ok(("", WhenRelativeTime::PreviousDuration(TimeDuration::Minutes(10))))));

    let out = WhenRelativeTime::parse("previous 10 seconds");
    assert!(matches!(out, Ok(("", WhenRelativeTime::PreviousDuration(TimeDuration::Seconds(10))))));

    let out = WhenRelativeTime::parse("the previous 10 seconds");
    assert!(matches!(out, Ok(("", WhenRelativeTime::PreviousDuration(TimeDuration::Seconds(10))))));
}

#[test]
fn the_before_this_is_rejected() {
    // "the" may precede "next" and "previous" but not "this"
    assert!(WhenRelativeTime::parse("the this minute").is_err());
    assert!(WhenRelativeTime::parse("the this hour").is_err());
    assert!(matches!(
        WhenRelativeTime::parse("this minute"),
        Ok(("", WhenRelativeTime::ThisKind(TimeKind::Minute)))
    ));
}

#[test]
fn when_relative_time_parse_unknown() {
    let err = WhenRelativeTime::parse("unknown").unwrap_err();
    assert_eq!(err.at, 0);
    assert_eq!(err.kind, ErrorKind::Tag);
}

#[test]
fn when_time_parse_relative() {
    let out = WhenTime::parse("the previous 10 mins");
    assert!(matches!(
        out,
        Ok((
            "",
            WhenTime::Relative(WhenRelativeTime::PreviousDuration(TimeDuration::Minutes(10)))
        ))
    ));
}

#[test]
fn when_time_parse_exact() {
    let out = WhenTime::parse("10:01:30 GMT");
    assert!(matches!(
        out,
        Ok((
            "",
            WhenTime::Exact(WhenExactTime::Gmt(GmtTime {
                hour: 10,
                minute: 1,
                second: 30
            }))
        ))
    ));
}
