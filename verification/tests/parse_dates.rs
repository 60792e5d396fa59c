//! Absolute date literals in their six spellings and the relative date
//! forms.

use when_core::{
    DateDuration, DateKind, ErrorKind, Weekday, WhenDate, WhenExactDate, WhenRelativeDate,
};

#[test]
fn parse_dashes() {
    let out = WhenExactDate::parse("01-01-2004");
    assert!(matches!(
        out,
        Ok((
            "",
            WhenExactDate {
                year: 2004,
                month: 1,
                day: 1
            }
        ))
    ));
}

#[test]
fn parse_slashes() {
    let out = WhenExactDate::parse("01/01/2004");
    assert!(matches!(
        out,
        Ok((
            "",
            WhenExactDate {
                year: 2004,
                month: 1,
                day: 1
            }
        ))
    ));
}

#[test]
fn parse_mmm_dd_yyyy() {
    let out = WhenExactDate::parse("January 1, 2004");
    assert!(matches!(
        out,
        Ok((
            "",
            WhenExactDate {
                year: 2004,
                month: 1,
                day: 1
            }
        ))
    ));
}

#[test]
fn parse_yyyy_mm_dd() {
    let out = WhenExactDate::parse("2004/01/01");
    assert!(matches!(
        out,
        Ok((
            "",
            WhenExactDate {
                year: 2004,
                month: 1,
                day: 1
            }
        ))
    ));
}

#[test]
fn parse_invalid_month() {
    // the month token "13" is out of range
    let err = WhenExactDate::parse("01/13/2004").unwrap_err();
    assert_eq!(err.at, 3);
    assert_eq!(err.kind, ErrorKind::Bounds);

    let err = WhenExactDate::parse("01/00/2004").unwrap_err();
    assert_eq!(err.at, 3);
    assert_eq!(err.kind, ErrorKind::Bounds);
}

#[test]
fn parse_invalid_day() {
    // ordered choice reads the year-first spelling furthest here, so the
    // reported token is its day field; either way a bounds failure
    let err = WhenExactDate::parse("32/12/2004").unwrap_err();
    assert_eq!(err.at, 6);
    assert_eq!(err.kind, ErrorKind::Bounds);

    let err = WhenExactDate::parse("00/01/2004").unwrap_err();
    assert_eq!(err.at, 6);
    assert_eq!(err.kind, ErrorKind::Bounds);
}

#[test]
fn year_first_literal_with_small_year_reads_day_first() {
    // ordered choice tries the day-first spellings before the year-first
    // ones, so a year-first literal whose year also reads as a day is
    // claimed by the day-first form
    let out = WhenExactDate::parse("0012-11-10");
    assert!(matches!(
        out,
        Ok((
            "",
            WhenExactDate {
                year: 10,
                month: 11,
                day: 12
            }
        ))
    ));
}

#[test]
fn when_exact_date_parse_unknown() {
    let err = WhenExactDate::parse("unknown").unwrap_err();
    assert_eq!(err.at, 0);
    assert_eq!(err.kind, ErrorKind::Digit);
}

#[test]
fn parse_yesterday() {
    let out = WhenRelativeDate::parse("yesterday");
    assert!(matches!(out, Ok(("", WhenRelativeDate::Yesterday))));
}

#[test]
fn parse_tomorrow() {
    let out = WhenRelativeDate::parse("tomorrow");
    assert!(matches!(out, Ok(("", WhenRelativeDate::Tomorrow))));
}

#[test]
fn parse_last_weekday() {
    let out = WhenRelativeDate::parse("last monday");
    assert!(matches!(out, Ok(("", WhenRelativeDate::LastDay(Weekday::Monday)))));

    let out = WhenRelativeDate::parse("last     tuesday");
    assert!(matches!(out, Ok(("", WhenRelativeDate::LastDay(Weekday::Tuesday)))));

    let out = WhenRelativeDate::parse("last sunday");
    assert!(matches!(out, Ok(("", WhenRelativeDate::LastDay(Weekday::Sunday)))));
}

#[test]
fn parse_next_weekday() {
    let out = WhenRelativeDate::parse("next monday");
    assert!(matches!(out, Ok(("", WhenRelativeDate::NextDay(Weekday::Monday)))));

    let out = WhenRelativeDate::parse("next     tuesday");
    assert!(matches!(out, Ok(("", WhenRelativeDate::NextDay(Weekday::Tuesday)))));

    let out = WhenRelativeDate::parse("next sunday");
    assert!(matches!(out, Ok(("", WhenRelativeDate::NextDay(Weekday::Sunday)))));
}

#[test]
fn parse_this_weekday() {
    let out = WhenRelativeDate::parse("this monday");
    assert!(matches!(out, Ok(("", WhenRelativeDate::ThisDay(Weekday::Monday)))));

    let out = WhenRelativeDate::parse("this     tuesday");
    assert!(matches!(out, Ok(("", WhenRelativeDate::ThisDay(Weekday::Tuesday)))));

    let out = WhenRelativeDate::parse("this sunday");
    assert!(matches!(out, Ok(("", WhenRelativeDate::ThisDay(Weekday::Sunday)))));
}

#[test]
fn parse_last_kind() {
    let out = WhenRelativeDate::parse("last week");
    assert!(matches!(out, Ok(("", WhenRelativeDate::LastKind(DateKind::Week)))));

    let out = WhenRelativeDate::parse("last     month");
    assert!(matches!(out, Ok(("", WhenRelativeDate::LastKind(DateKind::Month)))));

    let out = WhenRelativeDate::parse("last year");
    assert!(matches!(out, Ok(("", WhenRelativeDate::LastKind(DateKind::Year)))));
}

#[test]
fn when_relative_date_parse_next_kind() {
    let out = WhenRelativeDate::parse("next week");
    assert!(matches!(out, Ok(("", WhenRelativeDate::NextKind(DateKind::Week)))));

    let out = WhenRelativeDate::parse("next     month");
    assert!(matches!(out, Ok(("", WhenRelativeDate::NextKind(DateKind::Month)))));

    let out = WhenRelativeDate::parse("next year");
    assert!(matches!(out, Ok(("", WhenRelativeDate::NextKind(DateKind::Year)))));
}

#[test]
fn when_relative_date_parse_this_kind() {
    let out = WhenRelativeDate::parse("this week");
    assert!(matches!(out, Ok(("", WhenRelativeDate::ThisKind(DateKind::Week)))));

    let out = WhenRelativeDate::parse("this     month");
    assert!(matches!(out, Ok(("", WhenRelativeDate::ThisKind(DateKind::Month)))));

    let out = WhenRelativeDate::parse("this year");
    assert!(matches!(out, Ok(("", WhenRelativeDate::ThisKind(DateKind::Year)))));
}

#[test]
fn parse_ago() {
    let out = WhenRelativeDate::parse("10 days ago");
    assert!(matches!(out, Ok(("", WhenRelativeDate::Ago(DateDuration::Days(10))))));

    let out = WhenRelativeDate::parse("10 weeks ago");
    assert!(matches!(out, Ok(("", WhenRelativeDate::Ago(DateDuration::Weeks(10))))));

    let out = WhenRelativeDate::parse("10 months ago");
    assert!(matches!(out, Ok(("", WhenRelativeDate::Ago(DateDuration::Months(10))))));
}

#[test]
fn parse_in() {
    let out = WhenRelativeDate::parse("in 10 days");
    assert!(matches!(out, Ok(("", WhenRelativeDate::In(DateDuration::Days(10))))));

    let out = WhenRelativeDate::parse("in 10 weeks");
    assert!(matches!(out, Ok(("", WhenRelativeDate::In(DateDuration::Weeks(10))))));

    let out = WhenRelativeDate::parse("in 10 months");
    assert!(matches!(out, Ok(("", WhenRelativeDate::In(DateDuration::Months(10))))));
}

#[test]
fn when_relative_date_parse_unknown() {
    let err = WhenRelativeDate::parse("unknown").unwrap_err();
    assert_eq!(err.at, 0);
    assert_eq!(err.kind, ErrorKind::Tag);
}

#[test]
fn when_date_parse_relative() {
    let out = WhenDate::parse("yesterday");
    assert!(matches!(out, Ok(("", WhenDate::Relative(WhenRelativeDate::Yesterday)))));

    let out = WhenDate::parse("10 days ago");
    assert!(matches!(
        out,
        Ok(("", WhenDate::Relative(WhenRelativeDate::Ago(DateDuration::Days(10)))))
    ));
}

#[test]
fn when_date_parse_exact() {
    let out = WhenDate::parse("10/10/2001");
    assert!(matches!(
        out,
        Ok((
            "",
            WhenDate::Exact(WhenExactDate {
                year: 2001,
                month: 10,
                day: 10
            })
        ))
    ));

    let out = WhenDate::parse("10-10-2001");
    assert!(matches!(
        out,
        Ok((
            "",
            WhenDate::Exact(WhenExactDate {
                year: 2001,
                month: 10,
                day: 10
            })
        ))
    ));
}

#[test]
fn when_date_parse_unknown() {
    let err = WhenDate::parse("unknown").unwrap_err();
    assert_eq!(err.at, 0);
    assert_eq!(err.kind, ErrorKind::Tag);
}
