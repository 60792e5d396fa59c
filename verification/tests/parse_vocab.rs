//! The closed vocabularies: weekday and month names, period and
//! granularity names, and the am/pm marker.

use when_core::{AmPm, DateKind, ErrorKind, Month, TimeKind, Weekday};

#[test]
fn parse_am() {
    let out = AmPm::parse("am");
    assert!(matches!(out, Ok(("", AmPm::Am))));

    let out = AmPm::parse("AM");
    assert!(matches!(out, Ok(("", AmPm::Am))));
}

#[test]
fn parse_pm() {
    let out = AmPm::parse("pm");
    assert!(matches!(out, Ok(("", AmPm::Pm))));

    let out = AmPm::parse("PM");
    assert!(matches!(out, Ok(("", AmPm::Pm))));
}

#[test]
fn parse_monday() {
    let out = Weekday::parse("monday");
    assert!(matches!(out, Ok(("", Weekday::Monday))));
}

#[test]
fn parse_tuesday() {
    let out = Weekday::parse("tuesday");
    assert!(matches!(out, Ok(("", Weekday::Tuesday))));
}

#[test]
fn parse_wednesday() {
    let out = Weekday::parse("wednesday");
    assert!(matches!(out, Ok(("", Weekday::Wednesday))));
}

#[test]
fn parse_thursday() {
    let out = Weekday::parse("thursday");
    assert!(matches!(out, Ok(("", Weekday::Thursday))));
}

#[test]
fn parse_friday() {
    let out = Weekday::parse("friday");
    assert!(matches!(out, Ok(("", Weekday::Friday))));
}

#[test]
fn parse_saturday() {
    let out = Weekday::parse("saturday");
    assert!(matches!(out, Ok(("", Weekday::Saturday))));
}

#[test]
fn weekday_parse_unknown() {
    let err = Weekday::parse("unknown").unwrap_err();
    assert_eq!(err.at, 0);
    assert_eq!(err.kind, ErrorKind::Tag);
}

#[test]
fn parse_january() {
    let (_, month) = Month::parse("January").unwrap();
    assert!(matches!(month, Month::January));

    let (_, month) = Month::parse("january").unwrap();
    assert!(matches!(month, Month::January));

    let (_, month) = Month::parse("Jan").unwrap();
    assert!(matches!(month, Month::January));

    let (_, month) = Month::parse("jan").unwrap();
    assert!(matches!(month, Month::January));
}

#[test]
fn parse_february() {
    let (_, month) = Month::parse("February").unwrap();
    assert!(matches!(month, Month::February));

    let (_, month) = Month::parse("february").unwrap();
    assert!(matches!(month, Month::February));

    let (_, month) = Month::parse("Feb").unwrap();
    assert!(matches!(month, Month::February));

    let (_, month) = Month::parse("feb").unwrap();
    assert!(matches!(month, Month::February));
}

#[test]
fn parse_march() {
    let (_, month) = Month::parse("March").unwrap();
    assert!(matches!(month, Month::March));

    let (_, month) = Month::parse("march").unwrap();
    assert!(matches!(month, Month::March));

    let (_, month) = Month::parse("Mar").unwrap();
    assert!(matches!(month, Month::March));

    let (_, month) = Month::parse("mar").unwrap();
    assert!(matches!(month, Month::March));
}

#[test]
fn parse_april() {
    let (_, month) = Month::parse("April").unwrap();
    assert!(matches!(month, Month::April));

    let (_, month) = Month::parse("april").unwrap();
    assert!(matches!(month, Month::April));

    let (_, month) = Month::parse("Apr").unwrap();
    assert!(matches!(month, Month::April));

    let (_, month) = Month::parse("apr").unwrap();
    assert!(matches!(month, Month::April));
}

#[test]
fn parse_may() {
    let (_, month) = Month::parse("May").unwrap();
    assert!(matches!(month, Month::May));

    let (_, month) = Month::parse("may").unwrap();
    assert!(matches!(month, Month::May));
}

#[test]
fn parse_june() {
    let (_, month) = Month::parse("June").unwrap();
    assert!(matches!(month, Month::June));

    let (_, month) = Month::parse("june").unwrap();
    assert!(matches!(month, Month::June));

    let (_, month) = Month::parse("Jun").unwrap();
    assert!(matches!(month, Month::June));

    let (_, month) = Month::parse("jun").unwrap();
    assert!(matches!(month, Month::June));
}

#[test]
fn parse_july() {
    let (_, month) = Month::parse("July").unwrap();
    assert!(matches!(month, Month::July));

    let (_, month) = Month::parse("july").unwrap();
    assert!(matches!(month, Month::July));

    let (_, month) = Month::parse("Jul").unwrap();
    assert!(matches!(month, Month::July));

    let (_, month) = Month::parse("jul").unwrap();
    assert!(matches!(month, Month::July));
}

#[test]
fn parse_august() {
    let (_, month) = Month::parse("August").unwrap();
    assert!(matches!(month, Month::August));

    let (_, month) = Month::parse("august").unwrap();
    assert!(matches!(month, Month::August));

    let (_, month) = Month::parse("Aug").unwrap();
    assert!(matches!(month, Month::August));

    let (_, month) = Month::parse("aug").unwrap();
    assert!(matches!(month, Month::August));
}

#[test]
fn parse_september() {
    let (_, month) = Month::parse("September").unwrap();
    assert!(matches!(month, Month::September));

    let (_, month) = Month::parse("september").unwrap();
    assert!(matches!(month, Month::September));

    let (_, month) = Month::parse("Sep").unwrap();
    assert!(matches!(month, Month::September));

    let (_, month) = Month::parse("sep").unwrap();
    assert!(matches!(month, Month::September));
}

#[test]
fn parse_october() {
    let (_, month) = Month::parse("October").unwrap();
    assert!(matches!(month, Month::October));

    let (_, month) = Month::parse("october").unwrap();
    assert!(matches!(month, Month::October));

    let (_, month) = Month::parse("Oct").unwrap();
    assert!(matches!(month, Month::October));

    let (_, month) = Month::parse("oct").unwrap();
    assert!(matches!(month, Month::October));
}

#[test]
fn parse_november() {
    let (_, month) = Month::parse("November").unwrap();
    assert!(matches!(month, Month::November));

    let (_, month) = Month::parse("november").unwrap();
    assert!(matches!(month, Month::November));

    let (_, month) = Month::parse("Nov").unwrap();
    assert!(matches!(month, Month::November));

    let (_, month) = Month::parse("nov").unwrap();
    assert!(matches!(month, Month::November));
}

#[test]
fn parse_december() {
    let (_, month) = Month::parse("December").unwrap();
    assert!(matches!(month, Month::December));

    let (_, month) = Month::parse("december").unwrap();
    assert!(matches!(month, Month::December));

    let (_, month) = Month::parse("Dec").unwrap();
    assert!(matches!(month, Month::December));

    let (_, month) = Month::parse("dec").unwrap();
    assert!(matches!(month, Month::December));
}

#[test]
fn month_parse_unknown() {
    let err = Month::parse("unknown").unwrap_err();
    assert_eq!(err.at, 0);
    assert_eq!(err.kind, ErrorKind::Tag);
}

#[test]
fn month_ordinals() {
    assert_eq!(Month::January.number_from_january(), 1);
    assert_eq!(Month::May.number_from_january(), 5);
    assert_eq!(Month::December.number_from_january(), 12);
}

#[test]
fn weekday_ordinals() {
    assert_eq!(Weekday::Monday.number_from_monday(), 1);
    assert_eq!(Weekday::Thursday.number_from_monday(), 4);
    assert_eq!(Weekday::Sunday.number_from_monday(), 7);
}

#[test]
fn date_kind_parse_week() {
    let out = DateKind::parse("week");
    assert!(matches!(out, Ok(("", DateKind::Week))));
}

#[test]
fn date_kind_parse_month() {
    let out = DateKind::parse("month");
    assert!(matches!(out, Ok(("", DateKind::Month))));
}

#[test]
fn date_kind_parse_year() {
    let out = DateKind::parse("year");
    assert!(matches!(out, Ok(("", DateKind::Year))));
}

#[test]
fn time_kind_parse_week() {
    let out = TimeKind::parse("hour");
    assert!(matches!(out, Ok(("", TimeKind::Hour))));
}

#[test]
fn time_kind_parse_month() {
    let out = TimeKind::parse("minute");
    assert!(matches!(out, Ok(("", TimeKind::Minute))));
}

#[test]
fn time_kind_parse_year() {
    let out = TimeKind::parse("second");
    assert!(matches!(out, Ok(("", TimeKind::Second))));
}

#[test]
fn time_kind_parse_unknown() {
    let err = TimeKind::parse("unknown").unwrap_err();
    assert_eq!(err.at, 0);
    assert_eq!(err.kind, ErrorKind::Tag);
}
