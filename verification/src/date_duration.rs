//! Calendar durations: "<number> <unit>" with a day, week, month or year
//! unit, singular or plural, the number optionally adjacent to the unit.

use vstd::prelude::*;

use crate::scan::{
    agrees, scan_number, spaces_end, spec_number, tag_at, tag_matches, ErrorKind, Parsed,
    ParseError,
};

verus! {

#[derive(Clone, Copy, Debug, PartialEq, Eq, Structural)]
pub enum DateDuration {
    Days(u32),
    Weeks(u32),
    Months(u32),
    Years(u32),
}

/// The unit keywords, plural before singular so that the longer spelling
/// wins, as a step of the duration grammar.
pub open spec fn spec_date_unit(s: Seq<char>, pos: int, n: u32) -> Parsed<DateDuration> {
    if tag_matches(s, pos, "days"@) {
        Parsed::Found { val: DateDuration::Days(n), end: pos + "days"@.len() }
    } else if tag_matches(s, pos, "day"@) {
        Parsed::Found { val: DateDuration::Days(n), end: pos + "day"@.len() }
    } else if tag_matches(s, pos, "weeks"@) {
        Parsed::Found { val: DateDuration::Weeks(n), end: pos + "weeks"@.len() }
    } else if tag_matches(s, pos, "week"@) {
        Parsed::Found { val: DateDuration::Weeks(n), end: pos + "week"@.len() }
    } else if tag_matches(s, pos, "months"@) {
        Parsed::Found { val: DateDuration::Months(n), end: pos + "months"@.len() }
    } else if tag_matches(s, pos, "month"@) {
        Parsed::Found { val: DateDuration::Months(n), end: pos + "month"@.len() }
    } else if tag_matches(s, pos, "years"@) {
        Parsed::Found { val: DateDuration::Years(n), end: pos + "years"@.len() }
    } else if tag_matches(s, pos, "year"@) {
        Parsed::Found { val: DateDuration::Years(n), end: pos + "year"@.len() }
    } else {
        Parsed::Fail { at: pos, kind: ErrorKind::Tag }
    }
}

impl DateDuration {
    /// The grammar of a calendar duration: a number, optional blanks, then
    /// a unit keyword.
    pub open spec fn spec_parse(s: Seq<char>, pos: int) -> Parsed<DateDuration> {
        match spec_number(s, pos, 0, 0xffff_ffff) {
            Parsed::Fail { at, kind } => Parsed::Fail { at, kind },
            Parsed::Found { val: n, end: p1 } => spec_date_unit(s, spaces_end(s, p1), n as u32),
        }
    }

    /// Reads a calendar duration at `pos`.
    pub fn parse_at(s: &str, pos: usize) -> (r: Result<(DateDuration, usize), ParseError>)
        requires
            pos <= s@.len(),
        ensures
            agrees(r, Self::spec_parse(s@, pos as int)),
            r matches Ok((v, end)) ==> pos <= end <= s@.len(),
    {
        let (n, p1) = scan_number(s, pos, 0, 0xffff_ffff)?;
        let p = crate::scan::space0(s, p1);
        if let Some(end) = tag_at(s, p, "days") {
            Ok((DateDuration::Days(n), end))
        } else if let Some(end) = tag_at(s, p, "day") {
            Ok((DateDuration::Days(n), end))
        } else if let Some(end) = tag_at(s, p, "weeks") {
            Ok((DateDuration::Weeks(n), end))
        } else if let Some(end) = tag_at(s, p, "week") {
            Ok((DateDuration::Weeks(n), end))
        } else if let Some(end) = tag_at(s, p, "months") {
            Ok((DateDuration::Months(n), end))
        } else if let Some(end) = tag_at(s, p, "month") {
            Ok((DateDuration::Months(n), end))
        } else if let Some(end) = tag_at(s, p, "years") {
            Ok((DateDuration::Years(n), end))
        } else if let Some(end) = tag_at(s, p, "year") {
            Ok((DateDuration::Years(n), end))
        } else {
            Err(ParseError { at: p, kind: ErrorKind::Tag })
        }
    }

    /// Reads a calendar duration at the start of `input` and gives back the
    /// remaining input beside it.
    pub fn parse(input: &str) -> (r: Result<(&str, DateDuration), ParseError>)
        ensures
            match r {
                Ok((rest, v)) => (Self::spec_parse(input@, 0) matches Parsed::Found {
                    val, end } && val == v && rest@ == input@.skip(end)),
                Err(e) => Self::spec_parse(input@, 0) == (Parsed::Fail::<DateDuration> {
                    at: e.at as int, kind: e.kind }),
            },
    {
        let (v, end) = Self::parse_at(input, 0)?;
        Ok((crate::scan::rest_of(input, end), v))
    }
}

} // verus!
