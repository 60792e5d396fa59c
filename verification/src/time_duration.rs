//! Clock durations: "<number> <unit>" with a second, minute or hour unit in
//! long or short spelling, the number optionally adjacent to the unit.

use vstd::prelude::*;

use crate::scan::{
    agrees, scan_number, spaces_end, spec_number, tag_at, tag_matches, ErrorKind, Parsed,
    ParseError,
};

verus! {

#[derive(Clone, Copy, Debug, PartialEq, Eq, Structural)]
pub enum TimeDuration {
    Seconds(u32),
    Minutes(u32),
    Hours(u32),
}

/// The unit keywords, each family's longest spelling first, seconds before
/// minutes before hours, as a step of the duration grammar.
pub open spec fn spec_time_unit(s: Seq<char>, pos: int, n: u32) -> Parsed<TimeDuration> {
    if tag_matches(s, pos, "seconds"@) {
        Parsed::Found { val: TimeDuration::Seconds(n), end: pos + "seconds"@.len() }
    } else if tag_matches(s, pos, "second"@) {
        Parsed::Found { val: TimeDuration::Seconds(n), end: pos + "second"@.len() }
    } else if tag_matches(s, pos, "secs"@) {
        Parsed::Found { val: TimeDuration::Seconds(n), end: pos + "secs"@.len() }
    } else if tag_matches(s, pos, "sec"@) {
        Parsed::Found { val: TimeDuration::Seconds(n), end: pos + "sec"@.len() }
    } else if tag_matches(s, pos, "s"@) {
        Parsed::Found { val: TimeDuration::Seconds(n), end: pos + "s"@.len() }
    } else if tag_matches(s, pos, "minutes"@) {
        Parsed::Found { val: TimeDuration::Minutes(n), end: pos + "minutes"@.len() }
    } else if tag_matches(s, pos, "minute"@) {
        Parsed::Found { val: TimeDuration::Minutes(n), end: pos + "minute"@.len() }
    } else if tag_matches(s, pos, "mins"@) {
        Parsed::Found { val: TimeDuration::Minutes(n), end: pos + "mins"@.len() }
    } else if tag_matches(s, pos, "min"@) {
        Parsed::Found { val: TimeDuration::Minutes(n), end: pos + "min"@.len() }
    } else if tag_matches(s, pos, "m"@) {
        Parsed::Found { val: TimeDuration::Minutes(n), end: pos + "m"@.len() }
    } else if tag_matches(s, pos, "hours"@) {
        Parsed::Found { val: TimeDuration::Hours(n), end: pos + "hours"@.len() }
    } else if tag_matches(s, pos, "hour"@) {
        Parsed::Found { val: TimeDuration::Hours(n), end: pos + "hour"@.len() }
    } else if tag_matches(s, pos, "hrs"@) {
        Parsed::Found { val: TimeDuration::Hours(n), end: pos + "hrs"@.len() }
    } else if tag_matches(s, pos, "hr"@) {
        Parsed::Found { val: TimeDuration::Hours(n), end: pos + "hr"@.len() }
    } else if tag_matches(s, pos, "h"@) {
        Parsed::Found { val: TimeDuration::Hours(n), end: pos + "h"@.len() }
    } else {
        Parsed::Fail { at: pos, kind: ErrorKind::Tag }
    }
}

impl TimeDuration {
    /// The grammar of a clock duration: a number, optional blanks, then a
    /// unit keyword.
    pub open spec fn spec_parse(s: Seq<char>, pos: int) -> Parsed<TimeDuration> {
        match spec_number(s, pos, 0, 0xffff_ffff) {
            Parsed::Fail { at, kind } => Parsed::Fail { at, kind },
            Parsed::Found { val: n, end: p1 } => spec_time_unit(s, spaces_end(s, p1), n as u32),
        }
    }

    /// Reads a clock duration at `pos`.
    pub fn parse_at(s: &str, pos: usize) -> (r: Result<(TimeDuration, usize), ParseError>)
        requires
            pos <= s@.len(),
        ensures
            agrees(r, Self::spec_parse(s@, pos as int)),
            r matches Ok((v, end)) ==> pos <= end <= s@.len(),
    {
        let (n, p1) = scan_number(s, pos, 0, 0xffff_ffff)?;
        let p = crate::scan::space0(s, p1);
        if let Some(end) = tag_at(s, p, "seconds") {
            Ok((TimeDuration::Seconds(n), end))
        } else if let Some(end) = tag_at(s, p, "second") {
            Ok((TimeDuration::Seconds(n), end))
        } else if let Some(end) = tag_at(s, p, "secs") {
            Ok((TimeDuration::Seconds(n), end))
        } else if let Some(end) = tag_at(s, p, "sec") {
            Ok((TimeDuration::Seconds(n), end))
        } else if let Some(end) = tag_at(s, p, "s") {
            Ok((TimeDuration::Seconds(n), end))
        } else if let Some(end) = tag_at(s, p, "minutes") {
            Ok((TimeDuration::Minutes(n), end))
        } else if let Some(end) = tag_at(s, p, "minute") {
            Ok((TimeDuration::Minutes(n), end))
        } else if let Some(end) = tag_at(s, p, "mins") {
            Ok((TimeDuration::Minutes(n), end))
        } else if let Some(end) = tag_at(s, p, "min") {
            Ok((TimeDuration::Minutes(n), end))
        } else if let Some(end) = tag_at(s, p, "m") {
            Ok((TimeDuration::Minutes(n), end))
        } else if let Some(end) = tag_at(s, p, "hours") {
            Ok((TimeDuration::Hours(n), end))
        } else if let Some(end) = tag_at(s, p, "hour") {
            Ok((TimeDuration::Hours(n), end))
        } else if let Some(end) = tag_at(s, p, "hrs") {
            Ok((TimeDuration::Hours(n), end))
        } else if let Some(end) = tag_at(s, p, "hr") {
            Ok((TimeDuration::Hours(n), end))
        } else if let Some(end) = tag_at(s, p, "h") {
            Ok((TimeDuration::Hours(n), end))
        } else {
            Err(ParseError { at: p, kind: ErrorKind::Tag })
        }
    }

    /// Reads a clock duration at the start of `input` and gives back the
    /// remaining input beside it.
    pub fn parse(input: &str) -> (r: Result<(&str, TimeDuration), ParseError>)
        ensures
            match r {
                Ok((rest, v)) => (Self::spec_parse(input@, 0) matches Parsed::Found {
                    val, end } && val == v && rest@ == input@.skip(end)),
                Err(e) => Self::spec_parse(input@, 0) == (Parsed::Fail::<TimeDuration> {
                    at: e.at as int, kind: e.kind }),
            },
    {
        let (v, end) = Self::parse_at(input, 0)?;
        Ok((crate::scan::rest_of(input, end), v))
    }
}

} // verus!
