//! The clock granularity names used after "this", "next" and "previous".

use vstd::prelude::*;

use crate::scan::{agrees, tag_at, tag_matches, ErrorKind, Parsed, ParseError};

verus! {

#[derive(Clone, Copy, Debug, PartialEq, Eq, Structural)]
pub enum TimeKind {
    Hour,
    Minute,
    Second,
}

impl TimeKind {
    /// The grammar of granularity names, first match wins.
    pub open spec fn spec_parse(s: Seq<char>, pos: int) -> Parsed<TimeKind> {
        if tag_matches(s, pos, "hour"@) {
            Parsed::Found { val: TimeKind::Hour, end: pos + "hour"@.len() }
        } else if tag_matches(s, pos, "minute"@) {
            Parsed::Found { val: TimeKind::Minute, end: pos + "minute"@.len() }
        } else if tag_matches(s, pos, "second"@) {
            Parsed::Found { val: TimeKind::Second, end: pos + "second"@.len() }
        } else {
            Parsed::Fail { at: pos, kind: ErrorKind::Tag }
        }
    }

    /// Reads a granularity name at `pos`.
    pub fn parse_at(s: &str, pos: usize) -> (r: Result<(TimeKind, usize), ParseError>)
        requires
            pos <= s@.len(),
        ensures
            agrees(r, Self::spec_parse(s@, pos as int)),
            r matches Ok((v, end)) ==> pos <= end <= s@.len(),
    {
        if let Some(end) = tag_at(s, pos, "hour") {
            Ok((TimeKind::Hour, end))
        } else if let Some(end) = tag_at(s, pos, "minute") {
            Ok((TimeKind::Minute, end))
        } else if let Some(end) = tag_at(s, pos, "second") {
            Ok((TimeKind::Second, end))
        } else {
            Err(ParseError { at: pos, kind: ErrorKind::Tag })
        }
    }

    /// Reads a granularity name at the start of `input` and gives back the
    /// remaining input beside it.
    pub fn parse(input: &str) -> (r: Result<(&str, TimeKind), ParseError>)
        ensures
            match r {
                Ok((rest, v)) => (Self::spec_parse(input@, 0) matches Parsed::Found {
                    val, end } && val == v && rest@ == input@.skip(end)),
                Err(e) => Self::spec_parse(input@, 0) == (Parsed::Fail::<TimeKind> {
                    at: e.at as int, kind: e.kind }),
            },
    {
        let (v, end) = Self::parse_at(input, 0)?;
        Ok((crate::scan::rest_of(input, end), v))
    }
}

} // verus!
