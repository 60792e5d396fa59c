//! The calendar period names used after "this", "last" and "next".

use vstd::prelude::*;

use crate::scan::{agrees, tag_at, tag_matches, ErrorKind, Parsed, ParseError};

verus! {

#[derive(Clone, Copy, Debug, PartialEq, Eq, Structural)]
pub enum DateKind {
    Week,
    Month,
    Year,
}

impl DateKind {
    /// The grammar of period names, first match wins.
    pub open spec fn spec_parse(s: Seq<char>, pos: int) -> Parsed<DateKind> {
        if tag_matches(s, pos, "week"@) {
            Parsed::Found { val: DateKind::Week, end: pos + "week"@.len() }
        } else if tag_matches(s, pos, "month"@) {
            Parsed::Found { val: DateKind::Month, end: pos + "month"@.len() }
        } else if tag_matches(s, pos, "year"@) {
            Parsed::Found { val: DateKind::Year, end: pos + "year"@.len() }
        } else {
            Parsed::Fail { at: pos, kind: ErrorKind::Tag }
        }
    }

    /// Reads a period name at `pos`.
    pub fn parse_at(s: &str, pos: usize) -> (r: Result<(DateKind, usize), ParseError>)
        requires
            pos <= s@.len(),
        ensures
            agrees(r, Self::spec_parse(s@, pos as int)),
            r matches Ok((v, end)) ==> pos <= end <= s@.len(),
    {
        if let Some(end) = tag_at(s, pos, "week") {
            Ok((DateKind::Week, end))
        } else if let Some(end) = tag_at(s, pos, "month") {
            Ok((DateKind::Month, end))
        } else if let Some(end) = tag_at(s, pos, "year") {
            Ok((DateKind::Year, end))
        } else {
            Err(ParseError { at: pos, kind: ErrorKind::Tag })
        }
    }

    /// Reads a period name at the start of `input` and gives back the
    /// remaining input beside it.
    pub fn parse(input: &str) -> (r: Result<(&str, DateKind), ParseError>)
        ensures
            match r {
                Ok((rest, v)) => (Self::spec_parse(input@, 0) matches Parsed::Found {
                    val, end } && val == v && rest@ == input@.skip(end)),
                Err(e) => Self::spec_parse(input@, 0) == (Parsed::Fail::<DateKind> {
                    at: e.at as int, kind: e.kind }),
            },
    {
        let (v, end) = Self::parse_at(input, 0)?;
        Ok((crate::scan::rest_of(input, end), v))
    }
}

} // verus!
