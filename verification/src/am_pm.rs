//! The am/pm marker of the 12-hour clock.

use vstd::prelude::*;

use crate::scan::{agrees, tag_at, tag_matches, ErrorKind, Parsed, ParseError};

verus! {

#[derive(Clone, Copy, Debug, PartialEq, Eq, Structural)]
pub enum AmPm {
    Am,
    Pm,
}

impl AmPm {
    /// The grammar of the marker: "am" or "AM", then "pm" or "PM".
    pub open spec fn spec_parse(s: Seq<char>, pos: int) -> Parsed<AmPm> {
        if tag_matches(s, pos, "am"@) {
            Parsed::Found { val: AmPm::Am, end: pos + "am"@.len() }
        } else if tag_matches(s, pos, "AM"@) {
            Parsed::Found { val: AmPm::Am, end: pos + "AM"@.len() }
        } else if tag_matches(s, pos, "pm"@) {
            Parsed::Found { val: AmPm::Pm, end: pos + "pm"@.len() }
        } else if tag_matches(s, pos, "PM"@) {
            Parsed::Found { val: AmPm::Pm, end: pos + "PM"@.len() }
        } else {
            Parsed::Fail { at: pos, kind: ErrorKind::Tag }
        }
    }

    /// Reads an am/pm marker at `pos`.
    pub fn parse_at(s: &str, pos: usize) -> (r: Result<(AmPm, usize), ParseError>)
        requires
            pos <= s@.len(),
        ensures
            agrees(r, Self::spec_parse(s@, pos as int)),
            r matches Ok((v, end)) ==> pos <= end <= s@.len(),
    {
        if let Some(end) = tag_at(s, pos, "am") {
            Ok((AmPm::Am, end))
        } else if let Some(end) = tag_at(s, pos, "AM") {
            Ok((AmPm::Am, end))
        } else if let Some(end) = tag_at(s, pos, "pm") {
            Ok((AmPm::Pm, end))
        } else if let Some(end) = tag_at(s, pos, "PM") {
            Ok((AmPm::Pm, end))
        } else {
            Err(ParseError { at: pos, kind: ErrorKind::Tag })
        }
    }

    /// Reads an am/pm marker at the start of `input` and gives back the
    /// remaining input beside it.
    pub fn parse(input: &str) -> (r: Result<(&str, AmPm), ParseError>)
        ensures
            match r {
                Ok((rest, v)) => (Self::spec_parse(input@, 0) matches Parsed::Found {
                    val, end } && val == v && rest@ == input@.skip(end)),
                Err(e) => Self::spec_parse(input@, 0) == (Parsed::Fail::<AmPm> {
                    at: e.at as int, kind: e.kind }),
            },
    {
        let (v, end) = Self::parse_at(input, 0)?;
        Ok((crate::scan::rest_of(input, end), v))
    }
}

} // verus!
