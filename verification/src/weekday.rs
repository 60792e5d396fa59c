//! The seven weekday names and their ISO ordinals.

use vstd::prelude::*;

use crate::scan::{agrees, tag_at, tag_matches, ErrorKind, Parsed, ParseError};

verus! {

#[derive(Clone, Copy, Debug, PartialEq, Eq, Structural)]
pub enum Weekday {
    Monday,
    Tuesday,
    Wednesday,
    Thursday,
    Friday,
    Saturday,
    Sunday,
}

impl Weekday {
    /// ISO ordinal: Monday is 1 through Sunday is 7.
    pub open spec fn spec_number_from_monday(self) -> int {
        match self {
            Weekday::Monday => 1,
            Weekday::Tuesday => 2,
            Weekday::Wednesday => 3,
            Weekday::Thursday => 4,
            Weekday::Friday => 5,
            Weekday::Saturday => 6,
            Weekday::Sunday => 7,
        }
    }

    /// ISO ordinal: Monday is 1 through Sunday is 7.
    pub fn number_from_monday(&self) -> (r: i8)
        ensures
            r as int == self.spec_number_from_monday(),
            1 <= r <= 7,
    {
        match self {
            Weekday::Monday => 1,
            Weekday::Tuesday => 2,
            Weekday::Wednesday => 3,
            Weekday::Thursday => 4,
            Weekday::Friday => 5,
            Weekday::Saturday => 6,
            Weekday::Sunday => 7,
        }
    }

    /// The grammar of weekday names: the lower-case full names, tried in
    /// week order, first match wins.
    pub open spec fn spec_parse(s: Seq<char>, pos: int) -> Parsed<Weekday> {
        if tag_matches(s, pos, "monday"@) {
            Parsed::Found { val: Weekday::Monday, end: pos + "monday"@.len() }
        } else if tag_matches(s, pos, "tuesday"@) {
            Parsed::Found { val: Weekday::Tuesday, end: pos + "tuesday"@.len() }
        } else if tag_matches(s, pos, "wednesday"@) {
            Parsed::Found { val: Weekday::Wednesday, end: pos + "wednesday"@.len() }
        } else if tag_matches(s, pos, "thursday"@) {
            Parsed::Found { val: Weekday::Thursday, end: pos + "thursday"@.len() }
        } else if tag_matches(s, pos, "friday"@) {
            Parsed::Found { val: Weekday::Friday, end: pos + "friday"@.len() }
        } else if tag_matches(s, pos, "saturday"@) {
            Parsed::Found { val: Weekday::Saturday, end: pos + "saturday"@.len() }
        } else if tag_matches(s, pos, "sunday"@) {
            Parsed::Found { val: Weekday::Sunday, end: pos + "sunday"@.len() }
        } else {
            Parsed::Fail { at: pos, kind: ErrorKind::Tag }
        }
    }

    /// Reads a weekday name at `pos`.
    pub fn parse_at(s: &str, pos: usize) -> (r: Result<(Weekday, usize), ParseError>)
        requires
            pos <= s@.len(),
        ensures
            agrees(r, Self::spec_parse(s@, pos as int)),
            r matches Ok((v, end)) ==> pos <= end <= s@.len(),
    {
        if let Some(end) = tag_at(s, pos, "monday") {
            Ok((Weekday::Monday, end))
        } else if let Some(end) = tag_at(s, pos, "tuesday") {
            Ok((Weekday::Tuesday, end))
        } else if let Some(end) = tag_at(s, pos, "wednesday") {
            Ok((Weekday::Wednesday, end))
        } else if let Some(end) = tag_at(s, pos, "thursday") {
            Ok((Weekday::Thursday, end))
        } else if let Some(end) = tag_at(s, pos, "friday") {
            Ok((Weekday::Friday, end))
        } else if let Some(end) = tag_at(s, pos, "saturday") {
            Ok((Weekday::Saturday, end))
        } else if let Some(end) = tag_at(s, pos, "sunday") {
            Ok((Weekday::Sunday, end))
        } else {
            Err(ParseError { at: pos, kind: ErrorKind::Tag })
        }
    }

    /// Reads a weekday name at the start of `input` and gives back the
    /// remaining input beside it.
    pub fn parse(input: &str) -> (r: Result<(&str, Weekday), ParseError>)
        ensures
            match r {
                Ok((rest, v)) => (Self::spec_parse(input@, 0) matches Parsed::Found {
                    val, end } && val == v && rest@ == input@.skip(end)),
                Err(e) => Self::spec_parse(input@, 0) == (Parsed::Fail::<Weekday> {
                    at: e.at as int, kind: e.kind }),
            },
    {
        let (v, end) = Self::parse_at(input, 0)?;
        Ok((crate::scan::rest_of(input, end), v))
    }
}

} // verus!
