//! A named, IANA-style timezone identifier: a run of letters, underscores
//! and slashes. Only its shape is checked here; whether the name denotes a
//! real zone is the timezone database's verdict at resolution time.

use vstd::prelude::*;

use crate::civil::ResolveError;
use crate::scan::{ErrorKind, Parsed, ParseError};

verus! {

/// The timezone value of the `jiff` crate, carried opaquely: the engine
/// never reads it, it only hands it to the lookup declarations below.
#[verifier::external_type_specification]
#[verifier::external_body]
pub struct ExTimeZone(jiff::tz::TimeZone);

/// Whether a character counts as a letter of a zone identifier.
pub uninterp spec fn is_letter(c: char) -> bool;

/// Relies on char::is_alphabetic: whether the character is an alphabetic
/// letter, a property of the character alone.
pub assume_specification[ char::is_alphabetic ](c: char) -> (r: bool)
    ensures
        r == is_letter(c),
;

/// A character that may appear in a zone identifier.
pub open spec fn is_zone_char(c: char) -> bool {
    is_letter(c) || c == '_' || c == '/'
}

fn zone_char(c: char) -> (r: bool)
    ensures
        r == is_zone_char(c),
{
    c.is_alphabetic() || c == '_' || c == '/'
}

/// The position just past the run of zone-identifier characters starting at
/// `pos`.
pub open spec fn zone_end(s: Seq<char>, pos: int) -> int
    decreases s.len() - pos,
{
    if 0 <= pos < s.len() && is_zone_char(s[pos]) {
        zone_end(s, pos + 1)
    } else {
        pos
    }
}

#[derive(Clone, Debug, PartialEq, Eq)]
pub struct WhenNamedTimezone {
    pub name: String,
}

impl View for WhenNamedTimezone {
    type V = Seq<char>;

    open spec fn view(&self) -> Seq<char> {
        self.name@
    }
}

impl WhenNamedTimezone {
    /// The grammar of a zone identifier: one or more letters, underscores
    /// or slashes; the parsed value is the run itself.
    pub open spec fn spec_parse(s: Seq<char>, pos: int) -> Parsed<Seq<char>> {
        if 0 <= pos < s.len() && is_zone_char(s[pos]) {
            Parsed::Found { val: s.subrange(pos, zone_end(s, pos)), end: zone_end(s, pos) }
        } else {
            Parsed::Fail { at: pos, kind: ErrorKind::Tag }
        }
    }

    /// Reads a zone identifier at `pos`.
    pub fn parse_at(s: &str, pos: usize) -> (r: Result<(WhenNamedTimezone, usize), ParseError>)
        requires
            pos <= s@.len(),
        ensures
            match r {
                Ok((v, end)) => Self::spec_parse(s@, pos as int) == (Parsed::Found {
                    val: v@, end: end as int }) && pos <= end <= s@.len(),
                Err(e) => Self::spec_parse(s@, pos as int) == (Parsed::Fail::<Seq<char>> {
                    at: e.at as int, kind: e.kind }),
            },
    {
        let slen = s.unicode_len();
        if pos >= slen || !zone_char(s.get_char(pos)) {
            return Err(ParseError { at: pos, kind: ErrorKind::Tag });
        }
        let mut i: usize = pos;
        while i < slen && zone_char(s.get_char(i))
            invariant
                pos <= i <= slen,
                slen == s@.len(),
                zone_end(s@, pos as int) == zone_end(s@, i as int),
            decreases slen - i,
        {
            i += 1;
        }
        let name = s.substring_char(pos, i).to_owned();
        Ok((WhenNamedTimezone { name }, i))
    }

    /// Looks the identifier up in the IANA timezone database. Relies on
    /// jiff::tz::TimeZone::get, which errs exactly when the identifier is
    /// not in the database; that failure becomes the unknown-timezone
    /// error.
    #[verifier::external_body]
    pub fn to_timezone(&self) -> (r: Result<jiff::tz::TimeZone, ResolveError>)
        ensures
            r matches Err(e) ==> e == ResolveError::UnknownTimezone,
    {
        match jiff::tz::TimeZone::get(&self.name) {
            Ok(tz) => Ok(tz),
            Err(_) => Err(ResolveError::UnknownTimezone),
        }
    }

    /// Reads a zone identifier at the start of `input` and gives back the
    /// remaining input beside it.
    pub fn parse(input: &str) -> (r: Result<(&str, WhenNamedTimezone), ParseError>)
        ensures
            match r {
                Ok((rest, v)) => (Self::spec_parse(input@, 0) matches Parsed::Found {
                    val, end } && val == v@ && rest@ == input@.skip(end)),
                Err(e) => Self::spec_parse(input@, 0) == (Parsed::Fail::<Seq<char>> {
                    at: e.at as int, kind: e.kind }),
            },
    {
        let (v, end) = Self::parse_at(input, 0)?;
        Ok((crate::scan::rest_of(input, end), v))
    }
}

} // verus!
