//! A fixed timezone offset written as `UTC±h[:mm[:ss]]`.

use vstd::prelude::*;

use crate::civil::ResolveError;
use crate::parse_hms::{parse_hms, spec_parse_hms, HmsFormat};
use crate::scan::{agrees, char_at, char_matches, tag_at, tag_matches, ErrorKind, Parsed, ParseError};

verus! {

#[derive(Clone, Copy, Debug, PartialEq, Eq, Structural)]
pub enum WhenUtcOffsetSign {
    Plus,
    Minus,
}

/// A fixed offset from UTC; the clock fields come from a 24-hour reading,
/// so a parsed offset never exceeds 23:59:59 either way.
#[derive(Clone, Copy, Debug, PartialEq, Eq, Structural)]
pub struct WhenUtcOffset {
    pub sign: WhenUtcOffsetSign,
    pub hour: u8,
    pub minute: u8,
    pub second: u8,
}

impl WhenUtcOffset {
    /// The clock fields lie within a 24-hour reading's bounds, as parsing
    /// guarantees.
    pub open spec fn valid(self) -> bool {
        self.hour <= 23 && self.minute <= 59 && self.second <= 59
    }

    /// The signed total offset in seconds.
    pub open spec fn spec_to_seconds(self) -> int {
        let total = self.hour * 3600 + self.minute * 60 + self.second;
        match self.sign {
            WhenUtcOffsetSign::Plus => total,
            WhenUtcOffsetSign::Minus => -total,
        }
    }

    /// The signed total offset in seconds.
    pub fn to_seconds(&self) -> (r: i32)
        ensures
            r as int == self.spec_to_seconds(),
            self.valid() ==> -86399 <= r <= 86399,
    {
        let total = self.hour as i32 * 3600 + self.minute as i32 * 60 + self.second as i32;
        match self.sign {
            WhenUtcOffsetSign::Plus => total,
            WhenUtcOffsetSign::Minus => -total,
        }
    }

    /// The fixed-offset timezone value of this offset. A parsed offset is
    /// at most 23:59:59 either way and so within the representable span of
    /// offsets; one built by hand beyond that span is rejected.
    pub fn to_timezone(&self) -> (r: Result<jiff::tz::TimeZone, ResolveError>)
        ensures
            (r is Ok) <==> -93599 <= self.spec_to_seconds() <= 93599,
            self.valid() ==> r is Ok,
    {
        let s = self.to_seconds();
        if -93599 <= s && s <= 93599 {
            Ok(crate::when_timezone::fixed_timezone(s))
        } else {
            Err(ResolveError::OutOfRange)
        }
    }

    /// The grammar of a fixed offset: the literal "UTC", a sign, then a
    /// 24-hour clock reading.
    pub open spec fn spec_parse(s: Seq<char>, pos: int) -> Parsed<WhenUtcOffset> {
        if !tag_matches(s, pos, "UTC"@) {
            Parsed::Fail { at: pos, kind: ErrorKind::Tag }
        } else {
            let p1 = pos + "UTC"@.len();
            let sign = if char_matches(s, p1, '+') {
                Some(WhenUtcOffsetSign::Plus)
            } else if char_matches(s, p1, '-') {
                Some(WhenUtcOffsetSign::Minus)
            } else {
                None
            };
            match sign {
                None => Parsed::Fail { at: p1, kind: ErrorKind::Tag },
                Some(sign) => match spec_parse_hms(s, p1 + 1, HmsFormat::H24) {
                    Parsed::Fail { at, kind } => Parsed::Fail { at, kind },
                    Parsed::Found { val: hms, end } => Parsed::Found {
                        val: WhenUtcOffset {
                            sign,
                            hour: hms.0,
                            minute: hms.1,
                            second: hms.2,
                        },
                        end,
                    },
                },
            }
        }
    }

    /// Reads a fixed offset at `pos`.
    pub fn parse_at(s: &str, pos: usize) -> (r: Result<(WhenUtcOffset, usize), ParseError>)
        requires
            pos <= s@.len(),
        ensures
            agrees(r, Self::spec_parse(s@, pos as int)),
            r matches Ok((v, end)) ==> pos <= end <= s@.len() && v.valid(),
    {
        let p1 = match tag_at(s, pos, "UTC") {
            Some(p) => p,
            None => return Err(ParseError { at: pos, kind: ErrorKind::Tag }),
        };
        let sign = if char_at(s, p1, '+') {
            WhenUtcOffsetSign::Plus
        } else if char_at(s, p1, '-') {
            WhenUtcOffsetSign::Minus
        } else {
            return Err(ParseError { at: p1, kind: ErrorKind::Tag });
        };
        let (hms, end) = parse_hms(s, p1 + 1, HmsFormat::H24)?;
        Ok((WhenUtcOffset { sign, hour: hms.0, minute: hms.1, second: hms.2 }, end))
    }

    /// Reads a fixed offset at the start of `input` and gives back the
    /// remaining input beside it.
    pub fn parse(input: &str) -> (r: Result<(&str, WhenUtcOffset), ParseError>)
        ensures
            match r {
                Ok((rest, v)) => (Self::spec_parse(input@, 0) matches Parsed::Found {
                    val, end } && val == v && rest@ == input@.skip(end)) && v.valid(),
                Err(e) => Self::spec_parse(input@, 0) == (Parsed::Fail::<WhenUtcOffset> {
                    at: e.at as int, kind: e.kind }),
            },
    {
        let (v, end) = Self::parse_at(input, 0)?;
        Ok((crate::scan::rest_of(input, end), v))
    }
}

} // verus!
