//! A literal 24-hour clock reading: `h[:mm[:ss]]` followed by the literal
//! marker "GMT", which tags 24-hour notation and is not itself a timezone.

use vstd::prelude::*;

use crate::civil::{resolves_to, CivilDateTime, Moment, ResolveError};
use crate::parse_hms::{parse_hms, spec_parse_hms, HmsFormat};
use crate::scan::{agrees, space1, spec_space1, tag_at, tag_matches, ErrorKind, Parsed, ParseError};

verus! {

/// A 24-hour clock reading; the hour lies in `[0, 23]` when parsed.
#[derive(Clone, Copy, Debug, PartialEq, Eq, Structural)]
pub struct GmtTime {
    pub hour: u8,
    pub minute: u8,
    pub second: u8,
}

impl GmtTime {
    /// The grammar of a 24-hour reading: a clock reading with a 24-hour
    /// hour field, blanks, then the upper-case marker "GMT".
    pub open spec fn spec_parse(s: Seq<char>, pos: int) -> Parsed<GmtTime> {
        match spec_parse_hms(s, pos, HmsFormat::H24) {
            Parsed::Fail { at, kind } => Parsed::Fail { at, kind },
            Parsed::Found { val: hms, end: p1 } => match spec_space1(s, p1) {
                Parsed::Fail { at, kind } => Parsed::Fail { at, kind },
                Parsed::Found { val: _, end: p2 } => if tag_matches(s, p2, "GMT"@) {
                    Parsed::Found {
                        val: GmtTime { hour: hms.0, minute: hms.1, second: hms.2 },
                        end: p2 + "GMT"@.len(),
                    }
                } else {
                    Parsed::Fail { at: p2, kind: ErrorKind::Tag }
                },
            },
        }
    }

    /// Reads a 24-hour reading at `pos`.
    pub fn parse_at(s: &str, pos: usize) -> (r: Result<(GmtTime, usize), ParseError>)
        requires
            pos <= s@.len(),
        ensures
            agrees(r, Self::spec_parse(s@, pos as int)),
            r matches Ok((v, end)) ==> pos <= end <= s@.len(),
    {
        let (hms, p1) = parse_hms(s, pos, HmsFormat::H24)?;
        let (_, p2) = space1(s, p1)?;
        if let Some(end) = tag_at(s, p2, "GMT") {
            Ok((GmtTime { hour: hms.0, minute: hms.1, second: hms.2 }, end))
        } else {
            Err(ParseError { at: p2, kind: ErrorKind::Tag })
        }
    }

    /// The reading's clock fields are internally consistent.
    pub open spec fn spec_consistent(self) -> bool {
        self.hour <= 23 && self.minute <= 59 && self.second <= 59
    }

    /// What overlaying the reading on a dated value gives: the same day
    /// with the clock replaced by the reading; an inconsistent reading is
    /// an invalid-time failure.
    pub open spec fn spec_with(self, z: Moment) -> Result<Moment, ResolveError> {
        if self.spec_consistent() {
            Ok(Moment { dn: z.dn, sod: 3600 * self.hour + 60 * self.minute + self.second })
        } else {
            Err(ResolveError::InvalidTime)
        }
    }

    /// Replaces the clock of `zoned` with this reading, keeping its date.
    pub fn with_zoned(&self, zoned: &CivilDateTime) -> (r: Result<CivilDateTime, ResolveError>)
        requires
            zoned.wf(),
        ensures
            resolves_to(r, self.spec_with(zoned.moment())),
    {
        if self.hour > 23 || self.minute > 59 || self.second > 59 {
            return Err(ResolveError::InvalidTime);
        }
        Ok(
            CivilDateTime {
                year: zoned.year,
                month: zoned.month,
                day: zoned.day,
                hour: self.hour,
                minute: self.minute,
                second: self.second,
            },
        )
    }

    /// Reads a 24-hour reading at the start of `input` and gives back the
    /// remaining input beside it.
    pub fn parse(input: &str) -> (r: Result<(&str, GmtTime), ParseError>)
        ensures
            match r {
                Ok((rest, v)) => (Self::spec_parse(input@, 0) matches Parsed::Found {
                    val, end } && val == v && rest@ == input@.skip(end)),
                Err(e) => Self::spec_parse(input@, 0) == (Parsed::Fail::<GmtTime> {
                    at: e.at as int, kind: e.kind }),
            },
    {
        let (v, end) = Self::parse_at(input, 0)?;
        Ok((crate::scan::rest_of(input, end), v))
    }
}

} // verus!
