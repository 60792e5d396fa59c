//! A literal time of day: either a 12-hour reading with an am/pm marker or
//! a 24-hour reading tagged "GMT".

use vstd::prelude::*;

use crate::am_pm_time::AmPmTime;
use crate::civil::{resolves_to, CivilDateTime, Moment, ResolveError};
use crate::gmt_time::GmtTime;
use crate::scan::{agrees, merge_fail, or_else, Parsed, ParseError};

verus! {

#[derive(Clone, Copy, Debug, PartialEq, Eq, Structural)]
pub enum WhenExactTime {
    AmPm(AmPmTime),
    Gmt(GmtTime),
}

/// Wraps an alternative's value in its [`WhenExactTime`] constructor.
pub open spec fn as_exact_time<T>(p: Parsed<T>, f: spec_fn(T) -> WhenExactTime) -> Parsed<WhenExactTime> {
    match p {
        Parsed::Found { val, end } => Parsed::Found { val: f(val), end },
        Parsed::Fail { at, kind } => Parsed::Fail { at, kind },
    }
}

impl WhenExactTime {
    /// The grammar of a literal time: the 12-hour form first, then the
    /// 24-hour form.
    pub open spec fn spec_parse(s: Seq<char>, pos: int) -> Parsed<WhenExactTime> {
        or_else(
            as_exact_time(AmPmTime::spec_parse(s, pos), |t| WhenExactTime::AmPm(t)),
            as_exact_time(GmtTime::spec_parse(s, pos), |t| WhenExactTime::Gmt(t)),
        )
    }

    /// Reads a literal time at `pos`.
    pub fn parse_at(s: &str, pos: usize) -> (r: Result<(WhenExactTime, usize), ParseError>)
        requires
            pos <= s@.len(),
        ensures
            agrees(r, Self::spec_parse(s@, pos as int)),
            r matches Ok((v, end)) ==> pos <= end <= s@.len(),
    {
        let e1 = match AmPmTime::parse_at(s, pos) {
            Ok((t, end)) => return Ok((WhenExactTime::AmPm(t), end)),
            Err(e) => e,
        };
        let e2 = match GmtTime::parse_at(s, pos) {
            Ok((t, end)) => return Ok((WhenExactTime::Gmt(t), end)),
            Err(e) => e,
        };
        Err(merge_fail(e1, e2))
    }

    /// What overlaying the literal time on a dated value gives.
    pub open spec fn spec_with(self, z: Moment) -> Result<Moment, ResolveError> {
        match self {
            WhenExactTime::AmPm(t) => t.spec_with(z),
            WhenExactTime::Gmt(t) => t.spec_with(z),
        }
    }

    /// Replaces the clock of `zoned` with this reading, keeping its date.
    pub fn with_zoned(&self, zoned: &CivilDateTime) -> (r: Result<CivilDateTime, ResolveError>)
        requires
            zoned.wf(),
        ensures
            resolves_to(r, self.spec_with(zoned.moment())),
    {
        match self {
            WhenExactTime::AmPm(t) => t.with_zoned(zoned),
            WhenExactTime::Gmt(t) => t.with_zoned(zoned),
        }
    }

    /// Reads a literal time at the start of `input` and gives back the
    /// remaining input beside it.
    pub fn parse(input: &str) -> (r: Result<(&str, WhenExactTime), ParseError>)
        ensures
            match r {
                Ok((rest, v)) => (Self::spec_parse(input@, 0) matches Parsed::Found {
                    val, end } && val == v && rest@ == input@.skip(end)),
                Err(e) => Self::spec_parse(input@, 0) == (Parsed::Fail::<WhenExactTime> {
                    at: e.at as int, kind: e.kind }),
            },
    {
        let (v, end) = Self::parse_at(input, 0)?;
        Ok((crate::scan::rest_of(input, end), v))
    }
}

} // verus!
