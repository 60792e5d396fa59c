//! A time clause: a relative form or a literal clock reading.

use vstd::prelude::*;

use crate::civil::{resolves_to, CivilDateTime, Moment, ResolveError};
use crate::scan::{agrees, merge_fail, or_else, Parsed, ParseError};
use crate::when_exact_time::WhenExactTime;
use crate::when_relative_time::WhenRelativeTime;

verus! {

#[derive(Clone, Copy, Debug, PartialEq, Eq, Structural)]
pub enum WhenTime {
    Relative(WhenRelativeTime),
    Exact(WhenExactTime),
}

/// Wraps an alternative's value in its [`WhenTime`] constructor.
pub open spec fn as_time<T>(p: Parsed<T>, f: spec_fn(T) -> WhenTime) -> Parsed<WhenTime> {
    match p {
        Parsed::Found { val, end } => Parsed::Found { val: f(val), end },
        Parsed::Fail { at, kind } => Parsed::Fail { at, kind },
    }
}

impl WhenTime {
    /// The grammar of a time clause: the relative forms first, then the
    /// literal readings.
    pub open spec fn spec_parse(s: Seq<char>, pos: int) -> Parsed<WhenTime> {
        or_else(
            as_time(WhenRelativeTime::spec_parse(s, pos), |t| WhenTime::Relative(t)),
            as_time(WhenExactTime::spec_parse(s, pos), |t| WhenTime::Exact(t)),
        )
    }

    /// Reads a time clause at `pos`.
    pub fn parse_at(s: &str, pos: usize) -> (r: Result<(WhenTime, usize), ParseError>)
        requires
            pos <= s@.len(),
        ensures
            agrees(r, Self::spec_parse(s@, pos as int)),
            r matches Ok((v, end)) ==> pos <= end <= s@.len(),
    {
        let e1 = match WhenRelativeTime::parse_at(s, pos) {
            Ok((t, end)) => return Ok((WhenTime::Relative(t), end)),
            Err(e) => e,
        };
        let e2 = match WhenExactTime::parse_at(s, pos) {
            Ok((t, end)) => return Ok((WhenTime::Exact(t), end)),
            Err(e) => e,
        };
        Err(merge_fail(e1, e2))
    }

    /// What overlaying the time clause on the dated value `z` gives,
    /// reading "this" clock fields from `now`.
    pub open spec fn spec_with(self, z: Moment, now: CivilDateTime) -> Result<Moment, ResolveError> {
        match self {
            WhenTime::Relative(t) => t.spec_with(z, now),
            WhenTime::Exact(t) => t.spec_with(z),
        }
    }

    /// What the time clause alone resolves to: itself overlaid on the
    /// reference value's day.
    pub open spec fn spec_resolve(self, now: CivilDateTime) -> Result<Moment, ResolveError> {
        self.spec_with(now.moment(), now)
    }

    /// Overlays the time clause on the dated value `zoned`.
    pub fn with_zoned(&self, zoned: &CivilDateTime, now: &CivilDateTime) -> (r: Result<
        CivilDateTime,
        ResolveError,
    >)
        requires
            zoned.wf(),
            now.wf(),
        ensures
            resolves_to(r, self.spec_with(zoned.moment(), *now)),
    {
        match self {
            WhenTime::Relative(t) => t.with_zoned(zoned, now),
            WhenTime::Exact(t) => t.with_zoned(zoned),
        }
    }

    /// Resolves the time clause against the reference civil value's day.
    pub fn to_timestamp(&self, now: &CivilDateTime) -> (r: Result<CivilDateTime, ResolveError>)
        requires
            now.wf(),
        ensures
            resolves_to(r, self.spec_resolve(*now)),
    {
        self.with_zoned(now, now)
    }

    /// Reads a time clause at the start of `input` and gives back the
    /// remaining input beside it.
    pub fn parse(input: &str) -> (r: Result<(&str, WhenTime), ParseError>)
        ensures
            match r {
                Ok((rest, v)) => (Self::spec_parse(input@, 0) matches Parsed::Found {
                    val, end } && val == v && rest@ == input@.skip(end)),
                Err(e) => Self::spec_parse(input@, 0) == (Parsed::Fail::<WhenTime> {
                    at: e.at as int, kind: e.kind }),
            },
    {
        let (v, end) = Self::parse_at(input, 0)?;
        Ok((crate::scan::rest_of(input, end), v))
    }
}

} // verus!
