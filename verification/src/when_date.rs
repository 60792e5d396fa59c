//! A date clause: a relative form or an absolute literal.

use vstd::prelude::*;

use crate::civil::{resolves_to, CivilDateTime, Moment, ResolveError};
use crate::scan::{agrees, merge_fail, or_else, Parsed, ParseError};
use crate::when_exact_date::WhenExactDate;
use crate::when_relative_date::WhenRelativeDate;

verus! {

#[derive(Clone, Copy, Debug, PartialEq, Eq, Structural)]
pub enum WhenDate {
    Relative(WhenRelativeDate),
    Exact(WhenExactDate),
}

/// Wraps an alternative's value in its [`WhenDate`] constructor.
pub open spec fn as_date<T>(p: Parsed<T>, f: spec_fn(T) -> WhenDate) -> Parsed<WhenDate> {
    match p {
        Parsed::Found { val, end } => Parsed::Found { val: f(val), end },
        Parsed::Fail { at, kind } => Parsed::Fail { at, kind },
    }
}

impl WhenDate {
    /// The grammar of a date clause: the relative forms first, then the
    /// absolute literals.
    pub open spec fn spec_parse(s: Seq<char>, pos: int) -> Parsed<WhenDate> {
        or_else(
            as_date(WhenRelativeDate::spec_parse(s, pos), |d| WhenDate::Relative(d)),
            as_date(WhenExactDate::spec_parse(s, pos), |d| WhenDate::Exact(d)),
        )
    }

    /// Reads a date clause at `pos`.
    pub fn parse_at(s: &str, pos: usize) -> (r: Result<(WhenDate, usize), ParseError>)
        requires
            pos <= s@.len(),
        ensures
            agrees(r, Self::spec_parse(s@, pos as int)),
            r matches Ok((v, end)) ==> pos <= end <= s@.len(),
    {
        let e1 = match WhenRelativeDate::parse_at(s, pos) {
            Ok((d, end)) => return Ok((WhenDate::Relative(d), end)),
            Err(e) => e,
        };
        let e2 = match WhenExactDate::parse_at(s, pos) {
            Ok((d, end)) => return Ok((WhenDate::Exact(d), end)),
            Err(e) => e,
        };
        Err(merge_fail(e1, e2))
    }

    /// What the date clause resolves to from the reference civil value:
    /// a relative date keeps the reference clock, an absolute date reads
    /// midnight.
    pub open spec fn spec_resolve(self, now: CivilDateTime) -> Result<Moment, ResolveError> {
        match self {
            WhenDate::Relative(d) => d.spec_resolve(now),
            WhenDate::Exact(d) => d.spec_resolve(),
        }
    }

    /// Resolves the date clause against the reference civil value.
    pub fn to_timestamp(&self, now: &CivilDateTime) -> (r: Result<CivilDateTime, ResolveError>)
        requires
            now.wf(),
        ensures
            resolves_to(r, self.spec_resolve(*now)),
    {
        match self {
            WhenDate::Relative(d) => d.to_timestamp(now),
            WhenDate::Exact(d) => d.to_timestamp(now),
        }
    }

    /// Reads a date clause at the start of `input` and gives back the
    /// remaining input beside it.
    pub fn parse(input: &str) -> (r: Result<(&str, WhenDate), ParseError>)
        ensures
            match r {
                Ok((rest, v)) => (Self::spec_parse(input@, 0) matches Parsed::Found {
                    val, end } && val == v && rest@ == input@.skip(end)),
                Err(e) => Self::spec_parse(input@, 0) == (Parsed::Fail::<WhenDate> {
                    at: e.at as int, kind: e.kind }),
            },
    {
        let (v, end) = Self::parse_at(input, 0)?;
        Ok((crate::scan::rest_of(input, end), v))
    }
}

} // verus!
