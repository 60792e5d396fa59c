//! Relative times of day: the named moments noon, morning, evening and
//! midnight, and "next/previous/this" shifts by a granularity or by a clock
//! duration, with an optional leading "the" before next and previous.

use vstd::prelude::*;

use crate::civil::{
    checked_shift, lemma_sod_split, resolves_to, shift_seconds_civil, CivilDateTime, Moment,
    ResolveError,
};
use crate::scan::{
    agrees, merge_fail, or_else, spec_space1, tag_at, tag_matches, ErrorKind, Parsed, ParseError,
};
use crate::time_duration::TimeDuration;
use crate::time_kind::TimeKind;
use crate::when_relative_date::{keyword_gap, spec_keyword_gap};

verus! {

#[derive(Clone, Copy, Debug, PartialEq, Eq, Structural)]
pub enum WhenRelativeTime {
    Noon,
    Morning,
    Evening,
    Midnight,
    NextKind(TimeKind),
    PreviousKind(TimeKind),
    ThisKind(TimeKind),
    NextDuration(TimeDuration),
    PreviousDuration(TimeDuration),
}

/// The qualifier keyword alone or with a leading "the", followed by at
/// least one blank; "next" and "the next" open the same phrases.
pub open spec fn spec_opt_the_keyword_gap(s: Seq<char>, pos: int, kw: Seq<char>) -> Parsed<()> {
    or_else(
        spec_keyword_gap(s, pos, kw),
        if tag_matches(s, pos, "the"@) {
            match spec_space1(s, pos + "the"@.len()) {
                Parsed::Fail { at, kind } => Parsed::Fail { at, kind },
                Parsed::Found { val: _, end: p } => spec_keyword_gap(s, p, kw),
            }
        } else {
            Parsed::Fail { at: pos, kind: ErrorKind::Tag }
        },
    )
}

fn opt_the_keyword_gap(s: &str, pos: usize, kw: &str) -> (r: Result<((), usize), ParseError>)
    requires
        pos <= s@.len(),
    ensures
        agrees(r, spec_opt_the_keyword_gap(s@, pos as int, kw@)),
        r matches Ok((v, end)) ==> pos <= end <= s@.len(),
{
    let e1 = match keyword_gap(s, pos, kw) {
        Ok(x) => return Ok(x),
        Err(e) => e,
    };
    let e2 = match tag_at(s, pos, "the") {
        Some(p0) => match crate::scan::space1(s, p0) {
            Ok((_, p)) => match keyword_gap(s, p, kw) {
                Ok(x) => return Ok(x),
                Err(e) => e,
            },
            Err(e) => e,
        },
        None => ParseError { at: pos, kind: ErrorKind::Tag },
    };
    Err(merge_fail(e1, e2))
}

/// "next/previous <granularity>", optionally after "the".
pub open spec fn spec_shift_kind(s: Seq<char>, pos: int, kw: Seq<char>) -> Parsed<TimeKind> {
    match spec_opt_the_keyword_gap(s, pos, kw) {
        Parsed::Fail { at, kind } => Parsed::Fail { at, kind },
        Parsed::Found { val: _, end: p } => TimeKind::spec_parse(s, p),
    }
}

/// "this <granularity>"; unlike "next" and "previous", "this" takes no
/// leading "the".
pub open spec fn spec_this_kind(s: Seq<char>, pos: int) -> Parsed<TimeKind> {
    match spec_keyword_gap(s, pos, "this"@) {
        Parsed::Fail { at, kind } => Parsed::Fail { at, kind },
        Parsed::Found { val: _, end: p } => TimeKind::spec_parse(s, p),
    }
}

fn this_kind(s: &str, pos: usize) -> (r: Result<(TimeKind, usize), ParseError>)
    requires
        pos <= s@.len(),
    ensures
        agrees(r, spec_this_kind(s@, pos as int)),
        r matches Ok((v, end)) ==> pos <= end <= s@.len(),
{
    let (_, p) = keyword_gap(s, pos, "this")?;
    TimeKind::parse_at(s, p)
}

fn shift_kind(s: &str, pos: usize, kw: &str) -> (r: Result<(TimeKind, usize), ParseError>)
    requires
        pos <= s@.len(),
    ensures
        agrees(r, spec_shift_kind(s@, pos as int, kw@)),
        r matches Ok((v, end)) ==> pos <= end <= s@.len(),
{
    let (_, p) = opt_the_keyword_gap(s, pos, kw)?;
    TimeKind::parse_at(s, p)
}

/// "next/previous <clock duration>", optionally after "the".
pub open spec fn spec_shift_duration(s: Seq<char>, pos: int, kw: Seq<char>) -> Parsed<TimeDuration> {
    match spec_opt_the_keyword_gap(s, pos, kw) {
        Parsed::Fail { at, kind } => Parsed::Fail { at, kind },
        Parsed::Found { val: _, end: p } => TimeDuration::spec_parse(s, p),
    }
}

fn shift_duration(s: &str, pos: usize, kw: &str) -> (r: Result<(TimeDuration, usize), ParseError>)
    requires
        pos <= s@.len(),
    ensures
        agrees(r, spec_shift_duration(s@, pos as int, kw@)),
        r matches Ok((v, end)) ==> pos <= end <= s@.len(),
{
    let (_, p) = opt_the_keyword_gap(s, pos, kw)?;
    TimeDuration::parse_at(s, p)
}

/// Wraps an alternative's value in its [`WhenRelativeTime`] constructor.
pub open spec fn as_relative_time<T>(p: Parsed<T>, f: spec_fn(T) -> WhenRelativeTime) -> Parsed<WhenRelativeTime> {
    match p {
        Parsed::Found { val, end } => Parsed::Found { val: f(val), end },
        Parsed::Fail { at, kind } => Parsed::Fail { at, kind },
    }
}

/// A bare keyword alternative.
pub open spec fn spec_bare(s: Seq<char>, pos: int, kw: Seq<char>, v: WhenRelativeTime) -> Parsed<WhenRelativeTime> {
    if tag_matches(s, pos, kw) {
        Parsed::Found { val: v, end: pos + kw.len() }
    } else {
        Parsed::Fail { at: pos, kind: ErrorKind::Tag }
    }
}

impl WhenRelativeTime {
    /// The grammar of a relative time: the named moments, then
    /// granularity shifts, then duration shifts, first match wins.
    pub open spec fn spec_parse(s: Seq<char>, pos: int) -> Parsed<WhenRelativeTime> {
        or_else(spec_bare(s, pos, "noon"@, WhenRelativeTime::Noon),
        or_else(spec_bare(s, pos, "morning"@, WhenRelativeTime::Morning),
        or_else(spec_bare(s, pos, "evening"@, WhenRelativeTime::Evening),
        or_else(spec_bare(s, pos, "midnight"@, WhenRelativeTime::Midnight),
        or_else(as_relative_time(spec_shift_kind(s, pos, "next"@), |k| WhenRelativeTime::NextKind(k)),
        or_else(as_relative_time(spec_shift_kind(s, pos, "previous"@), |k| WhenRelativeTime::PreviousKind(k)),
        or_else(as_relative_time(spec_this_kind(s, pos), |k| WhenRelativeTime::ThisKind(k)),
        or_else(as_relative_time(spec_shift_duration(s, pos, "next"@), |d| WhenRelativeTime::NextDuration(d)),
        as_relative_time(spec_shift_duration(s, pos, "previous"@), |d| WhenRelativeTime::PreviousDuration(d))))))))))
    }

    /// Reads a relative time at `pos`.
    pub fn parse_at(s: &str, pos: usize) -> (r: Result<(WhenRelativeTime, usize), ParseError>)
        requires
            pos <= s@.len(),
        ensures
            agrees(r, Self::spec_parse(s@, pos as int)),
            r matches Ok((v, end)) ==> pos <= end <= s@.len(),
    {
        let e1 = match tag_at(s, pos, "noon") {
            Some(end) => return Ok((WhenRelativeTime::Noon, end)),
            None => ParseError { at: pos, kind: ErrorKind::Tag },
        };
        let e2 = match tag_at(s, pos, "morning") {
            Some(end) => return Ok((WhenRelativeTime::Morning, end)),
            None => ParseError { at: pos, kind: ErrorKind::Tag },
        };
        let e3 = match tag_at(s, pos, "evening") {
            Some(end) => return Ok((WhenRelativeTime::Evening, end)),
            None => ParseError { at: pos, kind: ErrorKind::Tag },
        };
        let e4 = match tag_at(s, pos, "midnight") {
            Some(end) => return Ok((WhenRelativeTime::Midnight, end)),
            None => ParseError { at: pos, kind: ErrorKind::Tag },
        };
        let e5 = match shift_kind(s, pos, "next") {
            Ok((k, end)) => return Ok((WhenRelativeTime::NextKind(k), end)),
            Err(e) => e,
        };
        let e6 = match shift_kind(s, pos, "previous") {
            Ok((k, end)) => return Ok((WhenRelativeTime::PreviousKind(k), end)),
            Err(e) => e,
        };
        let e7 = match this_kind(s, pos) {
            Ok((k, end)) => return Ok((WhenRelativeTime::ThisKind(k), end)),
            Err(e) => e,
        };
        let e8 = match shift_duration(s, pos, "next") {
            Ok((d, end)) => return Ok((WhenRelativeTime::NextDuration(d), end)),
            Err(e) => e,
        };
        let e9 = match shift_duration(s, pos, "previous") {
            Ok((d, end)) => return Ok((WhenRelativeTime::PreviousDuration(d), end)),
            Err(e) => e,
        };
        Err(merge_fail(e1, merge_fail(e2, merge_fail(e3, merge_fail(e4, merge_fail(e5,
            merge_fail(e6, merge_fail(e7, merge_fail(e8, e9)))))))))
    }

    /// The seconds in one unit of the granularity.
    pub open spec fn spec_unit_seconds(k: TimeKind) -> int {
        match k {
            TimeKind::Hour => 3600,
            TimeKind::Minute => 60,
            TimeKind::Second => 1,
        }
    }

    /// The seconds in a clock duration.
    pub open spec fn spec_duration_seconds(d: TimeDuration) -> int {
        match d {
            TimeDuration::Seconds(n) => n as int,
            TimeDuration::Minutes(n) => 60 * n,
            TimeDuration::Hours(n) => 3600 * n,
        }
    }

    /// What overlaying the relative time on the dated value `z` gives.
    /// The named moments set the clock to a fixed reading; "next" and
    /// "previous" shift by one unit or by a duration, rolling the date
    /// when the clock passes midnight; "this" copies the reference
    /// value's clock fields down to the asked granularity onto `z`.
    pub open spec fn spec_with(self, z: Moment, now: CivilDateTime) -> Result<Moment, ResolveError> {
        match self {
            WhenRelativeTime::Noon => Ok(Moment { dn: z.dn, sod: 12 * 3600int }),
            WhenRelativeTime::Morning => Ok(Moment { dn: z.dn, sod: 9 * 3600int }),
            WhenRelativeTime::Evening => Ok(Moment { dn: z.dn, sod: 18 * 3600int }),
            WhenRelativeTime::Midnight => Ok(Moment { dn: z.dn, sod: 0 }),
            WhenRelativeTime::NextKind(k) => checked_shift(z, Self::spec_unit_seconds(k)),
            WhenRelativeTime::PreviousKind(k) => checked_shift(z, -Self::spec_unit_seconds(k)),
            WhenRelativeTime::ThisKind(TimeKind::Hour) => Ok(
                Moment { dn: z.dn, sod: 3600 * now.hour + z.sod % 3600 },
            ),
            WhenRelativeTime::ThisKind(TimeKind::Minute) => Ok(
                Moment { dn: z.dn, sod: 3600 * now.hour + 60 * now.minute + z.sod % 60 },
            ),
            WhenRelativeTime::ThisKind(TimeKind::Second) => Ok(
                Moment { dn: z.dn, sod: now.spec_sod() },
            ),
            WhenRelativeTime::NextDuration(d) => checked_shift(z, Self::spec_duration_seconds(d)),
            WhenRelativeTime::PreviousDuration(d) => checked_shift(
                z,
                -Self::spec_duration_seconds(d),
            ),
        }
    }

    /// Overlays the relative time on the dated value `zoned`, reading
    /// "this" clock fields from `now`.
    pub fn with_zoned(&self, zoned: &CivilDateTime, now: &CivilDateTime) -> (r: Result<
        CivilDateTime,
        ResolveError,
    >)
        requires
            zoned.wf(),
            now.wf(),
        ensures
            resolves_to(r, self.spec_with(zoned.moment(), *now)),
    {
        proof {
            lemma_sod_split(zoned.hour as int, zoned.minute as int, zoned.second as int);
        }
        match self {
            WhenRelativeTime::Noon => Ok(CivilDateTime { hour: 12, minute: 0, second: 0, ..*zoned }),
            WhenRelativeTime::Morning => Ok(CivilDateTime { hour: 9, minute: 0, second: 0, ..*zoned }),
            WhenRelativeTime::Evening => Ok(CivilDateTime { hour: 18, minute: 0, second: 0, ..*zoned }),
            WhenRelativeTime::Midnight => Ok(CivilDateTime { hour: 0, minute: 0, second: 0, ..*zoned }),
            WhenRelativeTime::NextKind(k) => {
                let unit: i64 = match k {
                    TimeKind::Hour => 3600,
                    TimeKind::Minute => 60,
                    TimeKind::Second => 1,
                };
                shift_seconds_civil(zoned, unit)
            },
            WhenRelativeTime::PreviousKind(k) => {
                let unit: i64 = match k {
                    TimeKind::Hour => 3600,
                    TimeKind::Minute => 60,
                    TimeKind::Second => 1,
                };
                shift_seconds_civil(zoned, -unit)
            },
            WhenRelativeTime::ThisKind(TimeKind::Hour) => Ok(
                CivilDateTime { hour: now.hour, ..*zoned },
            ),
            WhenRelativeTime::ThisKind(TimeKind::Minute) => Ok(
                CivilDateTime { hour: now.hour, minute: now.minute, ..*zoned },
            ),
            WhenRelativeTime::ThisKind(TimeKind::Second) => Ok(
                CivilDateTime { hour: now.hour, minute: now.minute, second: now.second, ..*zoned },
            ),
            WhenRelativeTime::NextDuration(d) => {
                let delta: i64 = match d {
                    TimeDuration::Seconds(n) => *n as i64,
                    TimeDuration::Minutes(n) => 60 * (*n as i64),
                    TimeDuration::Hours(n) => 3600 * (*n as i64),
                };
                shift_seconds_civil(zoned, delta)
            },
            WhenRelativeTime::PreviousDuration(d) => {
                let delta: i64 = match d {
                    TimeDuration::Seconds(n) => *n as i64,
                    TimeDuration::Minutes(n) => 60 * (*n as i64),
                    TimeDuration::Hours(n) => 3600 * (*n as i64),
                };
                shift_seconds_civil(zoned, -delta)
            },
        }
    }

    /// Reads a relative time at the start of `input` and gives back the
    /// remaining input beside it.
    pub fn parse(input: &str) -> (r: Result<(&str, WhenRelativeTime), ParseError>)
        ensures
            match r {
                Ok((rest, v)) => (Self::spec_parse(input@, 0) matches Parsed::Found {
                    val, end } && val == v && rest@ == input@.skip(end)),
                Err(e) => Self::spec_parse(input@, 0) == (Parsed::Fail::<WhenRelativeTime> {
                    at: e.at as int, kind: e.kind }),
            },
    {
        let (v, end) = Self::parse_at(input, 0)?;
        Ok((crate::scan::rest_of(input, end), v))
    }
}

} // verus!
