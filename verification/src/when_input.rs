//! The root of the grammar: an input phrase is the literal "now", a date
//! clause, a time clause, or a date clause followed by "at" and a time
//! clause, optionally closed by "in" and a timezone clause. The whole input
//! must be consumed.

use vstd::prelude::*;

use crate::civil::{
    civil_from_epoch, civil_of, epoch_from_civil, epoch_of_moment, in_epoch_range,
    moment_of_epoch, resolves_to, CivilDateTime, Moment, ResolveError,
};
use crate::scan::{
    agrees, merge_fail, or_else, space1, spec_space1, tag_at, tag_matches, ErrorKind, Parsed,
    ParseError,
};
use crate::when_date::WhenDate;
use crate::when_time::WhenTime;
use crate::when_timezone::{zone_instant_of_civil, zone_offset_at, WhenTimezone, WhenTimezoneView};

verus! {

#[derive(Clone, Copy, Debug, PartialEq, Eq, Structural)]
pub enum WhenInputTime {
    Now,
    OnlyDate(WhenDate),
    OnlyTime(WhenTime),
    DateAndTime { date: WhenDate, time: WhenTime },
}

/// The root syntax tree: the phrase's date/time part and its optional
/// trailing timezone clause.
#[derive(Clone, Debug, PartialEq, Eq)]
pub struct WhenInput {
    pub time: WhenInputTime,
    pub timezone: Option<WhenTimezone>,
}

/// The ghost shape of the root syntax tree.
pub struct WhenInputView {
    pub time: WhenInputTime,
    pub timezone: Option<WhenTimezoneView>,
}

impl View for WhenInput {
    type V = WhenInputView;

    open spec fn view(&self) -> WhenInputView {
        WhenInputView {
            time: self.time,
            timezone: match &self.timezone {
                Some(tz) => Some(tz@),
                None => None,
            },
        }
    }
}

/// "<date> at <time>".
pub open spec fn spec_date_and_time(s: Seq<char>, pos: int) -> Parsed<WhenInputTime> {
    match WhenDate::spec_parse(s, pos) {
        Parsed::Fail { at, kind } => Parsed::Fail { at, kind },
        Parsed::Found { val: date, end: p1 } => match spec_space1(s, p1) {
            Parsed::Fail { at, kind } => Parsed::Fail { at, kind },
            Parsed::Found { val: _, end: p2 } => if !tag_matches(s, p2, "at"@) {
                Parsed::Fail { at: p2, kind: ErrorKind::Tag }
            } else {
                match spec_space1(s, p2 + "at"@.len()) {
                    Parsed::Fail { at, kind } => Parsed::Fail { at, kind },
                    Parsed::Found { val: _, end: p3 } => match WhenTime::spec_parse(s, p3) {
                        Parsed::Fail { at, kind } => Parsed::Fail { at, kind },
                        Parsed::Found { val: time, end: p4 } => Parsed::Found {
                            val: WhenInputTime::DateAndTime { date, time },
                            end: p4,
                        },
                    },
                }
            },
        },
    }
}

fn date_and_time(s: &str, pos: usize) -> (r: Result<(WhenInputTime, usize), ParseError>)
    requires
        pos <= s@.len(),
    ensures
        agrees(r, spec_date_and_time(s@, pos as int)),
        r matches Ok((v, end)) ==> pos <= end <= s@.len(),
{
    let (date, p1) = WhenDate::parse_at(s, pos)?;
    let (_, p2) = space1(s, p1)?;
    let p2b = match tag_at(s, p2, "at") {
        Some(p) => p,
        None => return Err(ParseError { at: p2, kind: ErrorKind::Tag }),
    };
    let (_, p3) = space1(s, p2b)?;
    let (time, p4) = WhenTime::parse_at(s, p3)?;
    Ok((WhenInputTime::DateAndTime { date, time }, p4))
}

impl WhenInputTime {
    /// The grammar of the date/time part: the literal "now", then a date
    /// with a time, then a date alone, then a time alone, first match wins.
    pub open spec fn spec_parse(s: Seq<char>, pos: int) -> Parsed<WhenInputTime> {
        or_else(
            if tag_matches(s, pos, "now"@) {
                Parsed::Found { val: WhenInputTime::Now, end: pos + "now"@.len() }
            } else {
                Parsed::Fail { at: pos, kind: ErrorKind::Tag }
            },
        or_else(spec_date_and_time(s, pos),
        or_else(
            match WhenDate::spec_parse(s, pos) {
                Parsed::Found { val, end } => Parsed::Found {
                    val: WhenInputTime::OnlyDate(val),
                    end,
                },
                Parsed::Fail { at, kind } => Parsed::Fail { at, kind },
            },
            match WhenTime::spec_parse(s, pos) {
                Parsed::Found { val, end } => Parsed::Found {
                    val: WhenInputTime::OnlyTime(val),
                    end,
                },
                Parsed::Fail { at, kind } => Parsed::Fail { at, kind },
            },
        )))
    }

    /// Reads the date/time part at `pos`.
    pub fn parse_at(s: &str, pos: usize) -> (r: Result<(WhenInputTime, usize), ParseError>)
        requires
            pos <= s@.len(),
        ensures
            agrees(r, Self::spec_parse(s@, pos as int)),
            r matches Ok((v, end)) ==> pos <= end <= s@.len(),
    {
        let e1 = match tag_at(s, pos, "now") {
            Some(end) => return Ok((WhenInputTime::Now, end)),
            None => ParseError { at: pos, kind: ErrorKind::Tag },
        };
        let e2 = match date_and_time(s, pos) {
            Ok(x) => return Ok(x),
            Err(e) => e,
        };
        let e3 = match WhenDate::parse_at(s, pos) {
            Ok((d, end)) => return Ok((WhenInputTime::OnlyDate(d), end)),
            Err(e) => e,
        };
        let e4 = match WhenTime::parse_at(s, pos) {
            Ok((t, end)) => return Ok((WhenInputTime::OnlyTime(t), end)),
            Err(e) => e,
        };
        Err(merge_fail(e1, merge_fail(e2, merge_fail(e3, e4))))
    }

    /// What the date/time part resolves to from the reference civil
    /// value: "now" is the reference itself; a lone date reads its own
    /// clock (midnight for absolute dates, the reference clock for
    /// relative ones); a lone time overlays the reference day; a date
    /// with a time resolves the date first and overlays the time on it.
    pub open spec fn spec_resolve(self, now: CivilDateTime) -> Result<Moment, ResolveError> {
        match self {
            WhenInputTime::Now => Ok(now.moment()),
            WhenInputTime::OnlyDate(d) => d.spec_resolve(now),
            WhenInputTime::OnlyTime(t) => t.spec_resolve(now),
            WhenInputTime::DateAndTime { date, time } => match date.spec_resolve(now) {
                Ok(m) => time.spec_with(m, now),
                Err(e) => Err(e),
            },
        }
    }

    /// Resolves the date/time part against the reference civil value.
    pub fn to_timestamp(&self, now: &CivilDateTime) -> (r: Result<CivilDateTime, ResolveError>)
        requires
            now.wf(),
        ensures
            resolves_to(r, self.spec_resolve(*now)),
    {
        match self {
            WhenInputTime::Now => Ok(*now),
            WhenInputTime::OnlyDate(d) => d.to_timestamp(now),
            WhenInputTime::OnlyTime(t) => t.to_timestamp(now),
            WhenInputTime::DateAndTime { date, time } => {
                let zoned = match date.to_timestamp(now) {
                    Ok(z) => z,
                    Err(e) => return Err(e),
                };
                time.with_zoned(&zoned, now)
            },
        }
    }

    /// Reads the date/time part at the start of `input` and gives back the
    /// remaining input beside it.
    pub fn parse(input: &str) -> (r: Result<(&str, WhenInputTime), ParseError>)
        ensures
            match r {
                Ok((rest, v)) => (Self::spec_parse(input@, 0) matches Parsed::Found {
                    val, end } && val == v && rest@ == input@.skip(end)),
                Err(e) => Self::spec_parse(input@, 0) == (Parsed::Fail::<WhenInputTime> {
                    at: e.at as int, kind: e.kind }),
            },
    {
        let (v, end) = Self::parse_at(input, 0)?;
        Ok((crate::scan::rest_of(input, end), v))
    }
}

/// The resolved result: a calendar date and wall-clock time together with
/// the fixed UTC offset they are expressed at, and the instant they denote
/// as seconds since the Unix epoch.
#[derive(Clone, Copy, Debug, PartialEq, Eq, Structural)]
pub struct AbsoluteTimestamp {
    pub datetime: CivilDateTime,
    pub offset_seconds: i32,
    pub epoch_second: i64,
}

/// What the date/time part resolves to at a fixed UTC offset: the
/// reference instant is re-expressed as a civil value at that offset and
/// the part resolves against it; a reference instant outside the
/// supported span is an out-of-range failure.
pub open spec fn spec_resolve_at_offset(t: WhenInputTime, now_epoch: int, off: int) -> Result<
    Moment,
    ResolveError,
> {
    if in_epoch_range(now_epoch + off) {
        t.spec_resolve(civil_of(moment_of_epoch(now_epoch + off)))
    } else {
        Err(ResolveError::OutOfRange)
    }
}

/// Relates a fixed-offset resolution's executable outcome to its ghost
/// description: on success the timestamp carries the resolved moment, the
/// offset itself, and the instant the pair denotes; on failure the same
/// error.
pub open spec fn fixed_outcome(
    r: Result<AbsoluteTimestamp, ResolveError>,
    t: WhenInputTime,
    now_epoch: int,
    off: int,
) -> bool {
    match r {
        Ok(a) => a.datetime.wf() && spec_resolve_at_offset(t, now_epoch, off) == Ok::<
            Moment,
            ResolveError,
        >(a.datetime.moment()) && a.offset_seconds == off && a.epoch_second == epoch_of_moment(
            a.datetime.moment(),
        ) - off,
        Err(e) => spec_resolve_at_offset(t, now_epoch, off) == Err::<Moment, ResolveError>(e),
    }
}

/// Resolves the date/time part at a fixed UTC offset.
fn resolve_at_fixed_offset(t: &WhenInputTime, now_epoch: i64, off: i32) -> (r: Result<
    AbsoluteTimestamp,
    ResolveError,
>)
    requires
        -93599 <= off <= 93599,
    ensures
        fixed_outcome(r, *t, now_epoch as int, off as int),
{
    if now_epoch < -4_000_000_000_000_000 || now_epoch > 4_000_000_000_000_000 {
        return Err(ResolveError::OutOfRange);
    }
    let e = now_epoch + off as i64;
    let civil_now = match civil_from_epoch(e) {
        Ok(c) => c,
        Err(err) => return Err(err),
    };
    let res = match t.to_timestamp(&civil_now) {
        Ok(c) => c,
        Err(err) => return Err(err),
    };
    let ep = epoch_from_civil(&res) - off as i64;
    Ok(AbsoluteTimestamp { datetime: res, offset_seconds: off, epoch_second: ep })
}

/// The date/time part with no timezone clause, ending with the input.
pub open spec fn spec_root_plain(s: Seq<char>) -> Parsed<WhenInputView> {
    match WhenInputTime::spec_parse(s, 0) {
        Parsed::Fail { at, kind } => Parsed::Fail { at, kind },
        Parsed::Found { val: t, end: p } => if p == s.len() {
            Parsed::Found { val: WhenInputView { time: t, timezone: None }, end: p }
        } else {
            Parsed::Fail { at: p, kind: ErrorKind::Trailing }
        },
    }
}

/// The date/time part, "in", a timezone clause, then the end of the input.
pub open spec fn spec_root_zoned(s: Seq<char>) -> Parsed<WhenInputView> {
    match WhenInputTime::spec_parse(s, 0) {
        Parsed::Fail { at, kind } => Parsed::Fail { at, kind },
        Parsed::Found { val: t, end: p1 } => match spec_space1(s, p1) {
            Parsed::Fail { at, kind } => Parsed::Fail { at, kind },
            Parsed::Found { val: _, end: p2 } => if !tag_matches(s, p2, "in"@) {
                Parsed::Fail { at: p2, kind: ErrorKind::Tag }
            } else {
                match spec_space1(s, p2 + "in"@.len()) {
                    Parsed::Fail { at, kind } => Parsed::Fail { at, kind },
                    Parsed::Found { val: _, end: p3 } => match WhenTimezone::spec_parse(s, p3) {
                        Parsed::Fail { at, kind } => Parsed::Fail { at, kind },
                        Parsed::Found { val: tz, end: p4 } => if p4 == s.len() {
                            Parsed::Found {
                                val: WhenInputView { time: t, timezone: Some(tz) },
                                end: p4,
                            }
                        } else {
                            Parsed::Fail { at: p4, kind: ErrorKind::Trailing }
                        },
                    },
                }
            },
        },
    }
}

fn root_zoned(s: &str) -> (r: Result<(WhenInput, usize), ParseError>)
    ensures
        match r {
            Ok((v, end)) => spec_root_zoned(s@) == (Parsed::Found { val: v@, end: end as int })
                && end <= s@.len(),
            Err(e) => spec_root_zoned(s@) == (Parsed::Fail::<WhenInputView> {
                at: e.at as int, kind: e.kind }),
        },
{
    let (t, p1) = WhenInputTime::parse_at(s, 0)?;
    let (_, p2) = space1(s, p1)?;
    let p2b = match tag_at(s, p2, "in") {
        Some(p) => p,
        None => return Err(ParseError { at: p2, kind: ErrorKind::Tag }),
    };
    let (_, p3) = space1(s, p2b)?;
    let (tz, p4) = WhenTimezone::parse_at(s, p3)?;
    if p4 == s.unicode_len() {
        Ok((WhenInput { time: t, timezone: Some(tz) }, p4))
    } else {
        Err(ParseError { at: p4, kind: ErrorKind::Trailing })
    }
}

impl WhenInput {
    /// The grammar of a whole phrase: the date/time part alone, or followed
    /// by "in" and a timezone clause; either way the phrase must consume
    /// the entire input, and a matched prefix with text after it is a
    /// trailing-input failure.
    pub open spec fn spec_parse(s: Seq<char>) -> Parsed<WhenInputView> {
        or_else(spec_root_plain(s), spec_root_zoned(s))
    }

    /// Parses a whole phrase. On success the remaining input is empty.
    pub fn parse(input: &str) -> (r: Result<(&str, WhenInput), ParseError>)
        ensures
            match r {
                Ok((rest, v)) => (Self::spec_parse(input@) matches Parsed::Found { val, end }
                    && val == v@ && end == input@.len() && rest@ == input@.skip(end)),
                Err(e) => Self::spec_parse(input@) == (Parsed::Fail::<WhenInputView> {
                    at: e.at as int, kind: e.kind }),
            },
    {
        let e1 = match Self::parse_plain(input) {
            Ok(x) => return Ok(x),
            Err(e) => e,
        };
        let e2 = match root_zoned(input) {
            Ok((v, end)) => return Ok((crate::scan::rest_of(input, end), v)),
            Err(e) => e,
        };
        Err(merge_fail(e1, e2))
    }

    /// The first alternative of [`WhenInput::parse`]: no timezone clause.
    fn parse_plain(input: &str) -> (r: Result<(&str, WhenInput), ParseError>)
        ensures
            match r {
                Ok((rest, v)) => (spec_root_plain(input@) matches Parsed::Found { val, end }
                    && val == v@ && end == input@.len() && rest@ == input@.skip(end)),
                Err(e) => spec_root_plain(input@) == (Parsed::Fail::<WhenInputView> {
                    at: e.at as int, kind: e.kind }),
            },
    {
        let (t, p) = WhenInputTime::parse_at(input, 0)?;
        if p == input.unicode_len() {
            Ok((crate::scan::rest_of(input, p), WhenInput { time: t, timezone: None }))
        } else {
            Err(ParseError { at: p, kind: ErrorKind::Trailing })
        }
    }

    /// Resolves the phrase against a reference instant. Without a
    /// timezone clause the phrase resolves at UTC; a fixed-offset clause
    /// resolves at that offset; a named zone is resolved through the
    /// timezone database, whose offsets then govern both the reference
    /// instant's civil reading and the result's instant.
    #[verifier::rlimit(100)]
    pub fn to_timestamp(&self, now_epoch_second: i64) -> (r: Result<AbsoluteTimestamp, ResolveError>)
        ensures
            match self@.timezone {
                None => fixed_outcome(r, self.time, now_epoch_second as int, 0),
                Some(WhenTimezoneView::UtcOffset(o)) => fixed_outcome(
                    r,
                    self.time,
                    now_epoch_second as int,
                    o.spec_to_seconds(),
                ) || (!o.valid() && r == Err::<AbsoluteTimestamp, ResolveError>(
                    ResolveError::OutOfRange,
                )),
                Some(WhenTimezoneView::Named(_)) => r matches Ok(a) ==> a.datetime.wf()
                    && -93599 <= a.offset_seconds <= 93599 && (exists|off: int|
                    -93599 <= off <= 93599 && spec_resolve_at_offset(
                        self.time,
                        now_epoch_second as int,
                        off,
                    ) == Ok::<Moment, ResolveError>(a.datetime.moment())),
            },
    {
        match &self.timezone {
            None => resolve_at_fixed_offset(&self.time, now_epoch_second, 0),
            Some(WhenTimezone::UtcOffset(o)) => {
                let s = o.to_seconds();
                if s < -93599 || s > 93599 {
                    return Err(ResolveError::OutOfRange);
                }
                resolve_at_fixed_offset(&self.time, now_epoch_second, s)
            },
            Some(WhenTimezone::Named(n)) => {
                let tz = match n.to_timezone() {
                    Ok(tz) => tz,
                    Err(e) => return Err(e),
                };
                let off_now = match zone_offset_at(&tz, now_epoch_second) {
                    Some(o) => o,
                    None => return Err(ResolveError::OutOfRange),
                };
                if now_epoch_second < -4_000_000_000_000_000
                    || now_epoch_second > 4_000_000_000_000_000 {
                    return Err(ResolveError::OutOfRange);
                }
                let civil_now = match civil_from_epoch(now_epoch_second + off_now as i64) {
                    Ok(c) => c,
                    Err(err) => return Err(err),
                };
                let res = match self.time.to_timestamp(&civil_now) {
                    Ok(c) => c,
                    Err(err) => return Err(err),
                };
                let inst = zone_instant_of_civil(
                    &tz,
                    res.year as i16,
                    res.month as i8,
                    res.day as i8,
                    res.hour as i8,
                    res.minute as i8,
                    res.second as i8,
                );
                proof {
                    assert(spec_resolve_at_offset(
                        self.time,
                        now_epoch_second as int,
                        off_now as int,
                    ) == Ok::<Moment, ResolveError>(res.moment()));
                }
                match inst {
                    Some((ep, off_res)) => Ok(
                        AbsoluteTimestamp {
                            datetime: res,
                            offset_seconds: off_res,
                            epoch_second: ep,
                        },
                    ),
                    None => Err(ResolveError::OutOfRange),
                }
            },
        }
    }
}

} // verus!
