//! Relative dates: yesterday and tomorrow, "last/next/this" before a
//! weekday or a period name, and "<duration> ago" / "in <duration>".

use vstd::prelude::*;

use vstd::arithmetic::div_mod::{lemma_fundamental_div_mod, lemma_fundamental_div_mod_converse,
    lemma_mod_division_less_than_divisor};

use crate::civil::{
    add_days_civil, add_months_civil, checked_day, checked_months, day_number, resolves_to,
    weekday_number, weekday_of_civil, CivilDateTime, Moment, ResolveError,
};
use crate::date_duration::DateDuration;
use crate::date_kind::DateKind;
use crate::scan::{
    agrees, merge_fail, or_else, space1, spec_space1, tag_at, tag_matches, ErrorKind, Parsed,
    ParseError,
};
use crate::weekday::Weekday;

verus! {

#[derive(Clone, Copy, Debug, PartialEq, Eq, Structural)]
pub enum WhenRelativeDate {
    Yesterday,
    Tomorrow,
    LastDay(Weekday),
    NextDay(Weekday),
    ThisDay(Weekday),
    LastKind(DateKind),
    NextKind(DateKind),
    ThisKind(DateKind),
    Ago(DateDuration),
    In(DateDuration),
}

/// A keyword followed by at least one blank, as the prefix of a qualified
/// phrase; the blanks are consumed.
pub open spec fn spec_keyword_gap(s: Seq<char>, pos: int, kw: Seq<char>) -> Parsed<()> {
    if tag_matches(s, pos, kw) {
        spec_space1(s, pos + kw.len())
    } else {
        Parsed::Fail { at: pos, kind: ErrorKind::Tag }
    }
}

/// Consumes a keyword and the blanks after it.
pub(crate) fn keyword_gap(s: &str, pos: usize, kw: &str) -> (r: Result<((), usize), ParseError>)
    requires
        pos <= s@.len(),
    ensures
        agrees(r, spec_keyword_gap(s@, pos as int, kw@)),
        r matches Ok((v, end)) ==> pos <= end <= s@.len(),
{
    if let Some(p) = tag_at(s, pos, kw) {
        space1(s, p)
    } else {
        Err(ParseError { at: pos, kind: ErrorKind::Tag })
    }
}

/// "last/next/this <weekday>" with the given qualifier keyword.
pub open spec fn spec_qualified_weekday(s: Seq<char>, pos: int, kw: Seq<char>) -> Parsed<Weekday> {
    match spec_keyword_gap(s, pos, kw) {
        Parsed::Fail { at, kind } => Parsed::Fail { at, kind },
        Parsed::Found { val: _, end: p } => Weekday::spec_parse(s, p),
    }
}

fn qualified_weekday(s: &str, pos: usize, kw: &str) -> (r: Result<(Weekday, usize), ParseError>)
    requires
        pos <= s@.len(),
    ensures
        agrees(r, spec_qualified_weekday(s@, pos as int, kw@)),
        r matches Ok((v, end)) ==> pos <= end <= s@.len(),
{
    let (_, p) = keyword_gap(s, pos, kw)?;
    Weekday::parse_at(s, p)
}

/// "last/next/this <week|month|year>" with the given qualifier keyword.
pub open spec fn spec_qualified_kind(s: Seq<char>, pos: int, kw: Seq<char>) -> Parsed<DateKind> {
    match spec_keyword_gap(s, pos, kw) {
        Parsed::Fail { at, kind } => Parsed::Fail { at, kind },
        Parsed::Found { val: _, end: p } => DateKind::spec_parse(s, p),
    }
}

fn qualified_kind(s: &str, pos: usize, kw: &str) -> (r: Result<(DateKind, usize), ParseError>)
    requires
        pos <= s@.len(),
    ensures
        agrees(r, spec_qualified_kind(s@, pos as int, kw@)),
        r matches Ok((v, end)) ==> pos <= end <= s@.len(),
{
    let (_, p) = keyword_gap(s, pos, kw)?;
    DateKind::parse_at(s, p)
}

/// "<duration> ago".
pub open spec fn spec_duration_ago(s: Seq<char>, pos: int) -> Parsed<DateDuration> {
    match DateDuration::spec_parse(s, pos) {
        Parsed::Fail { at, kind } => Parsed::Fail { at, kind },
        Parsed::Found { val: d, end: p1 } => match spec_space1(s, p1) {
            Parsed::Fail { at, kind } => Parsed::Fail { at, kind },
            Parsed::Found { val: _, end: p2 } => if tag_matches(s, p2, "ago"@) {
                Parsed::Found { val: d, end: p2 + "ago"@.len() }
            } else {
                Parsed::Fail { at: p2, kind: ErrorKind::Tag }
            },
        },
    }
}

fn duration_ago(s: &str, pos: usize) -> (r: Result<(DateDuration, usize), ParseError>)
    requires
        pos <= s@.len(),
    ensures
        agrees(r, spec_duration_ago(s@, pos as int)),
        r matches Ok((v, end)) ==> pos <= end <= s@.len(),
{
    let (d, p1) = DateDuration::parse_at(s, pos)?;
    let (_, p2) = space1(s, p1)?;
    if let Some(end) = tag_at(s, p2, "ago") {
        Ok((d, end))
    } else {
        Err(ParseError { at: p2, kind: ErrorKind::Tag })
    }
}

/// "in <duration>".
pub open spec fn spec_in_duration(s: Seq<char>, pos: int) -> Parsed<DateDuration> {
    match spec_keyword_gap(s, pos, "in"@) {
        Parsed::Fail { at, kind } => Parsed::Fail { at, kind },
        Parsed::Found { val: _, end: p } => DateDuration::spec_parse(s, p),
    }
}

fn in_duration(s: &str, pos: usize) -> (r: Result<(DateDuration, usize), ParseError>)
    requires
        pos <= s@.len(),
    ensures
        agrees(r, spec_in_duration(s@, pos as int)),
        r matches Ok((v, end)) ==> pos <= end <= s@.len(),
{
    let (_, p) = keyword_gap(s, pos, "in")?;
    DateDuration::parse_at(s, p)
}

/// Wraps an alternative's value in its [`WhenRelativeDate`] constructor.
pub open spec fn as_relative_date<T>(p: Parsed<T>, f: spec_fn(T) -> WhenRelativeDate) -> Parsed<WhenRelativeDate> {
    match p {
        Parsed::Found { val, end } => Parsed::Found { val: f(val), end },
        Parsed::Fail { at, kind } => Parsed::Fail { at, kind },
    }
}

impl WhenRelativeDate {
    /// The grammar of a relative date. The weekday-qualified phrases stand
    /// before the period-qualified ones so that "last monday" is not
    /// swallowed by the period vocabulary, and first match wins.
    pub open spec fn spec_parse(s: Seq<char>, pos: int) -> Parsed<WhenRelativeDate> {
        or_else(
            if tag_matches(s, pos, "yesterday"@) {
                Parsed::Found { val: WhenRelativeDate::Yesterday, end: pos + "yesterday"@.len() }
            } else {
                Parsed::Fail { at: pos, kind: ErrorKind::Tag }
            },
        or_else(
            if tag_matches(s, pos, "tomorrow"@) {
                Parsed::Found { val: WhenRelativeDate::Tomorrow, end: pos + "tomorrow"@.len() }
            } else {
                Parsed::Fail { at: pos, kind: ErrorKind::Tag }
            },
        or_else(as_relative_date(spec_qualified_weekday(s, pos, "last"@), |w| WhenRelativeDate::LastDay(w)),
        or_else(as_relative_date(spec_qualified_weekday(s, pos, "next"@), |w| WhenRelativeDate::NextDay(w)),
        or_else(as_relative_date(spec_qualified_weekday(s, pos, "this"@), |w| WhenRelativeDate::ThisDay(w)),
        or_else(as_relative_date(spec_qualified_kind(s, pos, "last"@), |k| WhenRelativeDate::LastKind(k)),
        or_else(as_relative_date(spec_qualified_kind(s, pos, "next"@), |k| WhenRelativeDate::NextKind(k)),
        or_else(as_relative_date(spec_qualified_kind(s, pos, "this"@), |k| WhenRelativeDate::ThisKind(k)),
        or_else(as_relative_date(spec_duration_ago(s, pos), |d| WhenRelativeDate::Ago(d)),
        as_relative_date(spec_in_duration(s, pos), |d| WhenRelativeDate::In(d)))))))))))
    }

    /// Reads a relative date at `pos`.
    pub fn parse_at(s: &str, pos: usize) -> (r: Result<(WhenRelativeDate, usize), ParseError>)
        requires
            pos <= s@.len(),
        ensures
            agrees(r, Self::spec_parse(s@, pos as int)),
            r matches Ok((v, end)) ==> pos <= end <= s@.len(),
    {
        let e1 = match tag_at(s, pos, "yesterday") {
            Some(end) => return Ok((WhenRelativeDate::Yesterday, end)),
            None => ParseError { at: pos, kind: ErrorKind::Tag },
        };
        let e2 = match tag_at(s, pos, "tomorrow") {
            Some(end) => return Ok((WhenRelativeDate::Tomorrow, end)),
            None => ParseError { at: pos, kind: ErrorKind::Tag },
        };
        let e3 = match qualified_weekday(s, pos, "last") {
            Ok((w, end)) => return Ok((WhenRelativeDate::LastDay(w), end)),
            Err(e) => e,
        };
        let e4 = match qualified_weekday(s, pos, "next") {
            Ok((w, end)) => return Ok((WhenRelativeDate::NextDay(w), end)),
            Err(e) => e,
        };
        let e5 = match qualified_weekday(s, pos, "this") {
            Ok((w, end)) => return Ok((WhenRelativeDate::ThisDay(w), end)),
            Err(e) => e,
        };
        let e6 = match qualified_kind(s, pos, "last") {
            Ok((k, end)) => return Ok((WhenRelativeDate::LastKind(k), end)),
            Err(e) => e,
        };
        let e7 = match qualified_kind(s, pos, "next") {
            Ok((k, end)) => return Ok((WhenRelativeDate::NextKind(k), end)),
            Err(e) => e,
        };
        let e8 = match qualified_kind(s, pos, "this") {
            Ok((k, end)) => return Ok((WhenRelativeDate::ThisKind(k), end)),
            Err(e) => e,
        };
        let e9 = match duration_ago(s, pos) {
            Ok((d, end)) => return Ok((WhenRelativeDate::Ago(d), end)),
            Err(e) => e,
        };
        let e10 = match in_duration(s, pos) {
            Ok((d, end)) => return Ok((WhenRelativeDate::In(d), end)),
            Err(e) => e,
        };
        Err(merge_fail(e1, merge_fail(e2, merge_fail(e3, merge_fail(e4, merge_fail(e5,
            merge_fail(e6, merge_fail(e7, merge_fail(e8, merge_fail(e9, e10))))))))))
    }

    /// The signed day count from a day whose weekday is `today` back to
    /// the latest strictly earlier day whose weekday is `target`: between
    /// -7 and -1.
    pub open spec fn spec_last_day_diff(today: int, target: int) -> int {
        if today > target {
            -(today - target)
        } else {
            -(7 - (target - today))
        }
    }

    /// The signed day count from a day whose weekday is `today` forward
    /// to the earliest strictly later day whose weekday is `target`:
    /// between 1 and 7.
    pub open spec fn spec_next_day_diff(today: int, target: int) -> int {
        if target > today {
            target - today
        } else {
            7 - (today - target)
        }
    }

    /// What the relative date resolves to, from the reference civil value
    /// `now`: a day offset, a calendar-aware month or year step, or a
    /// snap to the start of the running week, month or year. The clock of
    /// `now` is kept throughout.
    pub open spec fn spec_resolve(self, now: CivilDateTime) -> Result<Moment, ResolveError> {
        let dn = now.spec_dn();
        let sod = now.spec_sod();
        let wd = weekday_number(dn);
        match self {
            WhenRelativeDate::Yesterday => checked_day(dn - 1, sod),
            WhenRelativeDate::Tomorrow => checked_day(dn + 1, sod),
            WhenRelativeDate::LastDay(w) => checked_day(
                dn + Self::spec_last_day_diff(wd, w.spec_number_from_monday()),
                sod,
            ),
            WhenRelativeDate::NextDay(w) => checked_day(
                dn + Self::spec_next_day_diff(wd, w.spec_number_from_monday()),
                sod,
            ),
            WhenRelativeDate::ThisDay(w) => checked_day(
                dn + (w.spec_number_from_monday() - wd),
                sod,
            ),
            WhenRelativeDate::LastKind(DateKind::Week) => checked_day(dn - 7, sod),
            WhenRelativeDate::LastKind(DateKind::Month) => checked_months(now, -1),
            WhenRelativeDate::LastKind(DateKind::Year) => checked_months(now, -12),
            WhenRelativeDate::NextKind(DateKind::Week) => checked_day(dn + 7, sod),
            WhenRelativeDate::NextKind(DateKind::Month) => checked_months(now, 1),
            WhenRelativeDate::NextKind(DateKind::Year) => checked_months(now, 12),
            WhenRelativeDate::ThisKind(DateKind::Week) => checked_day(dn - (wd - 1), sod),
            WhenRelativeDate::ThisKind(DateKind::Month) => Ok(
                Moment { dn: day_number(now.year as int, now.month as int, 1), sod },
            ),
            WhenRelativeDate::ThisKind(DateKind::Year) => Ok(
                Moment { dn: day_number(now.year as int, 1, 1), sod },
            ),
            WhenRelativeDate::Ago(DateDuration::Days(n)) => checked_day(dn - n, sod),
            WhenRelativeDate::Ago(DateDuration::Weeks(n)) => checked_day(dn - 7 * n, sod),
            WhenRelativeDate::Ago(DateDuration::Months(n)) => checked_months(now, -(n as int)),
            WhenRelativeDate::Ago(DateDuration::Years(n)) => checked_months(now, -12 * n),
            WhenRelativeDate::In(DateDuration::Days(n)) => checked_day(dn + n, sod),
            WhenRelativeDate::In(DateDuration::Weeks(n)) => checked_day(dn + 7 * n, sod),
            WhenRelativeDate::In(DateDuration::Months(n)) => checked_months(now, n as int),
            WhenRelativeDate::In(DateDuration::Years(n)) => checked_months(now, 12 * n),
        }
    }

    /// Resolves the relative date against the reference civil value,
    /// keeping its clock.
    pub fn to_timestamp(&self, now: &CivilDateTime) -> (r: Result<CivilDateTime, ResolveError>)
        requires
            now.wf(),
        ensures
            resolves_to(r, self.spec_resolve(*now)),
    {
        match self {
            WhenRelativeDate::Yesterday => add_days_civil(now, -1),
            WhenRelativeDate::Tomorrow => add_days_civil(now, 1),
            WhenRelativeDate::LastDay(w) => {
                let today = weekday_of_civil(now) as i64;
                let target = w.number_from_monday() as i64;
                let diff = if today > target {
                    -(today - target)
                } else {
                    -(7 - (target - today))
                };
                add_days_civil(now, diff)
            },
            WhenRelativeDate::NextDay(w) => {
                let today = weekday_of_civil(now) as i64;
                let target = w.number_from_monday() as i64;
                let diff = if target > today {
                    target - today
                } else {
                    7 - (today - target)
                };
                add_days_civil(now, diff)
            },
            WhenRelativeDate::ThisDay(w) => {
                let today = weekday_of_civil(now) as i64;
                let target = w.number_from_monday() as i64;
                add_days_civil(now, target - today)
            },
            WhenRelativeDate::LastKind(DateKind::Week) => add_days_civil(now, -7),
            WhenRelativeDate::LastKind(DateKind::Month) => add_months_civil(now, -1),
            WhenRelativeDate::LastKind(DateKind::Year) => add_months_civil(now, -12),
            WhenRelativeDate::NextKind(DateKind::Week) => add_days_civil(now, 7),
            WhenRelativeDate::NextKind(DateKind::Month) => add_months_civil(now, 1),
            WhenRelativeDate::NextKind(DateKind::Year) => add_months_civil(now, 12),
            WhenRelativeDate::ThisKind(DateKind::Week) => {
                let today = weekday_of_civil(now) as i64;
                add_days_civil(now, -(today - 1))
            },
            WhenRelativeDate::ThisKind(DateKind::Month) => Ok(
                CivilDateTime { day: 1, ..*now },
            ),
            WhenRelativeDate::ThisKind(DateKind::Year) => Ok(
                CivilDateTime { month: 1, day: 1, ..*now },
            ),
            WhenRelativeDate::Ago(d) => match d {
                DateDuration::Days(n) => add_days_civil(now, -(*n as i64)),
                DateDuration::Weeks(n) => add_days_civil(now, -7 * (*n as i64)),
                DateDuration::Months(n) => add_months_civil(now, -(*n as i64)),
                DateDuration::Years(n) => add_months_civil(now, -12 * (*n as i64)),
            },
            WhenRelativeDate::In(d) => match d {
                DateDuration::Days(n) => add_days_civil(now, *n as i64),
                DateDuration::Weeks(n) => add_days_civil(now, 7 * (*n as i64)),
                DateDuration::Months(n) => add_months_civil(now, *n as i64),
                DateDuration::Years(n) => add_months_civil(now, 12 * (*n as i64)),
            },
        }
    }

    /// Stepping a weekday ordinal by a day count congruent to its
    /// distance lands on the target weekday.
    proof fn lemma_weekday_step(dn: int, diff: int, target: int)
        requires
            1 <= target <= 7,
            (diff - (target - weekday_number(dn))) % 7 == 0,
            -7 <= diff <= 7,
        ensures
            weekday_number(dn + diff) == target,
    {
        let a = dn - 1;
        lemma_fundamental_div_mod(a, 7);
        lemma_mod_division_less_than_divisor(a, 7);
        let q = a / 7;
        let r = a % 7;
        let k = (diff - (target - (r + 1))) / 7;
        lemma_fundamental_div_mod(diff - (target - (r + 1)), 7);
        assert(a + diff == (q + k) * 7 + (target - 1)) by (nonlinear_arith)
            requires
                a == 7 * q + r,
                diff - (target - (r + 1)) == 7 * k,
        {
        }
        lemma_fundamental_div_mod_converse(a + diff, 7, q + k, target - 1);
    }

    /// Weekday arithmetic closure: from any reference day, "next" of a
    /// weekday lands strictly after it and at most seven days after,
    /// "last" strictly before and at most seven days before, and "this"
    /// within the Monday-to-Sunday week of the reference day — and in
    /// each case on a day of the asked weekday.
    #[verifier::rlimit(100)]
    pub proof fn lemma_weekday_closure(w: Weekday, now: CivilDateTime)
        requires
            now.wf(),
        ensures
            WhenRelativeDate::NextDay(w).spec_resolve(now) matches Ok(m) ==> {
                &&& now.spec_dn() < m.dn <= now.spec_dn() + 7
                &&& weekday_number(m.dn) == w.spec_number_from_monday()
            },
            WhenRelativeDate::LastDay(w).spec_resolve(now) matches Ok(m) ==> {
                &&& now.spec_dn() - 7 <= m.dn < now.spec_dn()
                &&& weekday_number(m.dn) == w.spec_number_from_monday()
            },
            WhenRelativeDate::ThisDay(w).spec_resolve(now) matches Ok(m) ==> {
                &&& now.spec_dn() - (weekday_number(now.spec_dn()) - 1) <= m.dn
                    <= now.spec_dn() + (7 - weekday_number(now.spec_dn()))
                &&& weekday_number(m.dn) == w.spec_number_from_monday()
            },
    {
        let dn = now.spec_dn();
        let today = weekday_number(dn);
        let target = w.spec_number_from_monday();
        lemma_mod_division_less_than_divisor(dn - 1, 7);
        let next = Self::spec_next_day_diff(today, target);
        let last = Self::spec_last_day_diff(today, target);
        Self::lemma_weekday_step(dn, next, target);
        Self::lemma_weekday_step(dn, last, target);
        Self::lemma_weekday_step(dn, target - today, target);
    }

    /// Reads a relative date at the start of `input` and gives back the
    /// remaining input beside it.
    pub fn parse(input: &str) -> (r: Result<(&str, WhenRelativeDate), ParseError>)
        ensures
            match r {
                Ok((rest, v)) => (Self::spec_parse(input@, 0) matches Parsed::Found {
                    val, end } && val == v && rest@ == input@.skip(end)),
                Err(e) => Self::spec_parse(input@, 0) == (Parsed::Fail::<WhenRelativeDate> {
                    at: e.at as int, kind: e.kind }),
            },
    {
        let (v, end) = Self::parse_at(input, 0)?;
        Ok((crate::scan::rest_of(input, end), v))
    }
}

} // verus!
