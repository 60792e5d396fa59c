//! The proleptic Gregorian calendar as verified arithmetic: day numbers,
//! weekdays, month and year lengths, and conversions between calendar
//! fields, day counts and epoch seconds. The resolution engine's contracts
//! are stated over this model.

use vstd::prelude::*;

use vstd::arithmetic::div_mod::{
    lemma_fundamental_div_mod, lemma_fundamental_div_mod_converse, lemma_mod_division_less_than_divisor,
    lemma_mod_multiples_basic, lemma_mod_multiples_vanish, lemma_small_mod,
};
use vstd::arithmetic::mul::lemma_mul_is_commutative;

verus! {

/// Why a parsed phrase could not be materialised into a timestamp.
#[derive(Clone, Copy, Debug, PartialEq, Eq, Structural)]
pub enum ResolveError {
    /// The day does not exist in its month and year, or the year lies
    /// outside the supported calendar.
    InvalidDate,
    /// A clock field lies outside its range.
    InvalidTime,
    /// Calendar or clock arithmetic left the supported range.
    OutOfRange,
    /// The named timezone is not in the timezone database.
    UnknownTimezone,
}

/// A Gregorian leap year: divisible by 4, except centuries off the
/// 400-year cycle.
pub open spec fn is_leap_year(y: int) -> bool {
    y % 4 == 0 && (y % 100 != 0 || y % 400 == 0)
}

pub open spec fn days_in_year(y: int) -> int {
    if is_leap_year(y) {
        366
    } else {
        365
    }
}

pub open spec fn days_in_month(y: int, m: int) -> int {
    if m == 2 {
        if is_leap_year(y) {
            29
        } else {
            28
        }
    } else if m == 4 || m == 6 || m == 9 || m == 11 {
        30
    } else {
        31
    }
}

/// Days from the start of year `y` to the start of its month `m`; for `m`
/// past December this is the whole year's length.
pub open spec fn days_before_month(y: int, m: int) -> int {
    let leap: int = if is_leap_year(y) {
        1
    } else {
        0
    };
    if m <= 1 {
        0
    } else if m == 2 {
        31
    } else if m == 3 {
        59 + leap
    } else if m == 4 {
        90 + leap
    } else if m == 5 {
        120 + leap
    } else if m == 6 {
        151 + leap
    } else if m == 7 {
        181 + leap
    } else if m == 8 {
        212 + leap
    } else if m == 9 {
        243 + leap
    } else if m == 10 {
        273 + leap
    } else if m == 11 {
        304 + leap
    } else if m == 12 {
        334 + leap
    } else {
        365 + leap
    }
}

/// Days before the start of year `y`, counted back to the calendar's first
/// day, the first of January of year 1.
pub open spec fn days_before_year(y: int) -> int {
    365 * (y - 1) + (y - 1) / 4 - (y - 1) / 100 + (y - 1) / 400
}

/// The serial number of a calendar day: the first of January of year 1 is
/// day 1, and consecutive days carry consecutive numbers.
pub open spec fn day_number(y: int, m: int, d: int) -> int {
    days_before_year(y) + days_before_month(y, m) + d
}

/// The weekday of a day number, Monday as 1 through Sunday as 7; day 1 is
/// a Monday.
pub open spec fn weekday_number(dn: int) -> int {
    (dn - 1) % 7 + 1
}

/// The ordinal of a day within its year, the first of January being 1.
pub open spec fn day_of_year(y: int, m: int, d: int) -> int {
    days_before_month(y, m) + d
}

/// The triple (y, m, d) denotes a real calendar day in the supported
/// range of years.
pub open spec fn valid_date(y: int, m: int, d: int) -> bool {
    &&& -9999 <= y <= 9999
    &&& 1 <= m <= 12
    &&& 1 <= d <= days_in_month(y, m)
}

/// How `x / d` changes when the dividend shrinks by one: it steps down
/// exactly at the multiples of `d`.
proof fn lemma_div_step(x: int, d: int)
    requires
        d > 0,
    ensures
        x / d == (x - 1) / d + if x % d == 0 { 1int } else { 0int },
{
    lemma_fundamental_div_mod(x, d);
    let q = x / d;
    let r = x % d;
    if r == 0 {
        assert(x - 1 == (q - 1) * d + (d - 1)) by (nonlinear_arith)
            requires
                x == d * q + r,
                r == 0,
        {
        }
        lemma_fundamental_div_mod_converse(x - 1, d, q - 1, d - 1);
    } else {
        assert(x - 1 == q * d + (r - 1)) by (nonlinear_arith)
            requires
                x == d * q + r,
        {
        }
        lemma_fundamental_div_mod_converse(x - 1, d, q, r - 1);
    }
}

/// A year divisible by 400 is divisible by 100, and one divisible by 100
/// by 4.
proof fn lemma_leap_divisibility(y: int)
    ensures
        y % 400 == 0 ==> y % 100 == 0,
        y % 100 == 0 ==> y % 4 == 0,
{
    if y % 400 == 0 {
        lemma_fundamental_div_mod(y, 400);
        assert(y == 100 * (4 * (y / 400))) by {
            lemma_mul_is_commutative(y / 400, 400);
        }
        lemma_mod_multiples_basic(4 * (y / 400), 100);
        lemma_mul_is_commutative(4 * (y / 400), 100);
    }
    if y % 100 == 0 {
        lemma_fundamental_div_mod(y, 100);
        assert(y == 4 * (25 * (y / 100))) by {
            lemma_mul_is_commutative(y / 100, 100);
        }
        lemma_mod_multiples_basic(25 * (y / 100), 4);
        lemma_mul_is_commutative(25 * (y / 100), 4);
    }
}

/// Year boundaries are a year's length apart: the days before year `y + 1`
/// are the days before year `y` plus that year's length.
pub proof fn lemma_days_before_year_step(y: int)
    ensures
        days_before_year(y + 1) == days_before_year(y) + days_in_year(y),
{
    lemma_div_step(y, 4);
    lemma_div_step(y, 100);
    lemma_div_step(y, 400);
    lemma_leap_divisibility(y);
}

/// Days before later years are at least 365 per year more.
pub proof fn lemma_days_before_year_increasing(y1: int, y2: int)
    requires
        y1 <= y2,
    ensures
        days_before_year(y2) - days_before_year(y1) >= 365 * (y2 - y1),
    decreases y2 - y1,
{
    if y1 < y2 {
        lemma_days_before_year_increasing(y1, y2 - 1);
        lemma_days_before_year_step(y2 - 1);
    }
}

/// A valid day's number falls strictly inside its year's span of day
/// numbers.
pub proof fn lemma_day_number_in_year(y: int, m: int, d: int)
    requires
        1 <= m <= 12,
        1 <= d <= days_in_month(y, m),
    ensures
        days_before_year(y) < day_number(y, m, d) <= days_before_year(y + 1),
{
    lemma_days_before_year_step(y);
}

/// Day numbering is one-to-one on valid dates.
pub proof fn lemma_day_number_injective(y1: int, m1: int, d1: int, y2: int, m2: int, d2: int)
    requires
        valid_date(y1, m1, d1),
        valid_date(y2, m2, d2),
        day_number(y1, m1, d1) == day_number(y2, m2, d2),
    ensures
        y1 == y2 && m1 == m2 && d1 == d2,
{
    lemma_day_number_in_year(y1, m1, d1);
    lemma_day_number_in_year(y2, m2, d2);
    if y1 < y2 {
        lemma_days_before_year_increasing(y1 + 1, y2);
        assert(false);
    }
    if y2 < y1 {
        lemma_days_before_year_increasing(y2 + 1, y1);
        assert(false);
    }
}

/// A ghost point on the civil timeline: a day number and a second of the
/// day.
pub struct Moment {
    pub dn: int,
    pub sod: int,
}

/// A calendar date with a wall-clock time, not yet tied to any timezone.
/// This is what the resolution engine computes with and returns.
#[derive(Clone, Copy, Debug, PartialEq, Eq, Structural)]
pub struct CivilDateTime {
    pub year: i32,
    pub month: u8,
    pub day: u8,
    pub hour: u8,
    pub minute: u8,
    pub second: u8,
}

impl CivilDateTime {
    /// The date is a real calendar day in the supported range and the
    /// clock fields are in range.
    pub open spec fn wf(self) -> bool {
        &&& valid_date(self.year as int, self.month as int, self.day as int)
        &&& self.hour <= 23
        &&& self.minute <= 59
        &&& self.second <= 59
    }

    /// The day number of the date part.
    pub open spec fn spec_dn(self) -> int {
        day_number(self.year as int, self.month as int, self.day as int)
    }

    /// The second of the day of the clock part.
    pub open spec fn spec_sod(self) -> int {
        self.hour * 3600 + self.minute * 60 + self.second
    }

    /// The value as a point on the civil timeline.
    pub open spec fn moment(self) -> Moment {
        Moment { dn: self.spec_dn(), sod: self.spec_sod() }
    }
}

/// The span of day numbers the engine computes within.
pub open spec fn in_dn_range(dn: int) -> bool {
    day_number(-9999, 1, 1) <= dn <= day_number(9999, 12, 31)
}

/// The day number of the Unix epoch, the first of January 1970.
pub open spec fn epoch_day() -> int {
    day_number(1970, 1, 1)
}

/// Seconds since the Unix epoch of a point on the civil timeline.
pub open spec fn epoch_of_moment(mo: Moment) -> int {
    (mo.dn - epoch_day()) * 86400 + mo.sod
}

/// The point on the civil timeline of a count of seconds since the Unix
/// epoch.
pub open spec fn moment_of_epoch(e: int) -> Moment {
    Moment { dn: epoch_day() + e / 86400, sod: e % 86400 }
}

/// The epoch seconds representable within the supported calendar span.
pub open spec fn in_epoch_range(e: int) -> bool {
    epoch_of_moment(Moment { dn: day_number(-9999, 1, 1), sod: 0 }) <= e
        <= epoch_of_moment(Moment { dn: day_number(9999, 12, 31), sod: 86399 })
}

/// Euclidean division by a small positive divisor, matching the division
/// of the specification language.
fn div_euclid_i64(a: i64, d: i64) -> (q: i64)
    requires
        1 <= d <= 100_000,
        -4_000_000_000_000_000 <= a <= 4_000_000_000_000_000,
    ensures
        q == a as int / d as int,
{
    proof {
        lemma_fundamental_div_mod(a as int, d as int);
        lemma_mod_division_less_than_divisor(a as int, d as int);
    }
    if a >= 0 {
        ((a as u64) / (d as u64)) as i64
    } else {
        let ghost qq = a as int / d as int;
        let ghost rr = a as int % d as int;
        proof {
            assert(-(a as int) + d - 1 == (-qq) * d + (d - 1 - rr)) by (nonlinear_arith)
                requires
                    a as int == d * qq + rr,
            {
            }
            lemma_fundamental_div_mod_converse(-(a as int) + d - 1, d as int, -qq, d - 1 - rr);
        }
        let n = (-a) as u64;
        let q1 = ((n + (d as u64) - 1) / (d as u64)) as i64;
        -q1
    }
}

/// Whether year `y` is a leap year.
pub fn leap_year(y: i64) -> (r: bool)
    requires
        -20000 <= y <= 20000,
    ensures
        r == is_leap_year(y as int),
{
    proof {
        lemma_mod_multiples_vanish(5000, y as int, 4);
        lemma_mod_multiples_vanish(200, y as int, 100);
        lemma_mod_multiples_vanish(50, y as int, 400);
    }
    let ys = (y + 20000) as u64;
    ys % 4 == 0 && (ys % 100 != 0 || ys % 400 == 0)
}

/// The length of month `m` of year `y` in days.
pub fn month_length(y: i64, m: u8) -> (r: u8)
    requires
        -20000 <= y <= 20000,
    ensures
        r as int == days_in_month(y as int, m as int),
        28 <= r <= 31,
{
    if m == 2 {
        if leap_year(y) {
            29
        } else {
            28
        }
    } else if m == 4 || m == 6 || m == 9 || m == 11 {
        30
    } else {
        31
    }
}

/// Days from the start of year `y` to the start of its month `m`.
fn month_prefix(y: i64, m: u8) -> (r: u16)
    requires
        -20000 <= y <= 20000,
    ensures
        r as int == days_before_month(y as int, m as int),
        r <= 366,
{
    let leap: u16 = if leap_year(y) {
        1
    } else {
        0
    };
    if m <= 1 {
        0
    } else if m == 2 {
        31
    } else if m == 3 {
        59 + leap
    } else if m == 4 {
        90 + leap
    } else if m == 5 {
        120 + leap
    } else if m == 6 {
        151 + leap
    } else if m == 7 {
        181 + leap
    } else if m == 8 {
        212 + leap
    } else if m == 9 {
        243 + leap
    } else if m == 10 {
        273 + leap
    } else if m == 11 {
        304 + leap
    } else if m == 12 {
        334 + leap
    } else {
        365 + leap
    }
}

/// Days before the start of year `y`.
fn year_prefix(y: i64) -> (r: i64)
    requires
        -10000 <= y <= 10002,
    ensures
        r == days_before_year(y as int),
{
    let a = y - 1;
    365 * a + div_euclid_i64(a, 4) - div_euclid_i64(a, 100) + div_euclid_i64(a, 400)
}

/// The day number of a calendar day.
pub fn date_day_number(y: i64, m: u8, d: u8) -> (dn: i64)
    requires
        -10000 <= y <= 10001,
        1 <= m <= 12,
    ensures
        dn == day_number(y as int, m as int, d as int),
{
    year_prefix(y) + month_prefix(y, m) as i64 + d as i64
}

/// The smallest supported day number.
pub fn min_day_number() -> (dn: i64)
    ensures
        dn == day_number(-9999, 1, 1),
{
    date_day_number(-9999, 1, 1)
}

/// The largest supported day number.
pub fn max_day_number() -> (dn: i64)
    ensures
        dn == day_number(9999, 12, 31),
{
    date_day_number(9999, 12, 31)
}

/// Month boundaries within a year are a month's length apart.
proof fn lemma_days_before_month_step(y: int, m: int)
    requires
        1 <= m <= 12,
    ensures
        days_before_month(y, m + 1) == days_before_month(y, m) + days_in_month(y, m),
{
}

/// The calendar day with the given day number, as (year, month, day).
pub fn date_from_day_number(dn: i64) -> (r: (i64, u8, u8))
    requires
        in_dn_range(dn as int),
    ensures
        valid_date(r.0 as int, r.1 as int, r.2 as int),
        day_number(r.0 as int, r.1 as int, r.2 as int) == dn as int,
        -9999 <= r.0 <= 9999,
{
    let mut y: i64 = -9999;
    let mut next = year_prefix(-9998);
    proof {
        lemma_day_number_in_year(9999, 12, 31);
    }
    while next < dn
        invariant
            -9999 <= y <= 9999,
            days_before_year(y as int) < dn,
            next == days_before_year(y + 1),
            in_dn_range(dn as int),
            day_number(9999, 12, 31) <= days_before_year(10000),
        decreases 9999 - y,
    {
        proof {
            if y == 9999 {
                assert(false);
            }
        }
        y = y + 1;
        next = year_prefix(y + 1);
    }
    proof {
        lemma_days_before_year_step(y as int);
    }
    let rem = dn - year_prefix(y);
    let mut m: u8 = 1;
    while m < 12 && (month_prefix(y, m + 1) as i64) < rem
        invariant
            1 <= m <= 12,
            -9999 <= y <= 9999,
            (days_before_month(y as int, m as int) as int) < rem,
            rem == dn - days_before_year(y as int),
            rem <= days_in_year(y as int),
        decreases 12 - m,
    {
        m = m + 1;
    }
    proof {
        lemma_days_before_month_step(y as int, m as int);
        if m < 12 {
            assert(rem <= days_before_month(y as int, m as int) + days_in_month(y as int, m as int));
        } else {
            assert(rem <= days_before_month(y as int, 13));
        }
    }
    let d = (rem - month_prefix(y, m) as i64) as u8;
    (y, m, d)
}

/// How a second of the day splits into clock fields.
proof fn lemma_sod_fields(r: int)
    requires
        0 <= r < 86400,
    ensures
        r == 3600 * (r / 3600) + 60 * ((r % 3600) / 60) + (r % 3600) % 60,
        0 <= r / 3600 <= 23,
        0 <= (r % 3600) / 60 <= 59,
        0 <= (r % 3600) % 60 <= 59,
{
    lemma_fundamental_div_mod(r, 3600);
    lemma_mod_division_less_than_divisor(r, 3600);
    lemma_fundamental_div_mod(r % 3600, 60);
    lemma_mod_division_less_than_divisor(r % 3600, 60);
    assert(r / 3600 <= 23) by (nonlinear_arith)
        requires
            r == 3600 * (r / 3600) + r % 3600,
            0 <= r % 3600 < 3600,
            r < 86400,
    {
    }
    assert((r % 3600) / 60 <= 59) by (nonlinear_arith)
        requires
            r % 3600 == 60 * ((r % 3600) / 60) + (r % 3600) % 60,
            0 <= (r % 3600) % 60 < 60,
            r % 3600 < 3600,
    {
    }
}

/// Builds the civil value of a point on the timeline.
pub fn civil_of_moment(dn: i64, sod: u32) -> (r: CivilDateTime)
    requires
        in_dn_range(dn as int),
        sod < 86400,
    ensures
        r.wf(),
        r.moment() == (Moment { dn: dn as int, sod: sod as int }),
{
    let (y, m, d) = date_from_day_number(dn);
    proof {
        lemma_sod_fields(sod as int);
    }
    let hour = (sod / 3600) as u8;
    let minute = ((sod % 3600) / 60) as u8;
    let second = ((sod % 3600) % 60) as u8;
    CivilDateTime { year: y as i32, month: m, day: d, hour, minute, second }
}

/// Reads the point on the timeline of a civil value.
pub fn moment_of_civil(c: &CivilDateTime) -> (r: (i64, u32))
    requires
        c.wf(),
    ensures
        r.0 == c.spec_dn(),
        r.1 == c.spec_sod(),
        in_dn_range(r.0 as int),
        r.1 < 86400,
{
    let dn = date_day_number(c.year as i64, c.month, c.day);
    let sod = c.hour as u32 * 3600 + c.minute as u32 * 60 + c.second as u32;
    proof {
        lemma_day_number_in_year(c.year as int, c.month as int, c.day as int);
        lemma_days_before_year_step(9999);
        if c.year < 9999 {
            lemma_days_before_year_increasing(c.year as int + 1, 10000);
        }
        if c.year > -9999 {
            lemma_days_before_year_increasing(-9999, c.year as int);
        }
    }
    (dn, sod)
}

/// Seconds since the Unix epoch of a civil value.
pub fn epoch_from_civil(c: &CivilDateTime) -> (e: i64)
    requires
        c.wf(),
    ensures
        e == epoch_of_moment(c.moment()),
        in_epoch_range(e as int),
{
    let (dn, sod) = moment_of_civil(c);
    let ep = date_day_number(1970, 1, 1);
    (dn - ep) * 86400 + sod as i64
}

/// Relates a resolution step's executable result to the ghost moment it
/// must produce: a well-formed civil value carrying exactly that moment,
/// or the same failure.
pub open spec fn resolves_to(r: Result<CivilDateTime, ResolveError>, m: Result<Moment, ResolveError>) -> bool {
    match r {
        Ok(c) => c.wf() && m == Ok::<Moment, ResolveError>(c.moment()),
        Err(e) => m == Err::<Moment, ResolveError>(e),
    }
}

/// A day-number shift guarded by the supported span.
pub open spec fn checked_day(dn: int, sod: int) -> Result<Moment, ResolveError> {
    if in_dn_range(dn) {
        Ok(Moment { dn, sod })
    } else {
        Err(ResolveError::OutOfRange)
    }
}

/// The point `delta` whole days away, clock kept.
pub fn add_days_civil(c: &CivilDateTime, delta: i64) -> (r: Result<CivilDateTime, ResolveError>)
    requires
        c.wf(),
        -50_000_000_000 <= delta <= 50_000_000_000,
    ensures
        resolves_to(r, checked_day(c.spec_dn() + delta, c.spec_sod())),
{
    let (dn, sod) = moment_of_civil(c);
    let dn2 = dn + delta;
    if dn2 < min_day_number() || dn2 > max_day_number() {
        return Err(ResolveError::OutOfRange);
    }
    Ok(civil_of_moment(dn2, sod))
}

/// The moment `delta` seconds away, the date rolling as the clock passes
/// midnight.
pub open spec fn shifted_moment(mo: Moment, delta: int) -> Moment {
    let t = mo.dn * 86400 + mo.sod + delta;
    Moment { dn: t / 86400, sod: t % 86400 }
}

/// A clock shift guarded by the supported span.
pub open spec fn checked_shift(mo: Moment, delta: int) -> Result<Moment, ResolveError> {
    let m2 = shifted_moment(mo, delta);
    if in_dn_range(m2.dn) {
        Ok(m2)
    } else {
        Err(ResolveError::OutOfRange)
    }
}

/// The point `delta` seconds away, clock and date adjusted together.
pub fn shift_seconds_civil(c: &CivilDateTime, delta: i64) -> (r: Result<CivilDateTime, ResolveError>)
    requires
        c.wf(),
        -20_000_000_000_000 <= delta <= 20_000_000_000_000,
    ensures
        resolves_to(r, checked_shift(c.moment(), delta as int)),
{
    let (dn, sod) = moment_of_civil(c);
    let t = dn * 86400 + sod as i64 + delta;
    proof {
        lemma_fundamental_div_mod(t as int, 86400);
        lemma_mod_division_less_than_divisor(t as int, 86400);
    }
    let q = div_euclid_i64(t, 86400);
    let r2 = (t - 86400 * q) as u32;
    if q < min_day_number() || q > max_day_number() {
        return Err(ResolveError::OutOfRange);
    }
    Ok(civil_of_moment(q, r2))
}

/// The index of a month on the endless line of months, twelve to a year.
pub open spec fn month_index(y: int, m: int) -> int {
    12 * y + m - 1
}

/// The calendar day `n` whole months away: the month steps along the
/// line of months and the day of month is clamped into the target month.
pub open spec fn month_shift(c: CivilDateTime, n: int) -> (int, int, int) {
    let t = month_index(c.year as int, c.month as int) + n;
    let y2 = t / 12;
    let m2 = t % 12 + 1;
    let d2 = if c.day as int <= days_in_month(y2, m2) {
        c.day as int
    } else {
        days_in_month(y2, m2)
    };
    (y2, m2, d2)
}

/// A month shift guarded by the supported span of years.
pub open spec fn checked_months(c: CivilDateTime, n: int) -> Result<Moment, ResolveError> {
    let (y2, m2, d2) = month_shift(c, n);
    if -9999 <= y2 <= 9999 {
        Ok(Moment { dn: day_number(y2, m2, d2), sod: c.spec_sod() })
    } else {
        Err(ResolveError::OutOfRange)
    }
}

/// The calendar day `n` whole months away, day of month clamped, clock
/// kept.
pub fn add_months_civil(c: &CivilDateTime, n: i64) -> (r: Result<CivilDateTime, ResolveError>)
    requires
        c.wf(),
        -60_000_000_000 <= n <= 60_000_000_000,
    ensures
        resolves_to(r, checked_months(*c, n as int)),
{
    let t = 12 * (c.year as i64) + (c.month as i64) - 1 + n;
    let y2 = div_euclid_i64(t, 12);
    proof {
        lemma_fundamental_div_mod(t as int, 12);
        lemma_mod_division_less_than_divisor(t as int, 12);
    }
    let m2 = (t - 12 * y2 + 1) as u8;
    if y2 < -9999 || y2 > 9999 {
        return Err(ResolveError::OutOfRange);
    }
    let len = month_length(y2, m2);
    let d2 = if c.day <= len {
        c.day
    } else {
        len
    };
    Ok(CivilDateTime { year: y2 as i32, month: m2, day: d2, hour: c.hour, minute: c.minute, second: c.second })
}

/// The weekday ordinal of a civil value's date, Monday as 1 through
/// Sunday as 7.
pub fn weekday_of_civil(c: &CivilDateTime) -> (w: u8)
    requires
        c.wf(),
    ensures
        w as int == weekday_number(c.spec_dn()),
        1 <= w <= 7,
{
    let (dn, _) = moment_of_civil(c);
    proof {
        lemma_fundamental_div_mod(dn - 1, 7);
        lemma_mod_division_less_than_divisor(dn - 1, 7);
    }
    let q = div_euclid_i64(dn - 1, 7);
    ((dn - 1 - 7 * q) + 1) as u8
}

/// A second of the day splits into the clock fields it was built from.
pub proof fn lemma_sod_split(hour: int, minute: int, second: int)
    requires
        0 <= hour <= 23,
        0 <= minute <= 59,
        0 <= second <= 59,
    ensures
        (3600 * hour + 60 * minute + second) % 3600 == 60 * minute + second,
        (3600 * hour + 60 * minute + second) % 60 == second,
{
    let b = 60 * minute + second;
    lemma_mod_multiples_vanish(hour, b, 3600);
    lemma_small_mod(b as nat, 3600);
    lemma_mod_multiples_vanish(60 * hour + minute, second, 60);
    assert(3600 * hour + 60 * minute + second == 60 * (60 * hour + minute) + second);
    lemma_small_mod(second as nat, 60);
}

/// Two well-formed civil values carrying the same moment are the same
/// value.
pub proof fn lemma_moment_injective(c1: CivilDateTime, c2: CivilDateTime)
    requires
        c1.wf(),
        c2.wf(),
        c1.moment() == c2.moment(),
    ensures
        c1 == c2,
{
    lemma_day_number_injective(
        c1.year as int,
        c1.month as int,
        c1.day as int,
        c2.year as int,
        c2.month as int,
        c2.day as int,
    );
}

/// The well-formed civil value carrying a given moment; by
/// [`lemma_moment_injective`] there is at most one.
pub open spec fn civil_of(m: Moment) -> CivilDateTime {
    choose|c: CivilDateTime| c.wf() && c.moment() == m
}

/// The civil value of a count of seconds since the Unix epoch, if it lies
/// in the supported span.
pub fn civil_from_epoch(e: i64) -> (r: Result<CivilDateTime, ResolveError>)
    ensures
        match r {
            Ok(c) => in_epoch_range(e as int) && c.wf() && c.moment() == moment_of_epoch(e as int)
                && c == civil_of(moment_of_epoch(e as int)),
            Err(err) => !in_epoch_range(e as int) && err == ResolveError::OutOfRange,
        },
{
    proof {
        lemma_fundamental_div_mod(e as int, 86400);
        lemma_mod_division_less_than_divisor(e as int, 86400);
    }
    if e < -4_000_000_000_000_000 || e > 4_000_000_000_000_000 {
        proof {
            lemma_day_number_in_year(-9999, 1, 1);
            lemma_day_number_in_year(9999, 12, 31);
            lemma_days_before_year_increasing(-9999, 10000);
        }
        return Err(ResolveError::OutOfRange);
    }
    let q = div_euclid_i64(e, 86400);
    let sod = (e - 86400 * q) as u32;
    let ep = date_day_number(1970, 1, 1);
    let dn = ep + q;
    if dn < min_day_number() || dn > max_day_number() {
        return Err(ResolveError::OutOfRange);
    }
    let c = civil_of_moment(dn, sod);
    proof {
        let picked = civil_of(moment_of_epoch(e as int));
        assert(c.wf() && c.moment() == moment_of_epoch(e as int));
        lemma_moment_injective(picked, c);
    }
    Ok(c)
}

} // verus!

