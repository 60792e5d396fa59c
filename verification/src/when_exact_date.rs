//! Absolute calendar dates in six literal spellings: day-month-year with
//! dashes or slashes, "Month day, year", year-month-day with dashes or
//! slashes, and "day Month year".

use vstd::prelude::*;

use crate::civil::{
    day_number, days_in_month, month_length, resolves_to, CivilDateTime, Moment, ResolveError,
};
use crate::month::{lemma_month_parse_needs_letter, Month};
use crate::scan::{
    agrees, char_at, char_matches, digit_run, digits_end, digits_value, is_digit_char, is_space_char,
    lemma_digits_end_at, lemma_digits_value_congruent, lemma_spaces_end_at, merge_fail, or_else,
    scan_number, space1, space_run, spec_number, spec_space1, ErrorKind, Parsed, ParseError,
};

verus! {

/// A calendar date as read from the input. The day is only bounded by 31
/// here; whether it exists in its month is checked when the date is
/// materialised, not at parse time.
#[derive(Clone, Copy, Debug, PartialEq, Eq, Structural)]
pub struct WhenExactDate {
    pub year: u32,
    pub month: u8,
    pub day: u8,
}

/// Day-month-year with the separator `sep` between the fields: a day in
/// `[1, 31]`, a month in `[1, 12]`, and an unbounded year.
pub open spec fn spec_day_month_year(s: Seq<char>, pos: int, sep: char) -> Parsed<WhenExactDate> {
    match spec_number(s, pos, 1, 31) {
        Parsed::Fail { at, kind } => Parsed::Fail { at, kind },
        Parsed::Found { val: d, end: p1 } => if !char_matches(s, p1, sep) {
            Parsed::Fail { at: p1, kind: ErrorKind::Tag }
        } else {
            match spec_number(s, p1 + 1, 1, 12) {
                Parsed::Fail { at, kind } => Parsed::Fail { at, kind },
                Parsed::Found { val: mo, end: p2 } => if !char_matches(s, p2, sep) {
                    Parsed::Fail { at: p2, kind: ErrorKind::Tag }
                } else {
                    match spec_number(s, p2 + 1, 0, 0xffff_ffff) {
                        Parsed::Fail { at, kind } => Parsed::Fail { at, kind },
                        Parsed::Found { val: y, end: p3 } => Parsed::Found {
                            val: WhenExactDate { year: y as u32, month: mo as u8, day: d as u8 },
                            end: p3,
                        },
                    }
                },
            }
        },
    }
}

/// Year-month-day with the separator `sep` between the fields.
pub open spec fn spec_year_month_day(s: Seq<char>, pos: int, sep: char) -> Parsed<WhenExactDate> {
    match spec_number(s, pos, 0, 0xffff_ffff) {
        Parsed::Fail { at, kind } => Parsed::Fail { at, kind },
        Parsed::Found { val: y, end: p1 } => if !char_matches(s, p1, sep) {
            Parsed::Fail { at: p1, kind: ErrorKind::Tag }
        } else {
            match spec_number(s, p1 + 1, 1, 12) {
                Parsed::Fail { at, kind } => Parsed::Fail { at, kind },
                Parsed::Found { val: mo, end: p2 } => if !char_matches(s, p2, sep) {
                    Parsed::Fail { at: p2, kind: ErrorKind::Tag }
                } else {
                    match spec_number(s, p2 + 1, 1, 31) {
                        Parsed::Fail { at, kind } => Parsed::Fail { at, kind },
                        Parsed::Found { val: d, end: p3 } => Parsed::Found {
                            val: WhenExactDate { year: y as u32, month: mo as u8, day: d as u8 },
                            end: p3,
                        },
                    }
                },
            }
        },
    }
}

/// "Month day, year": a month name, blanks, a day, a comma, blanks, a year.
pub open spec fn spec_month_day_year(s: Seq<char>, pos: int) -> Parsed<WhenExactDate> {
    match Month::spec_parse(s, pos) {
        Parsed::Fail { at, kind } => Parsed::Fail { at, kind },
        Parsed::Found { val: mo, end: p1 } => match spec_space1(s, p1) {
            Parsed::Fail { at, kind } => Parsed::Fail { at, kind },
            Parsed::Found { val: _, end: p2 } => match spec_number(s, p2, 1, 31) {
                Parsed::Fail { at, kind } => Parsed::Fail { at, kind },
                Parsed::Found { val: d, end: p3 } => if !char_matches(s, p3, ',') {
                    Parsed::Fail { at: p3, kind: ErrorKind::Tag }
                } else {
                    match spec_space1(s, p3 + 1) {
                        Parsed::Fail { at, kind } => Parsed::Fail { at, kind },
                        Parsed::Found { val: _, end: p4 } => match spec_number(s, p4, 0, 0xffff_ffff) {
                            Parsed::Fail { at, kind } => Parsed::Fail { at, kind },
                            Parsed::Found { val: y, end: p5 } => Parsed::Found {
                                val: WhenExactDate {
                                    year: y as u32,
                                    month: mo.spec_number_from_january() as u8,
                                    day: d as u8,
                                },
                                end: p5,
                            },
                        },
                    }
                },
            },
        },
    }
}

/// "day Month year": a day, blanks, a month name, blanks, a year.
pub open spec fn spec_day_month_name_year(s: Seq<char>, pos: int) -> Parsed<WhenExactDate> {
    match spec_number(s, pos, 1, 31) {
        Parsed::Fail { at, kind } => Parsed::Fail { at, kind },
        Parsed::Found { val: d, end: p1 } => match spec_space1(s, p1) {
            Parsed::Fail { at, kind } => Parsed::Fail { at, kind },
            Parsed::Found { val: _, end: p2 } => match Month::spec_parse(s, p2) {
                Parsed::Fail { at, kind } => Parsed::Fail { at, kind },
                Parsed::Found { val: mo, end: p3 } => match spec_space1(s, p3) {
                    Parsed::Fail { at, kind } => Parsed::Fail { at, kind },
                    Parsed::Found { val: _, end: p4 } => match spec_number(s, p4, 0, 0xffff_ffff) {
                        Parsed::Fail { at, kind } => Parsed::Fail { at, kind },
                        Parsed::Found { val: y, end: p5 } => Parsed::Found {
                            val: WhenExactDate {
                                year: y as u32,
                                month: mo.spec_number_from_january() as u8,
                                day: d as u8,
                            },
                            end: p5,
                        },
                    },
                },
            },
        },
    }
}

fn parse_day_month_year(s: &str, pos: usize, sep: char) -> (r: Result<(WhenExactDate, usize), ParseError>)
    requires
        pos <= s@.len(),
    ensures
        agrees(r, spec_day_month_year(s@, pos as int, sep)),
        r matches Ok((v, end)) ==> pos <= end <= s@.len(),
{
    let (d, p1) = scan_number(s, pos, 1, 31)?;
    if !char_at(s, p1, sep) {
        return Err(ParseError { at: p1, kind: ErrorKind::Tag });
    }
    let (mo, p2) = scan_number(s, p1 + 1, 1, 12)?;
    if !char_at(s, p2, sep) {
        return Err(ParseError { at: p2, kind: ErrorKind::Tag });
    }
    let (y, p3) = scan_number(s, p2 + 1, 0, 0xffff_ffff)?;
    Ok((WhenExactDate { year: y, month: mo as u8, day: d as u8 }, p3))
}

fn parse_year_month_day(s: &str, pos: usize, sep: char) -> (r: Result<(WhenExactDate, usize), ParseError>)
    requires
        pos <= s@.len(),
    ensures
        agrees(r, spec_year_month_day(s@, pos as int, sep)),
        r matches Ok((v, end)) ==> pos <= end <= s@.len(),
{
    let (y, p1) = scan_number(s, pos, 0, 0xffff_ffff)?;
    if !char_at(s, p1, sep) {
        return Err(ParseError { at: p1, kind: ErrorKind::Tag });
    }
    let (mo, p2) = scan_number(s, p1 + 1, 1, 12)?;
    if !char_at(s, p2, sep) {
        return Err(ParseError { at: p2, kind: ErrorKind::Tag });
    }
    let (d, p3) = scan_number(s, p2 + 1, 1, 31)?;
    Ok((WhenExactDate { year: y, month: mo as u8, day: d as u8 }, p3))
}

fn parse_month_day_year(s: &str, pos: usize) -> (r: Result<(WhenExactDate, usize), ParseError>)
    requires
        pos <= s@.len(),
    ensures
        agrees(r, spec_month_day_year(s@, pos as int)),
        r matches Ok((v, end)) ==> pos <= end <= s@.len(),
{
    let (mo, p1) = Month::parse_at(s, pos)?;
    let (_, p2) = space1(s, p1)?;
    let (d, p3) = scan_number(s, p2, 1, 31)?;
    if !char_at(s, p3, ',') {
        return Err(ParseError { at: p3, kind: ErrorKind::Tag });
    }
    let (_, p4) = space1(s, p3 + 1)?;
    let (y, p5) = scan_number(s, p4, 0, 0xffff_ffff)?;
    Ok((WhenExactDate { year: y, month: mo.number_from_january(), day: d as u8 }, p5))
}

fn parse_day_month_name_year(s: &str, pos: usize) -> (r: Result<(WhenExactDate, usize), ParseError>)
    requires
        pos <= s@.len(),
    ensures
        agrees(r, spec_day_month_name_year(s@, pos as int)),
        r matches Ok((v, end)) ==> pos <= end <= s@.len(),
{
    let (d, p1) = scan_number(s, pos, 1, 31)?;
    let (_, p2) = space1(s, p1)?;
    let (mo, p3) = Month::parse_at(s, p2)?;
    let (_, p4) = space1(s, p3)?;
    let (y, p5) = scan_number(s, p4, 0, 0xffff_ffff)?;
    Ok((WhenExactDate { year: y, month: mo.number_from_january(), day: d as u8 }, p5))
}

/// The characters of a decimal numeral reading as `n`: a nonempty run of
/// digits with that value.
pub open spec fn numeral_for(s: Seq<char>, n: int) -> bool {
    &&& s.len() > 0
    &&& digit_run(s, 0, s.len() as int)
    &&& digits_value(s, 0, s.len() as int) == n
}

/// A numeral embedded at `pos` and bounded by a non-digit or the input's
/// end scans to exactly its value and extent, or to a bounds failure when
/// the value lies outside `[min, max]`.
proof fn lemma_number_at(s: Seq<char>, pos: int, nu: Seq<char>, n: int, min: int, max: int)
    requires
        0 <= pos,
        pos + nu.len() <= s.len(),
        forall|i: int| 0 <= i < nu.len() ==> s[#[trigger] (pos + i)] == nu[i],
        numeral_for(nu, n),
        pos + nu.len() == s.len() || !is_digit_char(s[pos + nu.len()]),
    ensures
        min <= n <= max ==> spec_number(s, pos, min, max) == (Parsed::Found {
            val: n,
            end: pos + nu.len(),
        }),
        !(min <= n <= max) ==> spec_number(s, pos, min, max) == (Parsed::Fail::<int> {
            at: pos,
            kind: ErrorKind::Bounds,
        }),
{
    assert(digit_run(s, pos, pos + nu.len())) by {
        assert forall|i: int| pos <= i < pos + nu.len() implies is_digit_char(s[i]) by {
            assert(s[pos + (i - pos)] == nu[i - pos]);
        }
    }
    lemma_digits_end_at(s, pos, pos + nu.len());
    lemma_digits_value_congruent(s, pos, nu, 0, nu.len() as int);
}

/// What the day-first form makes of a literal built from numerals for a
/// day, a month and a year, joined by `sep`.
proof fn lemma_day_month_year_literal(
    sd: Seq<char>,
    sm: Seq<char>,
    sy: Seq<char>,
    sep: char,
    y: int,
    mo: int,
    d: int,
)
    requires
        numeral_for(sd, d),
        numeral_for(sm, mo),
        numeral_for(sy, y),
        1 <= d <= 31,
        1 <= mo <= 12,
        0 <= y <= 0xffff_ffff,
        !is_digit_char(sep),
    ensures
        ({
            let s = sd + seq![sep] + sm + seq![sep] + sy;
            spec_day_month_year(s, 0, sep) == (Parsed::Found {
                val: WhenExactDate { year: y as u32, month: mo as u8, day: d as u8 },
                end: s.len() as int,
            })
        }),
{
    let s = sd + seq![sep] + sm + seq![sep] + sy;
    let a = sd.len() as int;
    let b = sm.len() as int;
    let c = sy.len() as int;
    assert forall|i: int| 0 <= i < sd.len() implies s[#[trigger] (0 + i)] == sd[i] by {}
    assert(s[a] == sep);
    assert forall|i: int| 0 <= i < sm.len() implies s[#[trigger] (a + 1 + i)] == sm[i] by {}
    assert(s[a + 1 + b] == sep);
    assert forall|i: int| 0 <= i < sy.len() implies s[#[trigger] (a + 2 + b + i)] == sy[i] by {}
    lemma_number_at(s, 0, sd, d, 1, 31);
    assert(char_matches(s, a, sep));
    lemma_number_at(s, a + 1, sm, mo, 1, 12);
    assert(char_matches(s, a + 1 + b, sep));
    lemma_number_at(s, a + 2 + b, sy, y, 0, 0xffff_ffff);
}

/// What the year-first form makes of a literal built from numerals for a
/// year, a month and a day, joined by `sep`.
proof fn lemma_year_month_day_literal(
    sy: Seq<char>,
    sm: Seq<char>,
    sd: Seq<char>,
    sep: char,
    y: int,
    mo: int,
    d: int,
)
    requires
        numeral_for(sd, d),
        numeral_for(sm, mo),
        numeral_for(sy, y),
        1 <= d <= 31,
        1 <= mo <= 12,
        0 <= y <= 0xffff_ffff,
        !is_digit_char(sep),
    ensures
        ({
            let s = sy + seq![sep] + sm + seq![sep] + sd;
            spec_year_month_day(s, 0, sep) == (Parsed::Found {
                val: WhenExactDate { year: y as u32, month: mo as u8, day: d as u8 },
                end: s.len() as int,
            })
        }),
{
    let s = sy + seq![sep] + sm + seq![sep] + sd;
    let a = sy.len() as int;
    let b = sm.len() as int;
    assert forall|i: int| 0 <= i < sy.len() implies s[#[trigger] (0 + i)] == sy[i] by {}
    assert(s[a] == sep);
    assert forall|i: int| 0 <= i < sm.len() implies s[#[trigger] (a + 1 + i)] == sm[i] by {}
    assert(s[a + 1 + b] == sep);
    assert forall|i: int| 0 <= i < sd.len() implies s[#[trigger] (a + 2 + b + i)] == sd[i] by {}
    lemma_number_at(s, 0, sy, y, 0, 0xffff_ffff);
    assert(char_matches(s, a, sep));
    lemma_number_at(s, a + 1, sm, mo, 1, 12);
    assert(char_matches(s, a + 1 + b, sep));
    lemma_number_at(s, a + 2 + b, sd, d, 1, 31);
}

/// Round-trip of the numeric date spellings — the string-level half of
/// the literal round-trip law. Decimal numerals for a day in [1, 31], a
/// month in [1, 12] and a year, joined day-first with dashes or with
/// slashes, parse to exactly that calendar day; joined year-first with
/// dashes or with slashes they parse to the same calendar day provided
/// the year reads above 31. (A year-first literal whose year also reads
/// as a day, such as "0012-11-10", is claimed by the day-first spelling,
/// which ordered choice tries earlier.) With
/// [`WhenExactDate::lemma_resolution_reads_only_fields`], every such
/// spelling of one calendar day resolves identically.
pub proof fn lemma_numeric_date_spellings_round_trip(
    sd: Seq<char>,
    sm: Seq<char>,
    sy: Seq<char>,
    y: int,
    mo: int,
    d: int,
)
    requires
        numeral_for(sd, d),
        numeral_for(sm, mo),
        numeral_for(sy, y),
        1 <= d <= 31,
        1 <= mo <= 12,
        0 <= y <= 0xffff_ffff,
    ensures
        ({
            let s = sd + seq!['-'] + sm + seq!['-'] + sy;
            WhenExactDate::spec_parse(s, 0) == (Parsed::Found {
                val: WhenExactDate { year: y as u32, month: mo as u8, day: d as u8 },
                end: s.len() as int,
            })
        }),
        ({
            let s = sd + seq!['/'] + sm + seq!['/'] + sy;
            WhenExactDate::spec_parse(s, 0) == (Parsed::Found {
                val: WhenExactDate { year: y as u32, month: mo as u8, day: d as u8 },
                end: s.len() as int,
            })
        }),
        y > 31 ==> ({
            let s = sy + seq!['-'] + sm + seq!['-'] + sd;
            WhenExactDate::spec_parse(s, 0) == (Parsed::Found {
                val: WhenExactDate { year: y as u32, month: mo as u8, day: d as u8 },
                end: s.len() as int,
            })
        }),
        y > 31 ==> ({
            let s = sy + seq!['/'] + sm + seq!['/'] + sd;
            WhenExactDate::spec_parse(s, 0) == (Parsed::Found {
                val: WhenExactDate { year: y as u32, month: mo as u8, day: d as u8 },
                end: s.len() as int,
            })
        }),
{
    // day-first, dashes: the first alternative matches outright
    lemma_day_month_year_literal(sd, sm, sy, '-', y, mo, d);

    // day-first, slashes: the dashed alternative stops at the separator
    lemma_day_month_year_literal(sd, sm, sy, '/', y, mo, d);
    let s2 = sd + seq!['/'] + sm + seq!['/'] + sy;
    let a2 = sd.len() as int;
    assert forall|i: int| 0 <= i < sd.len() implies s2[#[trigger] (0 + i)] == sd[i] by {}
    assert(s2[a2] == '/');
    lemma_number_at(s2, 0, sd, d, 1, 31);
    assert(!char_matches(s2, a2, '-'));

    if y > 31 {
        // year-first: the day-first alternatives reject the year where a
        // day must stand, and no month name opens with a digit
        lemma_year_month_day_literal(sy, sm, sd, '-', y, mo, d);
        lemma_year_month_day_literal(sy, sm, sd, '/', y, mo, d);
        let s3 = sy + seq!['-'] + sm + seq!['-'] + sd;
        let s4 = sy + seq!['/'] + sm + seq!['/'] + sd;
        let a3 = sy.len() as int;
        assert forall|i: int| 0 <= i < sy.len() implies s3[#[trigger] (0 + i)] == sy[i] by {}
        assert forall|i: int| 0 <= i < sy.len() implies s4[#[trigger] (0 + i)] == sy[i] by {}
        assert(s3[a3] == '-');
        assert(s4[a3] == '/');
        lemma_number_at(s3, 0, sy, y, 1, 31);
        lemma_number_at(s4, 0, sy, y, 1, 31);
        assert(is_digit_char(s3[0])) by {
            assert(s3[0 + 0int] == sy[0]);
        }
        assert(is_digit_char(s4[0])) by {
            assert(s4[0 + 0int] == sy[0]);
        }
        lemma_month_parse_needs_letter(s3, 0);
        lemma_month_parse_needs_letter(s4, 0);
        // on the slashed literal the dashed year-first form stops at the
        // separator after the year
        lemma_number_at(s4, 0, sy, y, 0, 0xffff_ffff);
        assert(!char_matches(s4, a3, '-'));
    }
}

/// Round-trip of the month-name date spellings — the other half of the
/// string-level literal round-trip law. With the month name's own
/// vocabulary parse supplied as a premise (the vocabulary contract fixes
/// it for each concrete name), "Month day, year" and "day Month year"
/// literals built from decimal numerals for a day in [1, 31] and a year
/// parse to exactly that calendar day. With
/// [`WhenExactDate::lemma_resolution_reads_only_fields`] they resolve
/// identically to the numeric spellings of the same day.
pub proof fn lemma_name_date_spellings_round_trip(
    nm: Seq<char>,
    mo: Month,
    sd: Seq<char>,
    sy: Seq<char>,
    y: int,
    d: int,
)
    requires
        numeral_for(sd, d),
        numeral_for(sy, y),
        1 <= d <= 31,
        0 <= y <= 0xffff_ffff,
        nm.len() > 0,
        !is_digit_char(nm[0]),
        !is_space_char(nm[0]),
        ({
            let s = nm + seq![' '] + sd + seq![','] + seq![' '] + sy;
            Month::spec_parse(s, 0) == (Parsed::Found { val: mo, end: nm.len() as int })
        }),
        ({
            let s = sd + seq![' '] + nm + seq![' '] + sy;
            Month::spec_parse(s, sd.len() + 1int) == (Parsed::Found {
                val: mo,
                end: sd.len() + 1int + nm.len(),
            })
        }),
    ensures
        ({
            let s = nm + seq![' '] + sd + seq![','] + seq![' '] + sy;
            WhenExactDate::spec_parse(s, 0) == (Parsed::Found {
                val: WhenExactDate {
                    year: y as u32,
                    month: mo.spec_number_from_january() as u8,
                    day: d as u8,
                },
                end: s.len() as int,
            })
        }),
        ({
            let s = sd + seq![' '] + nm + seq![' '] + sy;
            WhenExactDate::spec_parse(s, 0) == (Parsed::Found {
                val: WhenExactDate {
                    year: y as u32,
                    month: mo.spec_number_from_january() as u8,
                    day: d as u8,
                },
                end: s.len() as int,
            })
        }),
{
    let a = sd.len() as int;
    let n = nm.len() as int;
    let c = sy.len() as int;

    // "Month day, year": the numeric forms stop at once, the name form
    // reads name, blank, day, comma, blank, year
    let s3 = nm + seq![' '] + sd + seq![','] + seq![' '] + sy;
    assert(s3[0] == nm[0]);
    assert forall|i: int| 0 <= i < sd.len() implies s3[#[trigger] (n + 1 + i)] == sd[i] by {}
    assert forall|i: int| 0 <= i < sy.len() implies s3[#[trigger] (n + 3 + a + i)] == sy[i] by {}
    assert(s3[n] == ' ');
    assert(s3[n + 1 + a] == ',');
    assert(s3[n + 2 + a] == ' ');
    assert(digits_end(s3, 0) == 0);
    assert(s3[n + 1] == sd[0]);
    lemma_spaces_end_at(s3, n, n + 1);
    lemma_number_at(s3, n + 1, sd, d, 1, 31);
    assert(char_matches(s3, n + 1 + a, ','));
    assert(s3[n + 3 + a] == sy[0]);
    lemma_spaces_end_at(s3, n + 2 + a, n + 3 + a);
    lemma_number_at(s3, n + 3 + a, sy, y, 0, 0xffff_ffff);

    // "day Month year": the separated numeric forms stop at the blank
    // after the day, the name form reads day, blank, name, blank, year
    let s6 = sd + seq![' '] + nm + seq![' '] + sy;
    assert forall|i: int| 0 <= i < sd.len() implies s6[#[trigger] (0 + i)] == sd[i] by {}
    assert forall|i: int| 0 <= i < sy.len() implies s6[#[trigger] (a + 2 + n + i)] == sy[i] by {}
    assert(s6[a] == ' ');
    assert(s6[a + 1] == nm[0]);
    assert(s6[a + 1 + n] == ' ');
    assert(s6[a + 2 + n] == sy[0]);
    assert(is_digit_char(s6[0])) by {
        assert(s6[0 + 0int] == sd[0]);
    }
    lemma_number_at(s6, 0, sd, d, 1, 31);
    lemma_number_at(s6, 0, sd, d, 0, 0xffff_ffff);
    assert(!char_matches(s6, a, '-'));
    assert(!char_matches(s6, a, '/'));
    lemma_month_parse_needs_letter(s6, 0);
    lemma_spaces_end_at(s6, a, a + 1);
    lemma_spaces_end_at(s6, a + 1 + n, a + 2 + n);
    lemma_number_at(s6, a + 2 + n, sy, y, 0, 0xffff_ffff);
}

impl WhenExactDate {
    /// The grammar of an absolute date: the six spellings tried in a fixed
    /// order, first match wins.
    pub open spec fn spec_parse(s: Seq<char>, pos: int) -> Parsed<WhenExactDate> {
        or_else(spec_day_month_year(s, pos, '-'),
        or_else(spec_day_month_year(s, pos, '/'),
        or_else(spec_month_day_year(s, pos),
        or_else(spec_year_month_day(s, pos, '-'),
        or_else(spec_year_month_day(s, pos, '/'),
        spec_day_month_name_year(s, pos))))))
    }

    /// Reads an absolute date at `pos`.
    pub fn parse_at(s: &str, pos: usize) -> (r: Result<(WhenExactDate, usize), ParseError>)
        requires
            pos <= s@.len(),
        ensures
            agrees(r, Self::spec_parse(s@, pos as int)),
            r matches Ok((v, end)) ==> pos <= end <= s@.len(),
    {
        let e1 = match parse_day_month_year(s, pos, '-') {
            Ok(x) => return Ok(x),
            Err(e) => e,
        };
        let e2 = match parse_day_month_year(s, pos, '/') {
            Ok(x) => return Ok(x),
            Err(e) => e,
        };
        let e3 = match parse_month_day_year(s, pos) {
            Ok(x) => return Ok(x),
            Err(e) => e,
        };
        let e4 = match parse_year_month_day(s, pos, '-') {
            Ok(x) => return Ok(x),
            Err(e) => e,
        };
        let e5 = match parse_year_month_day(s, pos, '/') {
            Ok(x) => return Ok(x),
            Err(e) => e,
        };
        let e6 = match parse_day_month_name_year(s, pos) {
            Ok(x) => return Ok(x),
            Err(e) => e,
        };
        Err(merge_fail(e1, merge_fail(e2, merge_fail(e3, merge_fail(e4, merge_fail(e5, e6))))))
    }

    /// The date exists in the calendar: the year within the supported
    /// span, the month real, and the day present in that month and year.
    pub open spec fn spec_materialisable(self) -> bool {
        &&& self.year <= 9999
        &&& 1 <= self.month <= 12
        &&& 1 <= self.day <= days_in_month(self.year as int, self.month as int)
    }

    /// What the date resolves to: its own calendar day at midnight. A
    /// date that does not exist in the calendar, Feb 30 say, surfaces
    /// here, not at parse time, as an invalid-date failure.
    pub open spec fn spec_resolve(self) -> Result<Moment, ResolveError> {
        if self.spec_materialisable() {
            Ok(
                Moment {
                    dn: day_number(self.year as int, self.month as int, self.day as int),
                    sod: 0,
                },
            )
        } else {
            Err(ResolveError::InvalidDate)
        }
    }

    /// Materialises the date, at midnight; the reference instant plays no
    /// part for an absolute date.
    pub fn to_timestamp(&self, now: &CivilDateTime) -> (r: Result<CivilDateTime, ResolveError>)
        requires
            now.wf(),
        ensures
            resolves_to(r, self.spec_resolve()),
    {
        if self.year > 9999 || self.month < 1 || self.month > 12 {
            return Err(ResolveError::InvalidDate);
        }
        let len = month_length(self.year as i64, self.month);
        if self.day < 1 || self.day > len {
            return Err(ResolveError::InvalidDate);
        }
        Ok(
            CivilDateTime {
                year: self.year as i32,
                month: self.month,
                day: self.day,
                hour: 0,
                minute: 0,
                second: 0,
            },
        )
    }

    /// Round-trip uniformity of date literals: resolution reads nothing
    /// but the (year, month, day) fields, so absolute dates carrying the
    /// same calendar day — whichever of the six spellings each was read
    /// from, and whatever the reference instant or zone — materialise
    /// into the same calendar day.
    pub proof fn lemma_resolution_reads_only_fields(d1: WhenExactDate, d2: WhenExactDate)
        requires
            d1.year == d2.year,
            d1.month == d2.month,
            d1.day == d2.day,
        ensures
            d1.spec_resolve() == d2.spec_resolve(),
    {
    }

    /// Reads an absolute date at the start of `input` and gives back the
    /// remaining input beside it.
    pub fn parse(input: &str) -> (r: Result<(&str, WhenExactDate), ParseError>)
        ensures
            match r {
                Ok((rest, v)) => (Self::spec_parse(input@, 0) matches Parsed::Found {
                    val, end } && val == v && rest@ == input@.skip(end)),
                Err(e) => Self::spec_parse(input@, 0) == (Parsed::Fail::<WhenExactDate> {
                    at: e.at as int, kind: e.kind }),
            },
    {
        let (v, end) = Self::parse_at(input, 0)?;
        Ok((crate::scan::rest_of(input, end), v))
    }
}

} // verus!
