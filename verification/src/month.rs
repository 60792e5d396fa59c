//! The twelve month names, full and three-letter abbreviated, in both
//! capitalised and lower-case spellings, and their ordinals.

use vstd::prelude::*;

use crate::scan::{
    agrees, is_digit_char, lemma_tag_first_char, tag_at, tag_matches, ErrorKind, Parsed,
    ParseError,
};

verus! {

#[derive(Clone, Copy, Debug, PartialEq, Eq, Structural)]
pub enum Month {
    January,
    February,
    March,
    April,
    May,
    June,
    July,
    August,
    September,
    October,
    November,
    December,
}

/// The four accepted spellings of one month name, tried in order: full
/// capitalised, full lower-case, abbreviated capitalised, abbreviated
/// lower-case. May has no distinct abbreviation.
pub open spec fn month_spelling(
    s: Seq<char>,
    pos: int,
    full_cap: Seq<char>,
    full_low: Seq<char>,
    abbr_cap: Seq<char>,
    abbr_low: Seq<char>,
) -> Parsed<()> {
    if tag_matches(s, pos, full_cap) {
        Parsed::Found { val: (), end: pos + full_cap.len() }
    } else if tag_matches(s, pos, full_low) {
        Parsed::Found { val: (), end: pos + full_low.len() }
    } else if tag_matches(s, pos, abbr_cap) {
        Parsed::Found { val: (), end: pos + abbr_cap.len() }
    } else if tag_matches(s, pos, abbr_low) {
        Parsed::Found { val: (), end: pos + abbr_low.len() }
    } else {
        Parsed::Fail { at: pos, kind: ErrorKind::Tag }
    }
}

/// Tries the four spellings of one month name.
fn month_spelling_at(
    s: &str,
    pos: usize,
    full_cap: &str,
    full_low: &str,
    abbr_cap: &str,
    abbr_low: &str,
) -> (r: Option<usize>)
    requires
        pos <= s@.len(),
    ensures
        match r {
            Some(end) => month_spelling(s@, pos as int, full_cap@, full_low@, abbr_cap@, abbr_low@)
                == (Parsed::Found { val: (), end: end as int }) && pos <= end <= s@.len(),
            None => month_spelling(s@, pos as int, full_cap@, full_low@, abbr_cap@, abbr_low@)
                == (Parsed::Fail::<()> { at: pos as int, kind: ErrorKind::Tag }),
        },
{
    if let Some(end) = tag_at(s, pos, full_cap) {
        Some(end)
    } else if let Some(end) = tag_at(s, pos, full_low) {
        Some(end)
    } else if let Some(end) = tag_at(s, pos, abbr_cap) {
        Some(end)
    } else if let Some(end) = tag_at(s, pos, abbr_low) {
        Some(end)
    } else {
        None
    }
}

/// Ordered choice between one month's spellings and the months after it.
pub open spec fn or_month(first: Parsed<()>, month: Month, later: Parsed<Month>) -> Parsed<Month> {
    match first {
        Parsed::Found { val, end } => Parsed::Found { val: month, end },
        Parsed::Fail { at, kind } => later,
    }
}

/// No spelling of a month name can match where a digit stands.
proof fn lemma_spelling_needs_letter(
    s: Seq<char>,
    pos: int,
    full_cap: Seq<char>,
    full_low: Seq<char>,
    abbr_cap: Seq<char>,
    abbr_low: Seq<char>,
)
    requires
        0 <= pos < s.len(),
        is_digit_char(s[pos]),
        full_cap.len() > 0 && !is_digit_char(full_cap[0]),
        full_low.len() > 0 && !is_digit_char(full_low[0]),
        abbr_cap.len() > 0 && !is_digit_char(abbr_cap[0]),
        abbr_low.len() > 0 && !is_digit_char(abbr_low[0]),
    ensures
        month_spelling(s, pos, full_cap, full_low, abbr_cap, abbr_low) == (Parsed::Fail::<()> {
            at: pos,
            kind: ErrorKind::Tag,
        }),
{
    lemma_tag_first_char(s, pos, full_cap);
    lemma_tag_first_char(s, pos, full_low);
    lemma_tag_first_char(s, pos, abbr_cap);
    lemma_tag_first_char(s, pos, abbr_low);
}

/// A month name never starts with a digit, so the month-name vocabulary
/// fails wherever a digit stands.
pub proof fn lemma_month_parse_needs_letter(s: Seq<char>, pos: int)
    requires
        0 <= pos < s.len(),
        is_digit_char(s[pos]),
    ensures
        Month::spec_parse(s, pos) == (Parsed::Fail::<Month> { at: pos, kind: ErrorKind::Tag }),
{
    reveal_strlit("January");
    reveal_strlit("january");
    reveal_strlit("Jan");
    reveal_strlit("jan");
    reveal_strlit("February");
    reveal_strlit("february");
    reveal_strlit("Feb");
    reveal_strlit("feb");
    reveal_strlit("March");
    reveal_strlit("march");
    reveal_strlit("Mar");
    reveal_strlit("mar");
    reveal_strlit("April");
    reveal_strlit("april");
    reveal_strlit("Apr");
    reveal_strlit("apr");
    reveal_strlit("May");
    reveal_strlit("may");
    reveal_strlit("June");
    reveal_strlit("june");
    reveal_strlit("Jun");
    reveal_strlit("jun");
    reveal_strlit("July");
    reveal_strlit("july");
    reveal_strlit("Jul");
    reveal_strlit("jul");
    reveal_strlit("August");
    reveal_strlit("august");
    reveal_strlit("Aug");
    reveal_strlit("aug");
    reveal_strlit("September");
    reveal_strlit("september");
    reveal_strlit("Sep");
    reveal_strlit("sep");
    reveal_strlit("October");
    reveal_strlit("october");
    reveal_strlit("Oct");
    reveal_strlit("oct");
    reveal_strlit("November");
    reveal_strlit("november");
    reveal_strlit("Nov");
    reveal_strlit("nov");
    reveal_strlit("December");
    reveal_strlit("december");
    reveal_strlit("Dec");
    reveal_strlit("dec");
    lemma_spelling_needs_letter(s, pos, "January"@, "january"@, "Jan"@, "jan"@);
    lemma_spelling_needs_letter(s, pos, "February"@, "february"@, "Feb"@, "feb"@);
    lemma_spelling_needs_letter(s, pos, "March"@, "march"@, "Mar"@, "mar"@);
    lemma_spelling_needs_letter(s, pos, "April"@, "april"@, "Apr"@, "apr"@);
    lemma_spelling_needs_letter(s, pos, "May"@, "may"@, "May"@, "may"@);
    lemma_spelling_needs_letter(s, pos, "June"@, "june"@, "Jun"@, "jun"@);
    lemma_spelling_needs_letter(s, pos, "July"@, "july"@, "Jul"@, "jul"@);
    lemma_spelling_needs_letter(s, pos, "August"@, "august"@, "Aug"@, "aug"@);
    lemma_spelling_needs_letter(s, pos, "September"@, "september"@, "Sep"@, "sep"@);
    lemma_spelling_needs_letter(s, pos, "October"@, "october"@, "Oct"@, "oct"@);
    lemma_spelling_needs_letter(s, pos, "November"@, "november"@, "Nov"@, "nov"@);
    lemma_spelling_needs_letter(s, pos, "December"@, "december"@, "Dec"@, "dec"@);
}

/// The month vocabulary does parse real names wherever they stand; shown
/// for January, whose spelling is the first alternative tried: any input
/// carrying those characters at `pos` parses the month there.
pub proof fn lemma_january_opens_month_name(s: Seq<char>, pos: int)
    requires
        0 <= pos,
        pos + 7 <= s.len(),
        forall|i: int| 0 <= i < 7 ==> s[#[trigger] (pos + i)] == "January"@[i],
    ensures
        Month::spec_parse(s, pos) == (Parsed::Found { val: Month::January, end: pos + 7 }),
{
    reveal_strlit("January");
    assert forall|i: int| 0 <= i < 7 implies s.subrange(pos, pos + 7)[i] == "January"@[i] by {
        assert(s[pos + i] == "January"@[i]);
    }
    assert(s.subrange(pos, pos + "January"@.len()) =~= "January"@);
}

impl Month {
    /// Ordinal: January is 1 through December is 12.
    pub open spec fn spec_number_from_january(self) -> int {
        match self {
            Month::January => 1,
            Month::February => 2,
            Month::March => 3,
            Month::April => 4,
            Month::May => 5,
            Month::June => 6,
            Month::July => 7,
            Month::August => 8,
            Month::September => 9,
            Month::October => 10,
            Month::November => 11,
            Month::December => 12,
        }
    }

    /// Ordinal: January is 1 through December is 12.
    pub fn number_from_january(&self) -> (r: u8)
        ensures
            r as int == self.spec_number_from_january(),
            1 <= r <= 12,
    {
        match self {
            Month::January => 1,
            Month::February => 2,
            Month::March => 3,
            Month::April => 4,
            Month::May => 5,
            Month::June => 6,
            Month::July => 7,
            Month::August => 8,
            Month::September => 9,
            Month::October => 10,
            Month::November => 11,
            Month::December => 12,
        }
    }

    /// The grammar of month names: each month's spellings in calendar
    /// order, first match wins.
    pub open spec fn spec_parse(s: Seq<char>, pos: int) -> Parsed<Month> {
        or_month(month_spelling(s, pos, "January"@, "january"@, "Jan"@, "jan"@), Month::January,
        or_month(month_spelling(s, pos, "February"@, "february"@, "Feb"@, "feb"@), Month::February,
        or_month(month_spelling(s, pos, "March"@, "march"@, "Mar"@, "mar"@), Month::March,
        or_month(month_spelling(s, pos, "April"@, "april"@, "Apr"@, "apr"@), Month::April,
        or_month(month_spelling(s, pos, "May"@, "may"@, "May"@, "may"@), Month::May,
        or_month(month_spelling(s, pos, "June"@, "june"@, "Jun"@, "jun"@), Month::June,
        or_month(month_spelling(s, pos, "July"@, "july"@, "Jul"@, "jul"@), Month::July,
        or_month(month_spelling(s, pos, "August"@, "august"@, "Aug"@, "aug"@), Month::August,
        or_month(month_spelling(s, pos, "September"@, "september"@, "Sep"@, "sep"@), Month::September,
        or_month(month_spelling(s, pos, "October"@, "october"@, "Oct"@, "oct"@), Month::October,
        or_month(month_spelling(s, pos, "November"@, "november"@, "Nov"@, "nov"@), Month::November,
        or_month(month_spelling(s, pos, "December"@, "december"@, "Dec"@, "dec"@), Month::December,
        Parsed::Fail { at: pos, kind: ErrorKind::Tag }))))))))))))
    }

    /// Reads a month name at `pos`.
    pub fn parse_at(s: &str, pos: usize) -> (r: Result<(Month, usize), ParseError>)
        requires
            pos <= s@.len(),
        ensures
            agrees(r, Self::spec_parse(s@, pos as int)),
            r matches Ok((v, end)) ==> pos <= end <= s@.len(),
    {
        if let Some(end) = month_spelling_at(s, pos, "January", "january", "Jan", "jan") {
            Ok((Month::January, end))
        } else if let Some(end) = month_spelling_at(s, pos, "February", "february", "Feb", "feb") {
            Ok((Month::February, end))
        } else if let Some(end) = month_spelling_at(s, pos, "March", "march", "Mar", "mar") {
            Ok((Month::March, end))
        } else if let Some(end) = month_spelling_at(s, pos, "April", "april", "Apr", "apr") {
            Ok((Month::April, end))
        } else if let Some(end) = month_spelling_at(s, pos, "May", "may", "May", "may") {
            Ok((Month::May, end))
        } else if let Some(end) = month_spelling_at(s, pos, "June", "june", "Jun", "jun") {
            Ok((Month::June, end))
        } else if let Some(end) = month_spelling_at(s, pos, "July", "july", "Jul", "jul") {
            Ok((Month::July, end))
        } else if let Some(end) = month_spelling_at(s, pos, "August", "august", "Aug", "aug") {
            Ok((Month::August, end))
        } else if let Some(end) = month_spelling_at(s, pos, "September", "september", "Sep", "sep") {
            Ok((Month::September, end))
        } else if let Some(end) = month_spelling_at(s, pos, "October", "october", "Oct", "oct") {
            Ok((Month::October, end))
        } else if let Some(end) = month_spelling_at(s, pos, "November", "november", "Nov", "nov") {
            Ok((Month::November, end))
        } else if let Some(end) = month_spelling_at(s, pos, "December", "december", "Dec", "dec") {
            Ok((Month::December, end))
        } else {
            Err(ParseError { at: pos, kind: ErrorKind::Tag })
        }
    }

    /// Reads a month name at the start of `input` and gives back the
    /// remaining input beside it.
    pub fn parse(input: &str) -> (r: Result<(&str, Month), ParseError>)
        ensures
            match r {
                Ok((rest, v)) => (Self::spec_parse(input@, 0) matches Parsed::Found {
                    val, end } && val == v && rest@ == input@.skip(end)),
                Err(e) => Self::spec_parse(input@, 0) == (Parsed::Fail::<Month> {
                    at: e.at as int, kind: e.kind }),
            },
    {
        let (v, end) = Self::parse_at(input, 0)?;
        Ok((crate::scan::rest_of(input, end), v))
    }
}

} // verus!
