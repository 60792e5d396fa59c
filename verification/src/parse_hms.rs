//! Clock readings of the form `h`, `h:mm` or `h:mm:ss`, with the hour field
//! bounded by either the 24-hour or the 12-hour convention.

use vstd::prelude::*;

use crate::scan::{char_at, char_matches, scan_number, spec_number, ErrorKind, Parsed, ParseError};

verus! {

/// Which convention bounds the hour field.
#[derive(Clone, Copy, Debug, PartialEq, Eq, Structural)]
pub enum HmsFormat {
    H24,
    H12,
}

/// Reads an hour of the 24-hour clock, a number in `[0, 23]`.
pub fn parse_24(s: &str, pos: usize) -> (r: Result<(u8, usize), ParseError>)
    requires
        pos <= s@.len(),
    ensures
        match r {
            Ok((v, end)) => spec_number(s@, pos as int, 0, 23)
                == (Parsed::Found { val: v as int, end: end as int }) && pos < end <= s@.len(),
            Err(e) => spec_number(s@, pos as int, 0, 23)
                == (Parsed::Fail::<int> { at: e.at as int, kind: e.kind }),
        },
{
    let (v, end) = scan_number(s, pos, 0, 23)?;
    Ok((v as u8, end))
}

/// Reads an hour of the 12-hour clock, a number in `[1, 12]`.
fn parse_12(s: &str, pos: usize) -> (r: Result<(u8, usize), ParseError>)
    requires
        pos <= s@.len(),
    ensures
        match r {
            Ok((v, end)) => spec_number(s@, pos as int, 1, 12)
                == (Parsed::Found { val: v as int, end: end as int }) && pos < end <= s@.len(),
            Err(e) => spec_number(s@, pos as int, 1, 12)
                == (Parsed::Fail::<int> { at: e.at as int, kind: e.kind }),
        },
{
    let (v, end) = scan_number(s, pos, 1, 12)?;
    Ok((v as u8, end))
}

/// Reads a minute or second field, a number in `[0, 59]`.
pub fn parse_60(s: &str, pos: usize) -> (r: Result<(u8, usize), ParseError>)
    requires
        pos <= s@.len(),
    ensures
        match r {
            Ok((v, end)) => spec_number(s@, pos as int, 0, 59)
                == (Parsed::Found { val: v as int, end: end as int }) && pos < end <= s@.len(),
            Err(e) => spec_number(s@, pos as int, 0, 59)
                == (Parsed::Fail::<int> { at: e.at as int, kind: e.kind }),
        },
{
    let (v, end) = scan_number(s, pos, 0, 59)?;
    Ok((v as u8, end))
}

/// The hour field's bounds under the chosen convention.
pub open spec fn spec_hour(s: Seq<char>, pos: int, format: HmsFormat) -> Parsed<int> {
    match format {
        HmsFormat::H24 => spec_number(s, pos, 0, 23),
        HmsFormat::H12 => spec_number(s, pos, 1, 12),
    }
}

/// The grammar of a clock reading: an hour, then optionally `:` and a
/// minute, then optionally `:` and a second; once a colon is seen the field
/// after it is required. Omitted fields read as zero.
pub open spec fn spec_parse_hms(s: Seq<char>, pos: int, format: HmsFormat) -> Parsed<(u8, u8, u8)> {
    match spec_hour(s, pos, format) {
        Parsed::Fail { at, kind } => Parsed::Fail { at, kind },
        Parsed::Found { val: h, end: p1 } => if !char_matches(s, p1, ':') {
            Parsed::Found { val: (h as u8, 0u8, 0u8), end: p1 }
        } else {
            match spec_number(s, p1 + 1, 0, 59) {
                Parsed::Fail { at, kind } => Parsed::Fail { at, kind },
                Parsed::Found { val: m, end: p2 } => if !char_matches(s, p2, ':') {
                    Parsed::Found { val: (h as u8, m as u8, 0u8), end: p2 }
                } else {
                    match spec_number(s, p2 + 1, 0, 59) {
                        Parsed::Fail { at, kind } => Parsed::Fail { at, kind },
                        Parsed::Found { val: sec, end: p3 } => Parsed::Found {
                            val: (h as u8, m as u8, sec as u8),
                            end: p3,
                        },
                    }
                },
            }
        },
    }
}

/// Reads a clock reading at `pos` as (hour, minute, second).
pub fn parse_hms(s: &str, pos: usize, format: HmsFormat) -> (r: Result<((u8, u8, u8), usize), ParseError>)
    requires
        pos <= s@.len(),
    ensures
        crate::scan::agrees(r, spec_parse_hms(s@, pos as int, format)),
        r matches Ok((v, end)) ==> pos <= end <= s@.len() && v.0 <= 23 && v.1 <= 59
            && v.2 <= 59,
{
    let (h, p1) = match format {
        HmsFormat::H24 => parse_24(s, pos)?,
        HmsFormat::H12 => parse_12(s, pos)?,
    };
    if !char_at(s, p1, ':') {
        return Ok(((h, 0, 0), p1));
    }
    let (m, p2) = parse_60(s, p1 + 1)?;
    if !char_at(s, p2, ':') {
        return Ok(((h, m, 0), p2));
    }
    let (sec, p3) = parse_60(s, p2 + 1)?;
    Ok(((h, m, sec), p3))
}

} // verus!
