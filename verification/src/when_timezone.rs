//! A timezone clause: a fixed UTC offset or a named zone identifier.

use vstd::prelude::*;

use crate::civil::ResolveError;
use crate::scan::{merge_fail, or_else, Parsed, ParseError};
use crate::when_named_timezone::WhenNamedTimezone;
use crate::when_utc_offset::WhenUtcOffset;

verus! {

/// A fixed-offset timezone value. Relies on jiff::tz::Offset::from_seconds,
/// which accepts exactly the seconds in [-93599, 93599], and on
/// jiff::tz::TimeZone::fixed.
#[verifier::external_body]
pub(crate) fn fixed_timezone(seconds: i32) -> (r: jiff::tz::TimeZone)
    requires
        -93599 <= seconds <= 93599,
{
    match jiff::tz::Offset::from_seconds(seconds) {
        Ok(o) => jiff::tz::TimeZone::fixed(o),
        Err(_) => jiff::tz::TimeZone::UTC,
    }
}

/// The zone's UTC offset at an instant, in seconds. Relies on
/// jiff::Timestamp::from_second, which succeeds exactly on jiff's
/// representable range of timestamp seconds, and on
/// jiff::tz::TimeZone::to_offset, which is total, and
/// jiff::tz::Offset::seconds, whose result lies in [-93599, 93599] by the
/// documented range of offsets.
#[verifier::external_body]
pub(crate) fn zone_offset_at(tz: &jiff::tz::TimeZone, epoch_second: i64) -> (r: Option<i32>)
    ensures
        r matches Some(off) ==> -93599 <= off <= 93599,
        (r is Some) <==> -377_705_023_201 <= epoch_second <= 253_402_207_200,
{
    match jiff::Timestamp::from_second(epoch_second) {
        Ok(ts) => Some(tz.to_offset(ts).seconds()),
        Err(_) => None,
    }
}

/// The instant and offset the zone assigns to a civil date-time, gaps and
/// folds resolved as jiff's compatible strategy does. Relies on
/// jiff::civil::DateTime::new, jiff::tz::TimeZone::to_zoned,
/// jiff::Zoned::timestamp and jiff::Zoned::offset: the instant lies within
/// jiff's documented range of timestamp seconds and the offset within
/// [-93599, 93599].
#[verifier::external_body]
pub(crate) fn zone_instant_of_civil(
    tz: &jiff::tz::TimeZone,
    year: i16,
    month: i8,
    day: i8,
    hour: i8,
    minute: i8,
    second: i8,
) -> (r: Option<(i64, i32)>)
    ensures
        r matches Some(v) ==> -377_705_023_201 <= v.0 <= 253_402_207_200 && -93599 <= v.1 <= 93599,
{
    let dt = match jiff::civil::DateTime::new(year, month, day, hour, minute, second, 0) {
        Ok(dt) => dt,
        Err(_) => return None,
    };
    match tz.to_zoned(dt) {
        Ok(z) => Some((z.timestamp().as_second(), z.offset().seconds())),
        Err(_) => None,
    }
}

#[derive(Clone, Debug, PartialEq, Eq)]
pub enum WhenTimezone {
    UtcOffset(WhenUtcOffset),
    Named(WhenNamedTimezone),
}

/// The ghost shape of a timezone clause: the offset itself, or the name's
/// characters.
pub enum WhenTimezoneView {
    UtcOffset(WhenUtcOffset),
    Named(Seq<char>),
}

impl View for WhenTimezone {
    type V = WhenTimezoneView;

    open spec fn view(&self) -> WhenTimezoneView {
        match self {
            WhenTimezone::UtcOffset(o) => WhenTimezoneView::UtcOffset(*o),
            WhenTimezone::Named(n) => WhenTimezoneView::Named(n.name@),
        }
    }
}

impl WhenTimezone {
    /// The grammar of a timezone clause: the fixed-offset form first, then
    /// a free-form zone identifier.
    pub open spec fn spec_parse(s: Seq<char>, pos: int) -> Parsed<WhenTimezoneView> {
        or_else(
            match WhenUtcOffset::spec_parse(s, pos) {
                Parsed::Found { val, end } => Parsed::Found {
                    val: WhenTimezoneView::UtcOffset(val),
                    end,
                },
                Parsed::Fail { at, kind } => Parsed::Fail { at, kind },
            },
            match WhenNamedTimezone::spec_parse(s, pos) {
                Parsed::Found { val, end } => Parsed::Found {
                    val: WhenTimezoneView::Named(val),
                    end,
                },
                Parsed::Fail { at, kind } => Parsed::Fail { at, kind },
            },
        )
    }

    /// Reads a timezone clause at `pos`.
    pub fn parse_at(s: &str, pos: usize) -> (r: Result<(WhenTimezone, usize), ParseError>)
        requires
            pos <= s@.len(),
        ensures
            match r {
                Ok((v, end)) => Self::spec_parse(s@, pos as int) == (Parsed::Found {
                    val: v@, end: end as int }) && pos <= end <= s@.len(),
                Err(e) => Self::spec_parse(s@, pos as int) == (Parsed::Fail::<WhenTimezoneView> {
                    at: e.at as int, kind: e.kind }),
            },
    {
        let e1 = match WhenUtcOffset::parse_at(s, pos) {
            Ok((o, end)) => return Ok((WhenTimezone::UtcOffset(o), end)),
            Err(e) => e,
        };
        let e2 = match WhenNamedTimezone::parse_at(s, pos) {
            Ok((n, end)) => return Ok((WhenTimezone::Named(n), end)),
            Err(e) => e,
        };
        Err(merge_fail(e1, e2))
    }

    /// Resolves the clause to a timezone value: a fixed offset directly,
    /// a named zone through the timezone database, which alone decides
    /// whether the name is known.
    pub fn to_timezone(&self) -> (r: Result<jiff::tz::TimeZone, ResolveError>)
        ensures
            self matches WhenTimezone::UtcOffset(o) ==> ((r is Ok) <==> -93599
                <= o.spec_to_seconds() <= 93599),
            self matches WhenTimezone::UtcOffset(o) && o.valid() ==> r is Ok,
            self matches WhenTimezone::Named(_) ==> (r matches Err(e) ==> e
                == ResolveError::UnknownTimezone),
    {
        match self {
            WhenTimezone::UtcOffset(o) => o.to_timezone(),
            WhenTimezone::Named(n) => n.to_timezone(),
        }
    }

    /// Reads a timezone clause at the start of `input` and gives back the
    /// remaining input beside it.
    pub fn parse(input: &str) -> (r: Result<(&str, WhenTimezone), ParseError>)
        ensures
            match r {
                Ok((rest, v)) => (Self::spec_parse(input@, 0) matches Parsed::Found {
                    val, end } && val == v@ && rest@ == input@.skip(end)),
                Err(e) => Self::spec_parse(input@, 0) == (Parsed::Fail::<WhenTimezoneView> {
                    at: e.at as int, kind: e.kind }),
            },
    {
        let (v, end) = Self::parse_at(input, 0)?;
        Ok((crate::scan::rest_of(input, end), v))
    }
}

} // verus!
