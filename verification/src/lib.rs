//! A small engine that turns short English phrases describing a point in
//! time ("10 days ago at the next 10 hours", "in 2 months at 8:30 PM in
//! UTC-8", "next monday", "now") into an absolute, timezone-aware instant.
//!
//! The work happens in two stages: a recursive-descent grammar parses the
//! phrase into a typed syntax tree ([`WhenInput`]), and a resolution engine
//! evaluates that tree against a reference instant and a timezone, producing
//! a concrete timestamp ([`AbsoluteTimestamp`]). Both stages are verified;
//! only the IANA timezone-database lookups are delegated to the `jiff` crate
//! through a few trusted declarations.

mod am_pm;
mod am_pm_time;
mod civil;
mod date_duration;
mod date_kind;
mod gmt_time;
mod month;
mod parse_hms;
mod scan;
mod time_duration;
mod time_kind;
mod weekday;
mod when_date;
mod when_exact_date;
mod when_exact_time;
mod when_input;
mod when_named_timezone;
mod when_relative_date;
mod when_relative_time;
mod when_time;
mod when_timezone;
mod when_utc_offset;

pub use am_pm::AmPm;
pub use am_pm_time::AmPmTime;
pub use civil::{CivilDateTime, Moment, ResolveError};
pub use date_duration::DateDuration;
pub use date_kind::DateKind;
pub use gmt_time::GmtTime;
pub use month::Month;
pub use parse_hms::{parse_24, parse_60, parse_hms, HmsFormat};
pub use scan::{ErrorKind, ParseError, Parsed};
pub use time_duration::TimeDuration;
pub use time_kind::TimeKind;
pub use weekday::Weekday;
pub use when_date::WhenDate;
pub use when_exact_date::WhenExactDate;
pub use when_exact_time::WhenExactTime;
pub use when_input::{
    fixed_outcome, spec_resolve_at_offset, AbsoluteTimestamp, WhenInput, WhenInputTime,
    WhenInputView,
};
pub use when_named_timezone::WhenNamedTimezone;
pub use when_relative_date::WhenRelativeDate;
pub use when_relative_time::WhenRelativeTime;
pub use when_time::WhenTime;
pub use when_timezone::{WhenTimezone, WhenTimezoneView};
pub use when_utc_offset::{WhenUtcOffset, WhenUtcOffsetSign};

use vstd::prelude::*;

verus! {

/// Everything that can go wrong between a phrase and a timestamp: the
/// grammar rejects the text, or the resolution engine cannot materialise
/// the parsed tree.
#[derive(Clone, Copy, Debug, PartialEq, Eq, Structural)]
pub enum WhenError {
    Parse(ParseError),
    Resolve(ResolveError),
}

/// What `parse_and_resolve` must return for a given text and reference
/// instant: the grammar's verdict first, and on a successful parse the
/// resolution outcome for the parsed tree, at UTC when no timezone clause
/// is present, at the written fixed offset otherwise; a named zone's
/// outcome rests with the timezone database.
pub open spec fn spec_parse_and_resolve_outcome(
    text: Seq<char>,
    now_epoch: int,
    r: Result<AbsoluteTimestamp, WhenError>,
) -> bool {
    match WhenInput::spec_parse(text) {
        Parsed::Fail { at, kind } => match r {
            Err(WhenError::Parse(e)) => e.at as int == at && e.kind == kind,
            _ => false,
        },
        Parsed::Found { val: v, end } => match v.timezone {
            None => match r {
                Ok(a) => fixed_outcome(Ok(a), v.time, now_epoch, 0),
                Err(WhenError::Resolve(e)) => fixed_outcome(Err(e), v.time, now_epoch, 0),
                Err(WhenError::Parse(_)) => false,
            },
            Some(WhenTimezoneView::UtcOffset(o)) => match r {
                Ok(a) => fixed_outcome(Ok(a), v.time, now_epoch, o.spec_to_seconds()),
                Err(WhenError::Resolve(e)) => fixed_outcome(
                    Err(e),
                    v.time,
                    now_epoch,
                    o.spec_to_seconds(),
                ) || (!o.valid() && e == ResolveError::OutOfRange),
                Err(WhenError::Parse(_)) => false,
            },
            Some(WhenTimezoneView::Named(_)) => match r {
                Err(WhenError::Parse(_)) => false,
                Err(WhenError::Resolve(_)) => true,
                Ok(a) => a.datetime.wf() && -93599 <= a.offset_seconds <= 93599 && (exists|
                    off: int,
                |
                    -93599 <= off <= 93599 && spec_resolve_at_offset(v.time, now_epoch, off)
                        == Ok::<Moment, ResolveError>(a.datetime.moment())),
            },
        },
    }
}

/// Parses a phrase and resolves it against the reference instant, given
/// as seconds since the Unix epoch.
pub fn parse_and_resolve(text: &str, now_epoch_second: i64) -> (r: Result<
    AbsoluteTimestamp,
    WhenError,
>)
    ensures
        spec_parse_and_resolve_outcome(text@, now_epoch_second as int, r),
{
    let (_, input) = match WhenInput::parse(text) {
        Ok(x) => x,
        Err(e) => return Err(WhenError::Parse(e)),
    };
    match input.to_timestamp(now_epoch_second) {
        Ok(a) => Ok(a),
        Err(e) => Err(WhenError::Resolve(e)),
    }
}

} // verus!
