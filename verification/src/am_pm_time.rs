//! A literal 12-hour clock reading: `h[:mm[:ss]]` followed by an am/pm
//! marker.

use vstd::prelude::*;

use crate::am_pm::AmPm;
use crate::civil::{resolves_to, CivilDateTime, Moment, ResolveError};
use crate::parse_hms::{parse_hms, spec_parse_hms, HmsFormat};
use crate::scan::{agrees, space1, spec_space1, Parsed, ParseError};

verus! {

/// A 12-hour clock reading; the hour lies in `[1, 12]` when parsed, and the
/// marker decides the half of the day at resolution.
#[derive(Clone, Copy, Debug, PartialEq, Eq, Structural)]
pub struct AmPmTime {
    pub hour: u8,
    pub minute: u8,
    pub second: u8,
    pub period: AmPm,
}

impl AmPmTime {
    /// The grammar of a 12-hour reading: a clock reading with a 12-hour
    /// hour field, blanks, then the am/pm marker.
    pub open spec fn spec_parse(s: Seq<char>, pos: int) -> Parsed<AmPmTime> {
        match spec_parse_hms(s, pos, HmsFormat::H12) {
            Parsed::Fail { at, kind } => Parsed::Fail { at, kind },
            Parsed::Found { val: hms, end: p1 } => match spec_space1(s, p1) {
                Parsed::Fail { at, kind } => Parsed::Fail { at, kind },
                Parsed::Found { val: _, end: p2 } => match AmPm::spec_parse(s, p2) {
                    Parsed::Fail { at, kind } => Parsed::Fail { at, kind },
                    Parsed::Found { val: period, end: p3 } => Parsed::Found {
                        val: AmPmTime {
                            hour: hms.0,
                            minute: hms.1,
                            second: hms.2,
                            period,
                        },
                        end: p3,
                    },
                },
            },
        }
    }

    /// Reads a 12-hour reading at `pos`.
    pub fn parse_at(s: &str, pos: usize) -> (r: Result<(AmPmTime, usize), ParseError>)
        requires
            pos <= s@.len(),
        ensures
            agrees(r, Self::spec_parse(s@, pos as int)),
            r matches Ok((v, end)) ==> pos <= end <= s@.len(),
    {
        let (hms, p1) = parse_hms(s, pos, HmsFormat::H12)?;
        let (_, p2) = space1(s, p1)?;
        let (period, p3) = AmPm::parse_at(s, p2)?;
        Ok((AmPmTime { hour: hms.0, minute: hms.1, second: hms.2, period }, p3))
    }

    /// The 12-hour reading's hour on the 24-hour clock: 12 AM is
    /// midnight, 12 PM is noon, and a PM hour of 1 through 11 gains 12.
    pub open spec fn spec_hour24(hour: int, period: AmPm) -> int {
        if hour == 12 {
            match period {
                AmPm::Am => 0,
                AmPm::Pm => 12,
            }
        } else {
            match period {
                AmPm::Am => hour,
                AmPm::Pm => hour + 12,
            }
        }
    }

    /// The reading's clock fields are internally consistent.
    pub open spec fn spec_consistent(self) -> bool {
        1 <= self.hour <= 12 && self.minute <= 59 && self.second <= 59
    }

    /// What overlaying the reading on a dated value gives: the same day
    /// with the clock replaced by the reading, converted to the 24-hour
    /// clock; an inconsistent reading is an invalid-time failure.
    pub open spec fn spec_with(self, z: Moment) -> Result<Moment, ResolveError> {
        if self.spec_consistent() {
            Ok(
                Moment {
                    dn: z.dn,
                    sod: 3600 * Self::spec_hour24(self.hour as int, self.period) + 60 * self.minute
                        + self.second,
                },
            )
        } else {
            Err(ResolveError::InvalidTime)
        }
    }

    /// Replaces the clock of `zoned` with this reading, keeping its date.
    pub fn with_zoned(&self, zoned: &CivilDateTime) -> (r: Result<CivilDateTime, ResolveError>)
        requires
            zoned.wf(),
        ensures
            resolves_to(r, self.spec_with(zoned.moment())),
    {
        if self.hour < 1 || self.hour > 12 || self.minute > 59 || self.second > 59 {
            return Err(ResolveError::InvalidTime);
        }
        let hour24: u8 = if self.hour == 12 {
            match self.period {
                AmPm::Am => 0,
                AmPm::Pm => 12,
            }
        } else {
            match self.period {
                AmPm::Am => self.hour,
                AmPm::Pm => self.hour + 12,
            }
        };
        Ok(
            CivilDateTime {
                year: zoned.year,
                month: zoned.month,
                day: zoned.day,
                hour: hour24,
                minute: self.minute,
                second: self.second,
            },
        )
    }

    /// Equivalence of the 12-hour and 24-hour clocks: 12 AM resolves to
    /// the zeroth hour, 12 PM to the twelfth, and a PM hour of 1 through
    /// 11 to that hour plus twelve, so that on any dated value the
    /// overlaid clock reads exactly those hours.
    pub proof fn lemma_twelve_hour_clock(h: u8, minute: u8, second: u8, z: Moment)
        requires
            1 <= h <= 11,
            minute <= 59,
            second <= 59,
        ensures
            Self::spec_hour24(12, AmPm::Am) == 0,
            Self::spec_hour24(12, AmPm::Pm) == 12,
            Self::spec_hour24(h as int, AmPm::Pm) == h + 12,
            (AmPmTime { hour: 12, minute, second, period: AmPm::Am }).spec_with(z)
                == Ok::<Moment, ResolveError>(
                Moment { dn: z.dn, sod: 60 * minute + second },
            ),
            (AmPmTime { hour: 12, minute, second, period: AmPm::Pm }).spec_with(z)
                == Ok::<Moment, ResolveError>(
                Moment { dn: z.dn, sod: 12 * 3600 + 60 * minute + second },
            ),
            (AmPmTime { hour: h, minute, second, period: AmPm::Pm }).spec_with(z)
                == Ok::<Moment, ResolveError>(
                Moment { dn: z.dn, sod: (h + 12) * 3600 + 60 * minute + second },
            ),
    {
    }

    /// Reads a 12-hour reading at the start of `input` and gives back the
    /// remaining input beside it.
    pub fn parse(input: &str) -> (r: Result<(&str, AmPmTime), ParseError>)
        ensures
            match r {
                Ok((rest, v)) => (Self::spec_parse(input@, 0) matches Parsed::Found {
                    val, end } && val == v && rest@ == input@.skip(end)),
                Err(e) => Self::spec_parse(input@, 0) == (Parsed::Fail::<AmPmTime> {
                    at: e.at as int, kind: e.kind }),
            },
    {
        let (v, end) = Self::parse_at(input, 0)?;
        Ok((crate::scan::rest_of(input, end), v))
    }
}

} // verus!
