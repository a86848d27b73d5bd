//! The recommended minimum navigation sentence.

use vstd::prelude::*;
use vstd::string::StringSliceAdditionalSpecFns;
use crate::calendar::{optional_date, optional_date_of, CalendarDate};
use crate::clock::{optional_time_of_day, optional_time_of_day_of, TimeOfDay};
use crate::codes::{
    faa_mode, faa_mode_of, nav_status, nav_status_of, status, status_of, FaaMode, NavStatus,
    Status,
};
use crate::decimal::{
    decimal_of, optional_decimal, optional_decimal_of, parse_decimal, Decimal, DecimalValue,
};
use crate::error::{lift, ErrorKind, Fault, FieldError};
use crate::fields::{split_commas, Fields};
use crate::position::{location, location_of, Location, LocationValue, EAST, WEST};
use crate::slot::{advances_lifted, direction, field_at, signed_pair};

verus! {

/// What the magnetic variation at `at` decodes to.
///
/// Two fields make it up, the magnitude and the letter `E` or `W`. An empty
/// magnitude is no value. A magnitude with `E` is the number as written, one
/// with `W` the number with the opposite sign. A magnitude that is no
/// number, or one that any other letter field follows, is a fault at the
/// field in question.
pub open spec fn magnetic_variation_of(fields: Seq<Seq<u8>>, at: int) -> Result<
    Option<DecimalValue>,
    Fault,
> {
    match signed_pair(fields, at, |text: Seq<u8>| decimal_of(text), EAST, WEST) {
        Err(fault) => Err(fault),
        Ok(None) => Ok(None),
        Ok(Some((magnitude, negate))) => Ok(
            Some(
                if negate {
                    magnitude.negated()
                } else {
                    magnitude
                },
            ),
        ),
    }
}

/// Decodes the magnetic variation at `at`. It reads two fields.
pub fn magnetic_variation(fields: &Fields, at: usize) -> (outcome: Result<
    (Option<Decimal>, usize),
    FieldError,
>)
    ensures
        advances_lifted(outcome, at, 2, magnetic_variation_of(fields@, at as int)),
        outcome matches Ok((Some(number), _)) ==> number@.well_formed(),
{
    match field_at(fields, at) {
        Err(error) => Err(error),
        Ok(text) => {
            if text.len() == 0 {
                if at + 1 < fields.len() {
                    Ok((None, at + 2))
                } else {
                    Err(FieldError { position: fields.len(), kind: ErrorKind::Truncated })
                }
            } else {
                match parse_decimal(text) {
                    None => Err(FieldError { position: at, kind: ErrorKind::MalformedScalar }),
                    Some(magnitude) => match direction(fields, at + 1, EAST, WEST) {
                        Err(error) => Err(error),
                        Ok(negate) => {
                            let number = if negate {
                                magnitude.negated()
                            } else {
                                magnitude
                            };
                            Ok((Some(number), at + 2))
                        },
                    },
                }
            }
        },
    }
}

/// The recommended minimum navigation information of one sentence.
///
/// The two parameters fix the revision of the protocol when the program is
/// built. With `FAA` the sentence carries the mode indicator that revision
/// 2.3 added, with `NAV` the navigation status that revision 4.11 added. A
/// record of a revision without one of them always has `None` in its place.
#[derive(Clone, Debug, PartialEq, Eq)]
pub struct RMC<const FAA: bool, const NAV: bool> {
    /// The time of the fix, in UTC.
    pub fix_time: Option<TimeOfDay>,
    /// Whether the receiver vouches for the fix.
    pub status: Status,
    /// Latitude and longitude.
    pub location: Option<Location>,
    /// The speed over ground, in knots.
    pub speed_over_ground: Option<Decimal>,
    /// The course over ground, in degrees.
    pub course_over_ground: Option<Decimal>,
    /// The date of the fix, in UTC.
    pub fix_date: Option<CalendarDate>,
    /// The magnetic variation in degrees, positive towards east.
    pub magnetic_variation: Option<Decimal>,
    /// How the fix was obtained.
    pub faa_mode: Option<FaaMode>,
    /// Whether the position may be relied on for navigation.
    pub nav_status: Option<NavStatus>,
}

/// The mathematical counterpart of [`RMC`].
pub struct RmcValue {
    pub fix_time: Option<TimeOfDay>,
    pub status: Status,
    pub location: Option<LocationValue>,
    pub speed_over_ground: Option<DecimalValue>,
    pub course_over_ground: Option<DecimalValue>,
    pub fix_date: Option<CalendarDate>,
    pub magnetic_variation: Option<DecimalValue>,
    pub faa_mode: Option<FaaMode>,
    pub nav_status: Option<NavStatus>,
}

impl<const FAA: bool, const NAV: bool> View for RMC<FAA, NAV> {
    type V = RmcValue;

    open spec fn view(&self) -> RmcValue {
        RmcValue {
            fix_time: self.fix_time,
            status: self.status,
            location: lift(self.location),
            speed_over_ground: lift(self.speed_over_ground),
            course_over_ground: lift(self.course_over_ground),
            fix_date: self.fix_date,
            magnetic_variation: lift(self.magnetic_variation),
            faa_mode: self.faa_mode,
            nav_status: self.nav_status,
        }
    }
}

impl RmcValue {
    /// What every decoded record satisfies: each part that is present is
    /// well formed.
    pub open spec fn well_formed(self) -> bool {
        &&& self.fix_time matches Some(time) ==> time.well_formed()
        &&& self.location matches Some(place) ==> place.well_formed()
        &&& self.speed_over_ground matches Some(number) ==> number.well_formed()
        &&& self.course_over_ground matches Some(number) ==> number.well_formed()
        &&& self.fix_date matches Some(date) ==> date.well_formed()
        &&& self.magnetic_variation matches Some(number) ==> number.well_formed()
    }
}

impl<const FAA: bool, const NAV: bool> Default for RMC<FAA, NAV> {
    /// The record of a sentence that says nothing: no part is present and
    /// the status is `Invalid`.
    fn default() -> (record: Self)
        ensures
            record@ == (RmcValue {
                fix_time: None,
                status: Status::Invalid,
                location: None,
                speed_over_ground: None,
                course_over_ground: None,
                fix_date: None,
                magnetic_variation: None,
                faa_mode: None,
                nav_status: None,
            }),
            record.well_formed(),
    {
        RMC {
            fix_time: None,
            status: Status::Invalid,
            location: None,
            speed_over_ground: None,
            course_over_ground: None,
            fix_date: None,
            magnetic_variation: None,
            faa_mode: None,
            nav_status: None,
        }
    }
}

impl<const FAA: bool, const NAV: bool> RMC<FAA, NAV> {
    /// Whether the record is one that decoding can yield: its parts are
    /// well formed, and a part that the revision lacks is absent.
    pub open spec fn well_formed(&self) -> bool {
        &&& self@.well_formed()
        &&& !FAA ==> self.faa_mode is None
        &&& !NAV ==> self.nav_status is None
    }

    /// The number of fields that a record of this revision is read from.
    pub open spec fn width() -> int {
        11 + (if FAA {
            1int
        } else {
            0int
        }) + (if NAV {
            1int
        } else {
            0int
        })
    }

    /// What the fields from `at` on decode to.
    ///
    /// The fields are read once, from left to right: each part of the record
    /// starts where the one before it stopped, and the first fault ends the
    /// reading. Fields behind the last part are not looked at.
    pub open spec fn decoded(fields: Seq<Seq<u8>>, at: int) -> Result<RmcValue, Fault> {
        match optional_time_of_day_of(fields, at) {
            Err(fault) => Err(fault),
            Ok(fix_time) => match status_of(fields, at + 1) {
                Err(fault) => Err(fault),
                Ok(status) => match location_of(fields, at + 2) {
                    Err(fault) => Err(fault),
                    Ok(location) => match optional_decimal_of(fields, at + 6) {
                        Err(fault) => Err(fault),
                        Ok(speed_over_ground) => match optional_decimal_of(fields, at + 7) {
                            Err(fault) => Err(fault),
                            Ok(course_over_ground) => match optional_date_of(fields, at + 8) {
                                Err(fault) => Err(fault),
                                Ok(fix_date) => match magnetic_variation_of(fields, at + 9) {
                                    Err(fault) => Err(fault),
                                    Ok(magnetic_variation) => match Self::faa_mode_part(
                                        fields,
                                        at + 11,
                                    ) {
                                        Err(fault) => Err(fault),
                                        Ok(faa_mode) => match Self::nav_status_part(
                                            fields,
                                            at + 11 + (if FAA {
                                                1int
                                            } else {
                                                0int
                                            }),
                                        ) {
                                            Err(fault) => Err(fault),
                                            Ok(nav_status) => Ok(
                                                RmcValue {
                                                    fix_time,
                                                    status,
                                                    location,
                                                    speed_over_ground,
                                                    course_over_ground,
                                                    fix_date,
                                                    magnetic_variation,
                                                    faa_mode,
                                                    nav_status,
                                                },
                                            ),
                                        },
                                    },
                                },
                            },
                        },
                    },
                },
            },
        }
    }

    /// The mode indicator: read at `at` in a revision that has it, and
    /// otherwise absent without a field being read.
    pub open spec fn faa_mode_part(fields: Seq<Seq<u8>>, at: int) -> Result<
        Option<FaaMode>,
        Fault,
    > {
        if FAA {
            faa_mode_of(fields, at)
        } else {
            Ok(None)
        }
    }

    /// The navigation status, in the same way.
    pub open spec fn nav_status_part(fields: Seq<Seq<u8>>, at: int) -> Result<
        Option<NavStatus>,
        Fault,
    > {
        if NAV {
            nav_status_of(fields, at)
        } else {
            Ok(None)
        }
    }

    /// Decodes a record from the fields at `at` on. It reads `width()`
    /// fields and yields the index behind them.
    pub fn decode(fields: &Fields, at: usize) -> (outcome: Result<(Self, usize), FieldError>)
        ensures
            match outcome {
                Ok((record, next)) => Self::decoded(fields@, at as int) == Ok::<RmcValue, Fault>(
                    record@,
                ) && next == at + Self::width(),
                Err(error) => Self::decoded(fields@, at as int) == Err::<RmcValue, Fault>(error@),
            },
            outcome matches Ok((record, _)) ==> record.well_formed(),
    {
        let (fix_time, next) = match optional_time_of_day(fields, at) {
            Ok(part) => part,
            Err(error) => return Err(error),
        };
        let (status, next) = match status(fields, next) {
            Ok(part) => part,
            Err(error) => return Err(error),
        };
        let (location, next) = match location(fields, next) {
            Ok(part) => part,
            Err(error) => return Err(error),
        };
        let (speed_over_ground, next) = match optional_decimal(fields, next) {
            Ok(part) => part,
            Err(error) => return Err(error),
        };
        let (course_over_ground, next) = match optional_decimal(fields, next) {
            Ok(part) => part,
            Err(error) => return Err(error),
        };
        let (fix_date, next) = match optional_date(fields, next) {
            Ok(part) => part,
            Err(error) => return Err(error),
        };
        let (magnetic_variation, next) = match magnetic_variation(fields, next) {
            Ok(part) => part,
            Err(error) => return Err(error),
        };
        let (faa_mode, next) = if FAA {
            match faa_mode(fields, next) {
                Ok(part) => part,
                Err(error) => return Err(error),
            }
        } else {
            (None, next)
        };
        let (nav_status, next) = if NAV {
            match nav_status(fields, next) {
                Ok(part) => part,
                Err(error) => return Err(error),
            }
        } else {
            (None, next)
        };
        Ok(
            (
                RMC {
                    fix_time,
                    status,
                    location,
                    speed_over_ground,
                    course_over_ground,
                    fix_date,
                    magnetic_variation,
                    faa_mode,
                    nav_status,
                },
                next,
            ),
        )
    }

    /// Decodes a record from a sentence body: the text between the sentence
    /// identifier and the checksum, with commas between the fields.
    pub fn parse(body: &str) -> (outcome: Result<Self, FieldError>)
        ensures
            match outcome {
                Ok(record) => Self::decoded(split_commas(body.spec_bytes()), 0) == Ok::<
                    RmcValue,
                    Fault,
                >(record@),
                Err(error) => Self::decoded(split_commas(body.spec_bytes()), 0) == Err::<
                    RmcValue,
                    Fault,
                >(error@),
            },
            outcome matches Ok(record) ==> record.well_formed(),
    {
        let fields = Fields::split(body.as_bytes());
        match Self::decode(&fields, 0) {
            Ok((record, _)) => Ok(record),
            Err(error) => Err(error),
        }
    }
}

} // verus!
