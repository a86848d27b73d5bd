//! Geographic coordinates, written as degrees and minutes with a
//! hemisphere letter.

use vstd::prelude::*;
use crate::decimal::{are_digit_values, lemma_digit_values_are_digits};
use crate::digits::{
    all_digits, digit_run, digit_values, digits_between, lemma_digit_run, number_of, pair_value,
    pow10, two_digits, POINT,
};
use crate::error::{lift, ErrorKind, Fault, FieldError};
use crate::fields::Fields;
use crate::slot::{advances_lifted, direction, field_at, signed_pair};

verus! {

/// The letter of the northern hemisphere, which counts as positive.
pub const NORTH: u8 = 78;

/// The letter of the southern hemisphere, which counts as negative.
pub const SOUTH: u8 = 83;

/// The letter of the eastern hemisphere, which counts as positive.
pub const EAST: u8 = 69;

/// The letter of the western hemisphere, which counts as negative.
pub const WEST: u8 = 87;

/// One coordinate: whole degrees, whole minutes and the digits of the
/// fraction of a minute, exact to the last digit.
///
/// In degrees the angle is `degrees + minutes / 60`, the fraction counted
/// with the minutes, and negative in the southern and western hemispheres.
#[derive(Clone, Debug, PartialEq, Eq)]
pub struct Angle {
    /// Whether the angle lies south of the equator or west of Greenwich.
    pub negative: bool,
    /// The whole degrees.
    pub degrees: u16,
    /// The whole minutes.
    pub minutes: u8,
    /// The digits behind the point of the minutes.
    pub minute_fraction: Vec<u8>,
}

/// The mathematical counterpart of [`Angle`].
pub struct AngleValue {
    pub negative: bool,
    pub degrees: int,
    pub minutes: int,
    pub minute_fraction: Seq<u8>,
}

impl View for Angle {
    type V = AngleValue;

    open spec fn view(&self) -> AngleValue {
        AngleValue {
            negative: self.negative,
            degrees: self.degrees as int,
            minutes: self.minutes as int,
            minute_fraction: self.minute_fraction@,
        }
    }
}

impl AngleValue {
    /// What every decoded angle satisfies: degrees of at most three digits,
    /// minutes of two, and digits behind the point that are digits.
    pub open spec fn well_formed(self) -> bool {
        &&& 0 <= self.degrees <= 999
        &&& 0 <= self.minutes <= 99
        &&& are_digit_values(self.minute_fraction)
    }

    /// How many units a minute is divided into: one for each value that
    /// the digits behind the point can take.
    pub open spec fn units_per_minute(self) -> nat {
        pow10(self.minute_fraction.len())
    }

    /// The angle as a whole number of those units. Divided by
    /// `60 * units_per_minute()` this is the angle in degrees.
    pub open spec fn units(self) -> int {
        let size = (self.degrees * 60 + self.minutes) * self.units_per_minute() + number_of(
            self.minute_fraction,
        );
        if self.negative {
            -size
        } else {
            size
        }
    }

    /// The same angle in the hemisphere that `negative` names.
    pub open spec fn towards(self, negative: bool) -> AngleValue {
        AngleValue { negative, ..self }
    }
}

/// A position on the globe.
#[derive(Clone, Debug, PartialEq, Eq)]
pub struct Location {
    /// The angle from the equator, positive towards north.
    pub latitude: Angle,
    /// The angle from Greenwich, positive towards east.
    pub longitude: Angle,
}

/// The mathematical counterpart of [`Location`].
pub struct LocationValue {
    pub latitude: AngleValue,
    pub longitude: AngleValue,
}

impl LocationValue {
    /// Whether both angles are well formed.
    pub open spec fn well_formed(self) -> bool {
        self.latitude.well_formed() && self.longitude.well_formed()
    }
}

impl View for Location {
    type V = LocationValue;

    open spec fn view(&self) -> LocationValue {
        LocationValue { latitude: self.latitude@, longitude: self.longitude@ }
    }
}

/// The magnitude that `text` writes with `degree_digits` digits for the
/// degrees, if it writes one. It lies in the positive hemisphere.
///
/// The text is the digits of the degrees and two digits for the minutes,
/// and then either ends or goes on with a point and any number of digits.
pub open spec fn angle_of(text: Seq<u8>, degree_digits: int) -> Option<AngleValue> {
    let whole = degree_digits + 2;
    if text.len() >= whole && all_digits(text.subrange(0, whole)) && (text.len() == whole || (
    text[whole] == POINT && all_digits(text.subrange(whole + 1, text.len() as int)))) {
        Some(
            AngleValue {
                negative: false,
                degrees: number_of(digit_values(text.subrange(0, degree_digits))) as int,
                minutes: pair_value(text, degree_digits),
                minute_fraction: if text.len() == whole {
                    Seq::<u8>::empty()
                } else {
                    digit_values(text.subrange(whole + 1, text.len() as int))
                },
            },
        )
    } else {
        None
    }
}

/// Reads `text` as a magnitude with two or three digits for the degrees.
fn parse_angle(text: &[u8], degree_digits: usize) -> (angle: Option<Angle>)
    requires
        2 <= degree_digits <= 3,
    ensures
        lift(angle) == angle_of(text@, degree_digits as int),
        angle matches Some(a) ==> a@.well_formed(),
{
    let len = text.len();
    let whole = degree_digits + 2;
    if len < whole {
        return None;
    }
    let run = digit_run(text, 0);
    proof {
        lemma_digit_run(text@, 0);
        if run < whole {
            assert(text@.subrange(0, whole as int)[run as int] == text@[run as int]);
        } else {
            assert forall|i: int| 0 <= i < whole implies crate::digits::is_digit(
                #[trigger] text@.subrange(0, whole as int)[i],
            ) by {
                assert(text@.subrange(0, run as int)[i] == text@[i]);
            }
        }
    }
    if run < whole {
        return None;
    }
    proof {
        assert forall|i: int| 0 <= i < whole implies crate::digits::is_digit(text@[i]) by {
            assert(text@.subrange(0, whole as int)[i] == text@[i]);
        }
    }
    let minute_fraction: Vec<u8> = if len == whole {
        Vec::new()
    } else if text[whole] == POINT {
        let end = digit_run(text, whole + 1);
        proof {
            lemma_digit_run(text@, whole + 1);
            if end < len {
                assert(text@.subrange(whole + 1, len as int)[end - (whole + 1)] == text@[end as int]);
            } else {
                assert(text@.subrange(whole + 1, end as int) == text@.subrange(
                    whole + 1,
                    len as int,
                ));
            }
        }
        if end < len {
            return None;
        }
        proof {
            lemma_digit_values_are_digits(text@.subrange(whole + 1, len as int));
        }
        digits_between(text, whole + 1, len)
    } else {
        return None;
    };
    let degrees: u16 = if degree_digits == 2 {
        two_digits(text, 0) as u16
    } else {
        (text[0] - 48) as u16 * 100 + two_digits(text, 1) as u16
    };
    let minutes = two_digits(text, degree_digits);
    proof {
        let written = digit_values(text@.subrange(0, degree_digits as int));
        reveal_with_fuel(number_of, 4);
        if degree_digits == 2 {
            assert(written.drop_last() =~= seq![(text@[0] - 48) as u8]);
            assert(written.drop_last().drop_last() =~= Seq::<u8>::empty());
        } else {
            assert(written.drop_last() =~= seq![(text@[0] - 48) as u8, (text@[1] - 48) as u8]);
            assert(written.drop_last().drop_last() =~= seq![(text@[0] - 48) as u8]);
            assert(written.drop_last().drop_last().drop_last() =~= Seq::<u8>::empty());
        }
    }
    Some(Angle { negative: false, degrees, minutes, minute_fraction })
}

/// What a coordinate at `at` decodes to, given the digits of its degrees
/// and the letters of its axis.
///
/// Two fields make it up, the magnitude and the hemisphere letter. An empty
/// magnitude is no value. A magnitude with the positive letter is the angle
/// as written, one with the negative letter the angle in the negative
/// hemisphere. A magnitude that is malformed, or one that any other letter
/// field follows, is a fault at the field in question.
pub open spec fn coordinate_of(
    fields: Seq<Seq<u8>>,
    at: int,
    degree_digits: int,
    positive: u8,
    negative: u8,
) -> Result<Option<AngleValue>, Fault> {
    match signed_pair(
        fields,
        at,
        |text: Seq<u8>| angle_of(text, degree_digits),
        positive,
        negative,
    ) {
        Err(fault) => Err(fault),
        Ok(None) => Ok(None),
        Ok(Some((magnitude, negate))) => Ok(Some(magnitude.towards(negate))),
    }
}

/// Decodes one coordinate at `at`.
fn coordinate(fields: &Fields, at: usize, degree_digits: usize, positive: u8, negative: u8) -> (outcome:
    Result<(Option<Angle>, usize), FieldError>)
    requires
        2 <= degree_digits <= 3,
    ensures
        advances_lifted(
            outcome,
            at,
            2,
            coordinate_of(fields@, at as int, degree_digits as int, positive, negative),
        ),
        outcome matches Ok((Some(angle), _)) ==> angle@.well_formed(),
{
    match field_at(fields, at) {
        Err(error) => Err(error),
        Ok(text) => {
            if text.len() == 0 {
                if at + 1 < fields.len() {
                    Ok((None, at + 2))
                } else {
                    Err(FieldError { position: fields.len(), kind: ErrorKind::Truncated })
                }
            } else {
                match parse_angle(text, degree_digits) {
                    None => Err(FieldError { position: at, kind: ErrorKind::MalformedScalar }),
                    Some(magnitude) => match direction(fields, at + 1, positive, negative) {
                        Err(error) => Err(error),
                        Ok(negate) => Ok(
                            (
                                Some(
                                    Angle {
                                        negative: negate,
                                        degrees: magnitude.degrees,
                                        minutes: magnitude.minutes,
                                        minute_fraction: magnitude.minute_fraction,
                                    },
                                ),
                                at + 2,
                            ),
                        ),
                    },
                }
            }
        },
    }
}

/// What the latitude at `at` decodes to: two digits of degrees, and `N`
/// or `S`.
pub open spec fn latitude_of(fields: Seq<Seq<u8>>, at: int) -> Result<Option<AngleValue>, Fault> {
    coordinate_of(fields, at, 2, NORTH, SOUTH)
}

/// What the longitude at `at` decodes to: three digits of degrees, and `E`
/// or `W`.
pub open spec fn longitude_of(fields: Seq<Seq<u8>>, at: int) -> Result<Option<AngleValue>, Fault> {
    coordinate_of(fields, at, 3, EAST, WEST)
}

/// What the location at `at` decodes to: the latitude, then the longitude.
/// The first fault of either is the fault of the location. Where either
/// magnitude is empty there is no location.
pub open spec fn location_of(fields: Seq<Seq<u8>>, at: int) -> Result<
    Option<LocationValue>,
    Fault,
> {
    match latitude_of(fields, at) {
        Err(fault) => Err(fault),
        Ok(latitude) => match longitude_of(fields, at + 2) {
            Err(fault) => Err(fault),
            Ok(longitude) => Ok(
                match (latitude, longitude) {
                    (Some(latitude), Some(longitude)) => Some(
                        LocationValue { latitude, longitude },
                    ),
                    _ => None,
                },
            ),
        },
    }
}

/// Decodes the latitude at `at`. It reads two fields.
pub fn latitude(fields: &Fields, at: usize) -> (outcome: Result<(Option<Angle>, usize), FieldError>)
    ensures
        advances_lifted(outcome, at, 2, latitude_of(fields@, at as int)),
        outcome matches Ok((Some(angle), _)) ==> angle@.well_formed(),
{
    coordinate(fields, at, 2, NORTH, SOUTH)
}

/// Decodes the longitude at `at`. It reads two fields.
pub fn longitude(fields: &Fields, at: usize) -> (outcome: Result<
    (Option<Angle>, usize),
    FieldError,
>)
    ensures
        advances_lifted(outcome, at, 2, longitude_of(fields@, at as int)),
        outcome matches Ok((Some(angle), _)) ==> angle@.well_formed(),
{
    coordinate(fields, at, 3, EAST, WEST)
}

/// Decodes the location at `at`. It reads four fields.
pub fn location(fields: &Fields, at: usize) -> (outcome: Result<
    (Option<Location>, usize),
    FieldError,
>)
    ensures
        advances_lifted(outcome, at, 4, location_of(fields@, at as int)),
        outcome matches Ok((Some(place), _)) ==> place@.well_formed(),
{
    match latitude(fields, at) {
        Err(error) => Err(error),
        Ok((latitude, next)) => match longitude(fields, next) {
            Err(error) => Err(error),
            Ok((longitude, next)) => match (latitude, longitude) {
                (Some(latitude), Some(longitude)) => Ok(
                    (Some(Location { latitude, longitude }), next),
                ),
                _ => Ok((None, next)),
            },
        },
    }
}

} // verus!
