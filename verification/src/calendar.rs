//! Calendar dates, written as `ddmmyy`.

use vstd::prelude::*;
use crate::digits::{all_digits, digit_run, lemma_digit_run, pair_value, two_digits};
use crate::error::{ErrorKind, Fault, FieldError};
use crate::fields::Fields;
use crate::slot::{advances, field_at, optional_field};

verus! {

/// The first year of the century that two-digit years are counted from.
///
/// The wire format writes two digits and leaves the century open. This
/// crate reads every year as one of the hundred years from 2000 on.
pub const CENTURY: i32 = 2000;

/// A date of the Gregorian calendar.
#[derive(Clone, Copy, Debug, PartialEq, Eq, Structural)]
pub struct CalendarDate {
    /// The year.
    pub year: i32,
    /// The month, from 1 for January to 12 for December.
    pub month: u8,
    /// The day of the month, from 1.
    pub day: u8,
}

/// Whether `year` has a 29th of February.
pub open spec fn is_leap_year(year: int) -> bool {
    year % 4 == 0 && (year % 100 != 0 || year % 400 == 0)
}

/// The number of days of `month` in `year`.
pub open spec fn days_in_month(year: int, month: int) -> int {
    if month == 2 {
        if is_leap_year(year) {
            29
        } else {
            28
        }
    } else if month == 4 || month == 6 || month == 9 || month == 11 {
        30
    } else {
        31
    }
}

/// Whether the calendar has the given day.
pub open spec fn is_calendar_date(year: int, month: int, day: int) -> bool {
    1 <= month <= 12 && 1 <= day <= days_in_month(year, month)
}

impl CalendarDate {
    /// Whether the date exists.
    pub open spec fn well_formed(self) -> bool {
        is_calendar_date(self.year as int, self.month as int, self.day as int)
    }
}

/// The date that `text` writes, if it writes one.
///
/// The text is exactly six digits, two each for the day, the month and the
/// year within the century, and the day must exist in that month.
pub open spec fn date_of(text: Seq<u8>) -> Option<CalendarDate> {
    if text.len() == 6 && all_digits(text) && is_calendar_date(
        CENTURY + pair_value(text, 4),
        pair_value(text, 2),
        pair_value(text, 0),
    ) {
        Some(
            CalendarDate {
                year: (CENTURY + pair_value(text, 4)) as i32,
                month: pair_value(text, 2) as u8,
                day: pair_value(text, 0) as u8,
            },
        )
    } else {
        None
    }
}

/// Asks the `time` crate whether its calendar has the given day.
///
/// `time::Month::try_from` takes the numbers 1 to 12. For a year that the
/// crate supports, `time::Date::from_calendar_date` then succeeds exactly
/// when the day is at least 1 and at most the length of the month, where
/// February has 29 days in leap years of the Gregorian calendar.
#[verifier::external_body]
fn calendar_accepts(year: i32, month: u8, day: u8) -> (accepted: bool)
    requires
        -9999 <= year <= 9999,
    ensures
        accepted == is_calendar_date(year as int, month as int, day as int),
{
    match time::Month::try_from(month) {
        Ok(m) => time::Date::from_calendar_date(year, m, day).is_ok(),
        Err(_) => false,
    }
}

/// Reads `text` as a date.
pub fn parse_date(text: &[u8]) -> (date: Option<CalendarDate>)
    ensures
        date == date_of(text@),
        date matches Some(d) ==> d.well_formed(),
{
    if text.len() != 6 {
        return None;
    }
    let run = digit_run(text, 0);
    proof {
        lemma_digit_run(text@, 0);
        if run == 6 {
            assert(text@.subrange(0, 6) == text@);
        }
    }
    if run < 6 {
        return None;
    }
    let day = two_digits(text, 0);
    let month = two_digits(text, 2);
    let year: i32 = CENTURY + two_digits(text, 4) as i32;
    if calendar_accepts(year, month, day) {
        Some(CalendarDate { year, month, day })
    } else {
        None
    }
}

/// What the optional date at `at` decodes to: nothing for an empty field,
/// the date for a field that writes one, a malformed-scalar fault at `at`
/// for any other text.
pub open spec fn optional_date_of(fields: Seq<Seq<u8>>, at: int) -> Result<
    Option<CalendarDate>,
    Fault,
> {
    optional_field(fields, at, |text: Seq<u8>| date_of(text), ErrorKind::MalformedScalar)
}

/// Decodes the optional date at `at`. It reads one field.
pub fn optional_date(fields: &Fields, at: usize) -> (outcome: Result<
    (Option<CalendarDate>, usize),
    FieldError,
>)
    ensures
        advances(outcome, at, 1, optional_date_of(fields@, at as int)),
        outcome matches Ok((Some(date), _)) ==> date.well_formed(),
{
    match field_at(fields, at) {
        Err(error) => Err(error),
        Ok(text) => {
            if text.len() == 0 {
                Ok((None, at + 1))
            } else {
                match parse_date(text) {
                    Some(date) => Ok((Some(date), at + 1)),
                    None => Err(FieldError { position: at, kind: ErrorKind::MalformedScalar }),
                }
            }
        },
    }
}

} // verus!
