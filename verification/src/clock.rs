//! Times of day, written as `hhmmss` with an optional fraction of a second.

use vstd::prelude::*;
use crate::digits::{
    all_digits, digit_run, digit_values, lemma_digit_run, number_of, pair_value, pow10,
    two_digits, POINT,
};
use crate::error::{ErrorKind, Fault, FieldError};
use crate::fields::Fields;
use crate::slot::{advances, field_at, optional_field};

verus! {

/// A time of day, to the nanosecond.
#[derive(Clone, Copy, Debug, PartialEq, Eq, Structural)]
pub struct TimeOfDay {
    /// The hour, below 24.
    pub hour: u8,
    /// The minute, below 60.
    pub minute: u8,
    /// The second, below 60.
    pub second: u8,
    /// The nanosecond within the second, below one thousand million.
    pub nanosecond: u32,
}

impl TimeOfDay {
    /// Whether each part lies within its range.
    pub open spec fn well_formed(self) -> bool {
        &&& self.hour < 24
        &&& self.minute < 60
        &&& self.second < 60
        &&& self.nanosecond < 1_000_000_000
    }
}

/// The first nine of `digits`, with zeros where there are fewer.
pub open spec fn first_nine(digits: Seq<u8>) -> Seq<u8> {
    Seq::new(
        9,
        |i: int|
            if i < digits.len() {
                digits[i]
            } else {
                0u8
            },
    )
}

/// The nanoseconds that the digits behind the point stand for. Digits
/// beyond the ninth are finer than a nanosecond and do not count.
pub open spec fn nanoseconds_of(fraction: Seq<u8>) -> nat {
    number_of(first_nine(fraction))
}

/// The time of day that `text` writes, if it writes one.
///
/// The text is six digits, two each for hour, minute and second, and then
/// either ends or goes on with a point and any number of digits. Hour,
/// minute and second must lie within their ranges.
pub open spec fn time_of_day_of(text: Seq<u8>) -> Option<TimeOfDay> {
    if text.len() >= 6 && all_digits(text.subrange(0, 6)) && (text.len() == 6 || (text[6] == POINT
        && all_digits(text.subrange(7, text.len() as int)))) {
        let hour = pair_value(text, 0);
        let minute = pair_value(text, 2);
        let second = pair_value(text, 4);
        let nanosecond = if text.len() == 6 {
            0
        } else {
            nanoseconds_of(digit_values(text.subrange(7, text.len() as int)))
        };
        if hour < 24 && minute < 60 && second < 60 {
            Some(
                TimeOfDay {
                    hour: hour as u8,
                    minute: minute as u8,
                    second: second as u8,
                    nanosecond: nanosecond as u32,
                },
            )
        } else {
            None
        }
    } else {
        None
    }
}

/// Asks the `time` crate whether it takes the four parts for a time of day.
///
/// `time::Time::from_hms_nano` checks each part against its range and
/// nothing else: it succeeds exactly for an hour below 24, a minute and a
/// second below 60 and a nanosecond below one thousand million.
#[verifier::external_body]
fn clock_accepts(hour: u8, minute: u8, second: u8, nanosecond: u32) -> (accepted: bool)
    ensures
        accepted == (hour < 24 && minute < 60 && second < 60 && nanosecond < 1_000_000_000),
{
    time::Time::from_hms_nano(hour, minute, second, nanosecond).is_ok()
}

/// Reads the digits of `text` from `from` to its end as the fraction of a
/// second, in nanoseconds.
pub(crate) fn nanoseconds(text: &[u8], from: usize) -> (nanosecond: u32)
    requires
        from <= text@.len(),
        all_digits(text@.subrange(from as int, text@.len() as int)),
    ensures
        nanosecond == nanoseconds_of(digit_values(text@.subrange(from as int, text@.len() as int))),
        nanosecond < 1_000_000_000,
{
    let ghost fraction = digit_values(text@.subrange(from as int, text@.len() as int));
    let ghost nine = first_nine(fraction);
    let mut value: u32 = 0;
    let mut limit: u32 = 1;
    let mut i: usize = 0;
    proof {
        assert(nine.take(0) =~= Seq::<u8>::empty());
        reveal_with_fuel(pow10, 10);
    }
    while i < 9
        invariant
            i <= 9,
            from <= text@.len(),
            all_digits(text@.subrange(from as int, text@.len() as int)),
            fraction == digit_values(text@.subrange(from as int, text@.len() as int)),
            nine == first_nine(fraction),
            value == number_of(nine.take(i as int)),
            value < limit,
            limit == pow10(i as nat),
            limit <= 1_000_000_000,
            i < 9 ==> limit <= 100_000_000,
        decreases 9 - i,
    {
        let digit: u8 = if i < text.len() - from {
            assert(text@.subrange(from as int, text@.len() as int)[i as int] == text@[from + i]);
            text[from + i] - 48
        } else {
            0
        };
        proof {
            assert(digit == nine[i as int]);
            assert(nine.take(i + 1).drop_last() =~= nine.take(i as int));
            assert(nine.take(i + 1).last() == digit);
            reveal_with_fuel(pow10, 10);
        }
        value = value * 10 + digit as u32;
        limit = limit * 10;
        i += 1;
    }
    proof {
        assert(nine.take(9) =~= nine);
        reveal_with_fuel(pow10, 10);
    }
    value
}

/// Reads `text` as a time of day.
pub fn parse_time_of_day(text: &[u8]) -> (time: Option<TimeOfDay>)
    ensures
        time == time_of_day_of(text@),
        time matches Some(t) ==> t.well_formed(),
{
    let len = text.len();
    if len < 6 {
        return None;
    }
    let run = digit_run(text, 0);
    proof {
        lemma_digit_run(text@, 0);
        if run < 6 {
            assert(text@.subrange(0, 6)[run as int] == text@[run as int]);
        } else {
            assert forall|i: int| 0 <= i < 6 implies crate::digits::is_digit(
                #[trigger] text@.subrange(0, 6)[i],
            ) by {
                assert(text@.subrange(0, run as int)[i] == text@[i]);
            }
        }
    }
    if run < 6 {
        return None;
    }
    proof {
        assert forall|i: int| 0 <= i < 6 implies crate::digits::is_digit(text@[i]) by {
            assert(text@.subrange(0, 6)[i] == text@[i]);
        }
    }
    let nanosecond: u32 = if len == 6 {
        0
    } else if text[6] == POINT {
        let end = digit_run(text, 7);
        proof {
            lemma_digit_run(text@, 7);
            if end < len {
                assert(text@.subrange(7, len as int)[end - 7] == text@[end as int]);
            } else {
                assert(text@.subrange(7, end as int) == text@.subrange(7, len as int));
            }
        }
        if end < len {
            return None;
        }
        nanoseconds(text, 7)
    } else {
        return None;
    };
    let hour = two_digits(text, 0);
    let minute = two_digits(text, 2);
    let second = two_digits(text, 4);
    if clock_accepts(hour, minute, second, nanosecond) {
        Some(TimeOfDay { hour, minute, second, nanosecond })
    } else {
        None
    }
}

/// What the optional time of day at `at` decodes to: nothing for an empty
/// field, the time for a field that writes one, a malformed-scalar fault at
/// `at` for any other text.
pub open spec fn optional_time_of_day_of(fields: Seq<Seq<u8>>, at: int) -> Result<
    Option<TimeOfDay>,
    Fault,
> {
    optional_field(fields, at, |text: Seq<u8>| time_of_day_of(text), ErrorKind::MalformedScalar)
}

/// Decodes the optional time of day at `at`. It reads one field.
pub fn optional_time_of_day(fields: &Fields, at: usize) -> (outcome: Result<
    (Option<TimeOfDay>, usize),
    FieldError,
>)
    ensures
        advances(outcome, at, 1, optional_time_of_day_of(fields@, at as int)),
        outcome matches Ok((Some(time), _)) ==> time.well_formed(),
{
    match field_at(fields, at) {
        Err(error) => Err(error),
        Ok(text) => {
            if text.len() == 0 {
                Ok((None, at + 1))
            } else {
                match parse_time_of_day(text) {
                    Some(time) => Ok((Some(time), at + 1)),
                    None => Err(FieldError { position: at, kind: ErrorKind::MalformedScalar }),
                }
            }
        },
    }
}

} // verus!
