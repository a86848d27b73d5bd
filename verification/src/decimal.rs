//! Decimal numbers, kept as the digits that were read.

use vstd::prelude::*;
use crate::digits::{
    all_digits, digit_run, digit_run_end, digit_values, digits_between, lemma_digit_run,
    number_of, LOWER_E, MINUS, PLUS, POINT, UPPER_E,
};
use crate::error::{lift, ErrorKind, Fault, FieldError};
use crate::fields::Fields;
use crate::slot::{advances_lifted, field_at, optional_field};

verus! {

/// A decimal number in scientific notation, exact to the last digit.
///
/// It stands for `coefficient * 10^power`, negated where `negative` is set.
/// Digits are the numbers zero to nine, most significant first; leading and
/// trailing zeros are kept as they were written.
#[derive(Clone, Debug, PartialEq, Eq)]
pub struct Decimal {
    /// Whether the number carries a minus sign. Zero may carry one.
    pub negative: bool,
    /// The digits before the point.
    pub whole: Vec<u8>,
    /// The digits behind the point.
    pub fraction: Vec<u8>,
    /// Whether the exponent carries a minus sign.
    pub exponent_negative: bool,
    /// The digits of the exponent; none where no exponent was written.
    pub exponent: Vec<u8>,
}

/// The mathematical counterpart of [`Decimal`].
pub struct DecimalValue {
    pub negative: bool,
    pub whole: Seq<u8>,
    pub fraction: Seq<u8>,
    pub exponent_negative: bool,
    pub exponent: Seq<u8>,
}

impl View for Decimal {
    type V = DecimalValue;

    open spec fn view(&self) -> DecimalValue {
        DecimalValue {
            negative: self.negative,
            whole: self.whole@,
            fraction: self.fraction@,
            exponent_negative: self.exponent_negative,
            exponent: self.exponent@,
        }
    }
}

/// Whether every entry of `digits` is one of the numbers zero to nine.
pub open spec fn are_digit_values(digits: Seq<u8>) -> bool {
    forall|i: int| 0 <= i < digits.len() ==> #[trigger] digits[i] <= 9
}

impl DecimalValue {
    /// What every decoded number satisfies: all digits are digits, there is
    /// at least one before or behind the point, and an exponent sign comes
    /// with exponent digits.
    pub open spec fn well_formed(self) -> bool {
        &&& are_digit_values(self.whole)
        &&& are_digit_values(self.fraction)
        &&& are_digit_values(self.exponent)
        &&& self.whole.len() + self.fraction.len() >= 1
        &&& self.exponent_negative ==> self.exponent.len() >= 1
    }

    /// The digits before and behind the point, read as one natural number.
    pub open spec fn coefficient(self) -> nat {
        number_of(self.whole + self.fraction)
    }

    /// The power of ten that scales the coefficient: the written exponent,
    /// lowered by one for each digit behind the point.
    pub open spec fn power(self) -> int {
        (if self.exponent_negative {
            -(number_of(self.exponent) as int)
        } else {
            number_of(self.exponent) as int
        }) - self.fraction.len()
    }

    /// The same number with the opposite sign.
    pub open spec fn negated(self) -> DecimalValue {
        DecimalValue { negative: !self.negative, ..self }
    }
}

/// The number that `text` writes, if it writes one.
///
/// A number is an optional sign, digits with an optional point among or
/// around them (at least one digit in all), and optionally an exponent: `e`
/// or `E`, an optional sign, and at least one digit. The whole text must be
/// the number; anything left over means it is none.
pub open spec fn decimal_of(text: Seq<u8>) -> Option<DecimalValue> {
    let signed = text.len() > 0 && (text[0] == PLUS || text[0] == MINUS);
    let whole_start: int = if signed { 1 } else { 0 };
    let whole_end = digit_run_end(text, whole_start);
    let pointed = whole_end < text.len() && text[whole_end] == POINT;
    let fraction_start = if pointed { whole_end + 1 } else { whole_end };
    let fraction_end = digit_run_end(text, fraction_start);
    let raised = fraction_end < text.len() && (text[fraction_end] == LOWER_E
        || text[fraction_end] == UPPER_E);
    let exponent_signed = raised && fraction_end + 1 < text.len() && (text[fraction_end + 1]
        == PLUS || text[fraction_end + 1] == MINUS);
    let exponent_start = if !raised {
        fraction_end
    } else if exponent_signed {
        fraction_end + 2
    } else {
        fraction_end + 1
    };
    let exponent_end = if raised { digit_run_end(text, exponent_start) } else { fraction_end };
    if (whole_end - whole_start) + (fraction_end - fraction_start) >= 1 && (raised
        ==> exponent_end > exponent_start) && exponent_end == text.len() {
        Some(
            DecimalValue {
                negative: signed && text[0] == MINUS,
                whole: digit_values(text.subrange(whole_start, whole_end)),
                fraction: digit_values(text.subrange(fraction_start, fraction_end)),
                exponent_negative: exponent_signed && text[fraction_end + 1] == MINUS,
                exponent: digit_values(text.subrange(exponent_start, exponent_end)),
            },
        )
    } else {
        None
    }
}

/// The digits read from digit characters are the numbers zero to nine.
pub proof fn lemma_digit_values_are_digits(text: Seq<u8>)
    requires
        all_digits(text),
    ensures
        are_digit_values(digit_values(text)),
{
    assert forall|i: int| 0 <= i < text.len() implies #[trigger] digit_values(text)[i] <= 9 by {
        assert(crate::digits::is_digit(text[i]));
    }
}

/// Every number that a text writes is well formed.
pub proof fn lemma_decimal_of_well_formed(text: Seq<u8>)
    ensures
        decimal_of(text) matches Some(value) ==> value.well_formed(),
{
    if let Some(value) = decimal_of(text) {
        let signed = text.len() > 0 && (text[0] == PLUS || text[0] == MINUS);
        let whole_start: int = if signed { 1 } else { 0 };
        let whole_end = digit_run_end(text, whole_start);
        lemma_digit_run(text, whole_start);
        let pointed = whole_end < text.len() && text[whole_end] == POINT;
        let fraction_start = if pointed { whole_end + 1 } else { whole_end };
        let fraction_end = digit_run_end(text, fraction_start);
        lemma_digit_run(text, fraction_start);
        let raised = fraction_end < text.len() && (text[fraction_end] == LOWER_E
            || text[fraction_end] == UPPER_E);
        let exponent_signed = raised && fraction_end + 1 < text.len() && (text[fraction_end + 1]
            == PLUS || text[fraction_end + 1] == MINUS);
        let exponent_start = if !raised {
            fraction_end
        } else if exponent_signed {
            fraction_end + 2
        } else {
            fraction_end + 1
        };
        lemma_digit_values_are_digits(text.subrange(whole_start, whole_end));
        lemma_digit_values_are_digits(text.subrange(fraction_start, fraction_end));
        if raised {
            lemma_digit_run(text, exponent_start);
            lemma_digit_values_are_digits(
                text.subrange(exponent_start, digit_run_end(text, exponent_start)),
            );
        } else {
            assert(text.subrange(exponent_start, fraction_end) =~= Seq::<u8>::empty());
        }
    }
}

/// Reads `text` as a decimal number.
pub fn parse_decimal(text: &[u8]) -> (number: Option<Decimal>)
    ensures
        lift(number) == decimal_of(text@),
        number matches Some(d) ==> d@.well_formed(),
{
    let len = text.len();
    let signed = len > 0 && (text[0] == PLUS || text[0] == MINUS);
    let whole_start: usize = if signed { 1 } else { 0 };
    let whole_end = digit_run(text, whole_start);
    let pointed = whole_end < len && text[whole_end] == POINT;
    let fraction_start: usize = if pointed { whole_end + 1 } else { whole_end };
    let fraction_end = digit_run(text, fraction_start);
    let raised = fraction_end < len && (text[fraction_end] == LOWER_E || text[fraction_end]
        == UPPER_E);
    let exponent_signed = raised && fraction_end + 1 < len && (text[fraction_end + 1] == PLUS
        || text[fraction_end + 1] == MINUS);
    let exponent_start: usize = if !raised {
        fraction_end
    } else if exponent_signed {
        fraction_end + 2
    } else {
        fraction_end + 1
    };
    let exponent_end: usize = if raised { digit_run(text, exponent_start) } else { fraction_end };
    proof {
        lemma_digit_run(text@, whole_start as int);
        lemma_digit_run(text@, fraction_start as int);
        if raised {
            lemma_digit_run(text@, exponent_start as int);
        }
        lemma_decimal_of_well_formed(text@);
    }
    if (whole_end - whole_start) + (fraction_end - fraction_start) >= 1 && (!raised
        || exponent_end > exponent_start) && exponent_end == len {
        let whole = digits_between(text, whole_start, whole_end);
        let fraction = digits_between(text, fraction_start, fraction_end);
        let exponent = digits_between(text, exponent_start, exponent_end);
        Some(
            Decimal {
                negative: signed && text[0] == MINUS,
                whole,
                fraction,
                exponent_negative: exponent_signed && text[fraction_end + 1] == MINUS,
                exponent,
            },
        )
    } else {
        None
    }
}

impl Decimal {
    /// Gives the same number with the opposite sign.
    pub fn negated(self) -> (opposite: Decimal)
        ensures
            opposite@ == self@.negated(),
    {
        Decimal {
            negative: !self.negative,
            whole: self.whole,
            fraction: self.fraction,
            exponent_negative: self.exponent_negative,
            exponent: self.exponent,
        }
    }
}

/// What the optional number at `at` decodes to: nothing for an empty field,
/// the number for a field that writes one, a malformed-scalar fault at `at`
/// for any other text.
pub open spec fn optional_decimal_of(fields: Seq<Seq<u8>>, at: int) -> Result<
    Option<DecimalValue>,
    Fault,
> {
    optional_field(fields, at, |text: Seq<u8>| decimal_of(text), ErrorKind::MalformedScalar)
}

/// Decodes the optional number at `at`. It reads one field.
pub fn optional_decimal(fields: &Fields, at: usize) -> (outcome: Result<
    (Option<Decimal>, usize),
    FieldError,
>)
    ensures
        advances_lifted(outcome, at, 1, optional_decimal_of(fields@, at as int)),
        outcome matches Ok((Some(number), _)) ==> number@.well_formed(),
{
    match field_at(fields, at) {
        Err(error) => Err(error),
        Ok(text) => {
            if text.len() == 0 {
                Ok((None, at + 1))
            } else {
                match parse_decimal(text) {
                    Some(number) => Ok((Some(number), at + 1)),
                    None => Err(FieldError { position: at, kind: ErrorKind::MalformedScalar }),
                }
            }
        },
    }
}

} // verus!
