//! Decimal digits and the other characters that numbers are written with.

use vstd::prelude::*;

verus! {

/// The character `+`.
pub const PLUS: u8 = 43;

/// The character `-`.
pub const MINUS: u8 = 45;

/// The character `.`, which separates the whole part from the fraction.
pub const POINT: u8 = 46;

/// The character `E`, one of the two that introduce an exponent.
pub const UPPER_E: u8 = 69;

/// The character `e`, the other one.
pub const LOWER_E: u8 = 101;

/// Whether `byte` is one of the characters `0` to `9`.
pub open spec fn is_digit(byte: u8) -> bool {
    48 <= byte <= 57
}

/// Whether every byte of `text` is a digit. The empty text qualifies.
pub open spec fn all_digits(text: Seq<u8>) -> bool {
    forall|i: int| 0 <= i < text.len() ==> is_digit(#[trigger] text[i])
}

/// The digit characters of `text` as the numbers zero to nine.
pub open spec fn digit_values(text: Seq<u8>) -> Seq<u8> {
    Seq::new(text.len(), |i: int| (text[i] - 48) as u8)
}

/// The number that `digits` write in base ten, most significant first.
/// No digits write zero.
pub open spec fn number_of(digits: Seq<u8>) -> nat
    decreases digits.len(),
{
    if digits.len() == 0 {
        0
    } else {
        number_of(digits.drop_last()) * 10 + digits.last() as nat
    }
}

/// Ten to the power of `n`.
pub open spec fn pow10(n: nat) -> nat
    decreases n,
{
    if n == 0 {
        1
    } else {
        10 * pow10((n - 1) as nat)
    }
}

/// The number written by the two digit characters at `at` and `at + 1`.
pub open spec fn pair_value(text: Seq<u8>, at: int) -> int {
    (text[at] - 48) * 10 + (text[at + 1] - 48)
}

/// The index just behind the longest run of digit characters that starts
/// at `from`; `from` itself where no digit stands there.
pub open spec fn digit_run_end(text: Seq<u8>, from: int) -> int
    decreases text.len() - from,
{
    if 0 <= from < text.len() && is_digit(text[from]) {
        digit_run_end(text, from + 1)
    } else {
        from
    }
}

/// A run of digits consists of digits, lies inside the text, and is
/// followed by something else or by the end.
pub proof fn lemma_digit_run(text: Seq<u8>, from: int)
    requires
        0 <= from <= text.len(),
    ensures
        from <= digit_run_end(text, from) <= text.len(),
        all_digits(text.subrange(from, digit_run_end(text, from))),
        digit_run_end(text, from) < text.len() ==> !is_digit(text[digit_run_end(text, from)]),
    decreases text.len() - from,
{
    if from < text.len() && is_digit(text[from]) {
        lemma_digit_run(text, from + 1);
        let end = digit_run_end(text, from);
        assert forall|i: int| 0 <= i < end - from implies is_digit(
            #[trigger] text.subrange(from, end)[i],
        ) by {
            if i > 0 {
                assert(text.subrange(from, end)[i] == text.subrange(from + 1, end)[i - 1]);
            }
        }
    }
}

/// Tells a digit character from any other byte.
pub(crate) fn byte_is_digit(byte: u8) -> (digit: bool)
    ensures
        digit == is_digit(byte),
{
    48 <= byte && byte <= 57
}

/// Finds the end of the run of digits that starts at `from`.
pub(crate) fn digit_run(text: &[u8], from: usize) -> (end: usize)
    requires
        from <= text@.len(),
    ensures
        end == digit_run_end(text@, from as int),
        from <= end <= text@.len(),
{
    let mut end: usize = from;
    while end < text.len() && byte_is_digit(text[end])
        invariant
            from <= end <= text@.len(),
            digit_run_end(text@, from as int) == digit_run_end(text@, end as int),
        decreases text@.len() - end,
    {
        end += 1;
    }
    end
}

/// Reads the digits of `text` from `from` up to `to` as numbers.
pub(crate) fn digits_between(text: &[u8], from: usize, to: usize) -> (digits: Vec<u8>)
    requires
        from <= to <= text@.len(),
        all_digits(text@.subrange(from as int, to as int)),
    ensures
        digits@ == digit_values(text@.subrange(from as int, to as int)),
{
    let mut digits: Vec<u8> = Vec::new();
    let mut i: usize = from;
    while i < to
        invariant
            from <= i <= to <= text@.len(),
            all_digits(text@.subrange(from as int, to as int)),
            digits@ == digit_values(text@.subrange(from as int, i as int)),
        decreases to - i,
    {
        let byte = text[i];
        assert(text@.subrange(from as int, to as int)[i - from] == byte);
        digits.push(byte - 48);
        i += 1;
        assert(digits@ == digit_values(text@.subrange(from as int, i as int)));
    }
    digits
}

/// Reads the two digit characters at `at` and `at + 1` as one number.
pub(crate) fn two_digits(text: &[u8], at: usize) -> (value: u8)
    requires
        at + 2 <= text@.len(),
        is_digit(text@[at as int]),
        is_digit(text@[at + 1]),
    ensures
        value == pair_value(text@, at as int),
        value <= 99,
{
    (text[at] - 48) * 10 + (text[at + 1] - 48)
}

} // verus!
