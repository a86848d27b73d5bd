//! What holds of every sentence, stated over the decoders' own definitions.

use vstd::prelude::*;
use crate::calendar::date_of;
use crate::clock::time_of_day_of;
use crate::codes::{faa_mode_of_text, nav_status_of_text, status_of_text, Status};
use crate::decimal::{decimal_of, DecimalValue};
use crate::error::{ErrorKind, Fault};
use crate::position::{angle_of, latitude_of, longitude_of, AngleValue, EAST, NORTH, SOUTH, WEST};
use crate::rmc::{magnetic_variation_of, RmcValue, RMC};

verus! {

/// Whether `text` is the one letter `first` or the one letter `second`.
pub open spec fn is_one_of(text: Seq<u8>, first: u8, second: u8) -> bool {
    text == seq![first] || text == seq![second]
}

/// The grammar of a sentence, field by field: what is wrong with the field
/// at `position`, judged by its own text and, for a direction letter, by
/// whether the magnitude before it is empty. `None` means nothing is wrong.
pub open spec fn field_fault<const FAA: bool, const NAV: bool>(
    fields: Seq<Seq<u8>>,
    position: int,
) -> Option<ErrorKind> {
    let text = fields[position];
    if position == 0 {
        if text.len() == 0 || time_of_day_of(text) is Some {
            None
        } else {
            Some(ErrorKind::MalformedScalar)
        }
    } else if position == 1 {
        if text.len() == 0 || status_of_text(text) is Some {
            None
        } else {
            Some(ErrorKind::UnrecognizedCode)
        }
    } else if position == 2 {
        if text.len() == 0 || angle_of(text, 2) is Some {
            None
        } else {
            Some(ErrorKind::MalformedScalar)
        }
    } else if position == 3 {
        if fields[2].len() == 0 || is_one_of(text, NORTH, SOUTH) {
            None
        } else {
            Some(ErrorKind::InvalidDirection)
        }
    } else if position == 4 {
        if text.len() == 0 || angle_of(text, 3) is Some {
            None
        } else {
            Some(ErrorKind::MalformedScalar)
        }
    } else if position == 5 {
        if fields[4].len() == 0 || is_one_of(text, EAST, WEST) {
            None
        } else {
            Some(ErrorKind::InvalidDirection)
        }
    } else if position == 6 || position == 7 || position == 9 {
        if text.len() == 0 || decimal_of(text) is Some {
            None
        } else {
            Some(ErrorKind::MalformedScalar)
        }
    } else if position == 8 {
        if text.len() == 0 || date_of(text) is Some {
            None
        } else {
            Some(ErrorKind::MalformedScalar)
        }
    } else if position == 10 {
        if fields[9].len() == 0 || is_one_of(text, EAST, WEST) {
            None
        } else {
            Some(ErrorKind::InvalidDirection)
        }
    } else if position == 11 && FAA {
        if text.len() == 0 || faa_mode_of_text(text) is Some {
            None
        } else {
            Some(ErrorKind::UnrecognizedCode)
        }
    } else {
        if text.len() == 0 || nav_status_of_text(text) is Some {
            None
        } else {
            Some(ErrorKind::UnrecognizedCode)
        }
    }
}

/// Decoding is total over the grammar and faults are reported where they
/// are.
///
/// A sentence decodes exactly when it has all the fields of its revision
/// and none of them is at fault. Otherwise the reported position is that of
/// the first field that is missing or at fault, every field before it is in
/// order, and the kind is `Truncated` for a missing field and the field's
/// own fault for a present one.
pub proof fn lemma_first_fault<const FAA: bool, const NAV: bool>(fields: Seq<Seq<u8>>)
    ensures
        match RMC::<FAA, NAV>::decoded(fields, 0) {
            Ok(_) => {
                &&& fields.len() >= RMC::<FAA, NAV>::width()
                &&& forall|i: int|
                    0 <= i < RMC::<FAA, NAV>::width() ==> field_fault::<FAA, NAV>(fields, i)
                        is None
            },
            Err(fault) => {
                &&& 0 <= fault.position <= fields.len()
                &&& fault.position < RMC::<FAA, NAV>::width()
                &&& forall|i: int|
                    0 <= i < fault.position ==> field_fault::<FAA, NAV>(fields, i) is None
                &&& if fault.position == fields.len() {
                    fault.kind == ErrorKind::Truncated
                } else {
                    field_fault::<FAA, NAV>(fields, fault.position) == Some(fault.kind)
                }
            },
        },
{
}

/// A sentence that says nothing but its status decodes to a record that
/// holds nothing but the status.
///
/// Where the sentence has all the fields of its revision, every field but
/// the status is empty, and the status is empty or one of its letters, the
/// sentence decodes, every optional part of the record is absent, and the
/// status is that of the letter, or `Invalid` for the empty field.
pub proof fn lemma_blank_sentence<const FAA: bool, const NAV: bool>(fields: Seq<Seq<u8>>)
    requires
        fields.len() >= RMC::<FAA, NAV>::width(),
        forall|i: int| 0 <= i < RMC::<FAA, NAV>::width() && i != 1 ==> fields[i].len() == 0,
        fields[1].len() == 0 || status_of_text(fields[1]) is Some,
    ensures
        RMC::<FAA, NAV>::decoded(fields, 0) == Ok::<RmcValue, Fault>(
            RmcValue {
                fix_time: None,
                status: if fields[1].len() == 0 {
                    Status::Invalid
                } else {
                    status_of_text(fields[1]).unwrap()
                },
                location: None,
                speed_over_ground: None,
                course_over_ground: None,
                fix_date: None,
                magnetic_variation: None,
                faa_mode: None,
                nav_status: None,
            },
        ),
{
    assert(fields[0].len() == 0);
    assert(fields[2].len() == 0);
    assert(fields[4].len() == 0);
    assert(fields[6].len() == 0);
    assert(fields[7].len() == 0);
    assert(fields[8].len() == 0);
    assert(fields[9].len() == 0);
    if FAA {
        assert(fields[11].len() == 0);
    }
    if NAV {
        assert(fields[RMC::<FAA, NAV>::width() - 1].len() == 0);
    }
}

/// A sentence cut short is reported as truncated, never decoded in part.
///
/// Where a sentence decodes, the same sentence with only its first `kept`
/// fields, fewer than its revision has, yields the fault `Truncated` at
/// the position `kept`, where the first missing field would stand.
pub proof fn lemma_truncation<const FAA: bool, const NAV: bool>(fields: Seq<Seq<u8>>, kept: int)
    requires
        RMC::<FAA, NAV>::decoded(fields, 0) is Ok,
        0 <= kept < RMC::<FAA, NAV>::width(),
    ensures
        RMC::<FAA, NAV>::decoded(fields.take(kept), 0) == Err::<RmcValue, Fault>(
            Fault { position: kept, kind: ErrorKind::Truncated },
        ),
{
    lemma_first_fault::<FAA, NAV>(fields);
    let short = fields.take(kept);
    lemma_first_fault::<FAA, NAV>(short);
    match RMC::<FAA, NAV>::decoded(short, 0) {
        Ok(_) => {},
        Err(fault) => {
            if fault.position < kept {
                let p = fault.position;
                assert(short[p] == fields[p]);
                if p > 0 {
                    assert(short[p - 1] == fields[p - 1]);
                }
                assert(field_fault::<FAA, NAV>(short, p) == field_fault::<FAA, NAV>(fields, p));
                assert(field_fault::<FAA, NAV>(fields, p) is None);
            }
        },
    }
}

/// The letter decides the sign of a magnetic variation, and nothing else.
///
/// With a magnitude that writes the number `magnitude`, the letter `E`
/// yields that number and the letter `W` the number with the opposite
/// sign. With an empty magnitude there is no variation, whatever the letter
/// field holds.
pub proof fn lemma_variation_sign(fields: Seq<Seq<u8>>, at: int)
    requires
        0 <= at,
        at + 1 < fields.len(),
    ensures
        fields[at].len() == 0 ==> magnetic_variation_of(fields, at) == Ok::<
            Option<DecimalValue>,
            Fault,
        >(None),
        fields[at].len() > 0 && fields[at + 1] == seq![EAST] ==> (decimal_of(fields[at]) matches Some(
            magnitude,
        ) ==> magnetic_variation_of(fields, at) == Ok::<Option<DecimalValue>, Fault>(
            Some(magnitude),
        )),
        fields[at].len() > 0 && fields[at + 1] == seq![WEST] ==> (decimal_of(fields[at]) matches Some(
            magnitude,
        ) ==> magnetic_variation_of(fields, at) == Ok::<Option<DecimalValue>, Fault>(
            Some(magnitude.negated()),
        )),
{
    if fields[at + 1] == seq![WEST] {
        assert(seq![WEST][0] == WEST);
        assert(seq![EAST][0] == EAST);
    }
}

/// The hemisphere decides the sign of a coordinate, and nothing else.
///
/// With a magnitude that writes the angle `magnitude`, the letters `N` and
/// `E` yield that angle and the letters `S` and `W` the same angle in the
/// negative hemisphere, which is its opposite.
pub proof fn lemma_hemisphere_sign(fields: Seq<Seq<u8>>, at: int)
    requires
        0 <= at,
        at + 1 < fields.len(),
        fields[at].len() > 0,
    ensures
        fields[at + 1] == seq![NORTH] ==> (angle_of(fields[at], 2) matches Some(magnitude)
            ==> latitude_of(fields, at) == Ok::<Option<AngleValue>, Fault>(Some(magnitude))),
        fields[at + 1] == seq![SOUTH] ==> (angle_of(fields[at], 2) matches Some(magnitude)
            ==> latitude_of(fields, at) == Ok::<Option<AngleValue>, Fault>(
            Some(magnitude.towards(true)),
        ) && magnitude.towards(true).units() == -magnitude.units()),
        fields[at + 1] == seq![EAST] ==> (angle_of(fields[at], 3) matches Some(magnitude)
            ==> longitude_of(fields, at) == Ok::<Option<AngleValue>, Fault>(Some(magnitude))),
        fields[at + 1] == seq![WEST] ==> (angle_of(fields[at], 3) matches Some(magnitude)
            ==> longitude_of(fields, at) == Ok::<Option<AngleValue>, Fault>(
            Some(magnitude.towards(true)),
        ) && magnitude.towards(true).units() == -magnitude.units()),
{
    assert(seq![NORTH][0] == NORTH);
    assert(seq![SOUTH][0] == SOUTH);
    assert(seq![WEST][0] == WEST);
    assert(seq![EAST][0] == EAST);
    if let Some(magnitude) = angle_of(fields[at], 2) {
        assert(magnitude.towards(false) == magnitude);
    }
    if let Some(magnitude) = angle_of(fields[at], 3) {
        assert(magnitude.towards(false) == magnitude);
    }
}

} // verus!
