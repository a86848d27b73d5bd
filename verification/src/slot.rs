//! The discipline that every decoder follows, and the pieces they share.
//!
//! A decoder reads the fields from an index on. It either yields a value and
//! the index behind the fields it read, or the first fault it met, going from
//! left to right: a field that the sentence no longer has is reported at the
//! position where the sentence ends, a field with wrong content at its own.

use vstd::prelude::*;
use crate::error::{lift, ErrorKind, Fault, FieldError};
use crate::fields::Fields;

verus! {

/// The fault of a sentence that ends too early: it is reported at the
/// position of the first field that is not there.
pub open spec fn missing(fields: Seq<Seq<u8>>) -> Fault {
    Fault { position: fields.len() as int, kind: ErrorKind::Truncated }
}

/// One optional field: an empty text is no value, any other text must
/// follow `grammar`, and a text that does not is a fault of kind `kind`.
pub open spec fn optional_field<V>(
    fields: Seq<Seq<u8>>,
    at: int,
    grammar: spec_fn(Seq<u8>) -> Option<V>,
    kind: ErrorKind,
) -> Result<Option<V>, Fault> {
    if !(0 <= at < fields.len()) {
        Err(missing(fields))
    } else if fields[at].len() == 0 {
        Ok(None)
    } else {
        match grammar(fields[at]) {
            Some(value) => Ok(Some(value)),
            None => Err(Fault { position: at, kind }),
        }
    }
}

/// One direction letter: `Ok(false)` for `positive`, `Ok(true)` for
/// `negative`, a fault for any other text, the empty one included.
pub open spec fn direction_of(fields: Seq<Seq<u8>>, at: int, positive: u8, negative: u8) -> Result<
    bool,
    Fault,
> {
    if !(0 <= at < fields.len()) {
        Err(missing(fields))
    } else if fields[at] == seq![positive] {
        Ok(false)
    } else if fields[at] == seq![negative] {
        Ok(true)
    } else {
        Err(Fault { position: at, kind: ErrorKind::InvalidDirection })
    }
}

/// A magnitude and its direction letter, two fields that make one value.
///
/// The choice between the two forms is made on the magnitude alone, in this
/// order. An empty magnitude means no value, whatever the letter field
/// holds, as long as the sentence has that field. Any other magnitude must
/// follow `grammar` and be followed by one of the two letters; the result
/// pairs it with whether the letter is the negative one.
pub open spec fn signed_pair<V>(
    fields: Seq<Seq<u8>>,
    at: int,
    grammar: spec_fn(Seq<u8>) -> Option<V>,
    positive: u8,
    negative: u8,
) -> Result<Option<(V, bool)>, Fault> {
    match optional_field(fields, at, grammar, ErrorKind::MalformedScalar) {
        Err(fault) => Err(fault),
        Ok(None) => if at + 1 < fields.len() {
            Ok(None)
        } else {
            Err(missing(fields))
        },
        Ok(Some(magnitude)) => match direction_of(fields, at + 1, positive, negative) {
            Ok(negate) => Ok(Some((magnitude, negate))),
            Err(fault) => Err(fault),
        },
    }
}

/// Whether `outcome`, returned by a decoder that started at `at`, is what
/// `expected` says and, on success, stops `width` fields further on.
pub open spec fn advances<T>(
    outcome: Result<(T, usize), FieldError>,
    at: usize,
    width: int,
    expected: Result<T, Fault>,
) -> bool {
    match outcome {
        Ok((value, next)) => expected == Ok::<T, Fault>(value) && next == at + width,
        Err(error) => expected == Err::<T, Fault>(error@),
    }
}

/// The same for a decoder of an optional value that has a view.
pub open spec fn advances_lifted<T: View>(
    outcome: Result<(Option<T>, usize), FieldError>,
    at: usize,
    width: int,
    expected: Result<Option<T::V>, Fault>,
) -> bool {
    match outcome {
        Ok((value, next)) => expected == Ok::<Option<T::V>, Fault>(lift(value)) && next == at
            + width,
        Err(error) => expected == Err::<Option<T::V>, Fault>(error@),
    }
}

/// Fetches the text of the field at `at`, or reports that the sentence ends
/// before it.
pub fn field_at<'a>(fields: &'a Fields, at: usize) -> (outcome: Result<&'a [u8], FieldError>)
    ensures
        fields@.len() <= usize::MAX,
        match outcome {
            Ok(text) => at < fields@.len() && text@ == fields@[at as int],
            Err(error) => at >= fields@.len() && error@ == missing(fields@),
        },
{
    if at < fields.len() {
        Ok(fields.text(at))
    } else {
        Err(FieldError { position: fields.len(), kind: ErrorKind::Truncated })
    }
}

/// Reads the direction letter at `at` and tells whether it is the negative
/// one of its axis.
pub fn direction(fields: &Fields, at: usize, positive: u8, negative: u8) -> (outcome: Result<
    bool,
    FieldError,
>)
    ensures
        match outcome {
            Ok(negate) => direction_of(fields@, at as int, positive, negative) == Ok::<
                bool,
                Fault,
            >(negate),
            Err(error) => direction_of(fields@, at as int, positive, negative) == Err::<
                bool,
                Fault,
            >(error@),
        },
{
    match field_at(fields, at) {
        Err(error) => Err(error),
        Ok(text) => {
            if text.len() == 1 && text[0] == positive {
                assert(text@ =~= seq![positive]);
                Ok(false)
            } else if text.len() == 1 && text[0] == negative {
                assert(text@ =~= seq![negative]);
                Ok(true)
            } else {
                assert(text@ != seq![positive]) by {
                    if text@ == seq![positive] {
                        assert(seq![positive].len() == 1);
                        assert(seq![positive][0] == positive);
                    }
                }
                assert(text@ != seq![negative]) by {
                    if text@ == seq![negative] {
                        assert(seq![negative].len() == 1);
                        assert(seq![negative][0] == negative);
                    }
                }
                Err(FieldError { position: at, kind: ErrorKind::InvalidDirection })
            }
        },
    }
}

} // verus!
