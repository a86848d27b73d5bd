//! What a decoder reports when a field stops it.

use vstd::prelude::*;
use crate::fields::Fields;

verus! {

/// Why a field could not be decoded.
#[derive(Clone, Copy, Debug, PartialEq, Eq, Structural)]
pub enum ErrorKind {
    /// The text does not follow the grammar of a number, a time or a date.
    MalformedScalar,
    /// A hemisphere or east/west letter is not one of the two of its axis.
    InvalidDirection,
    /// The sentence ends before the field.
    Truncated,
    /// A code character is outside its enumeration.
    UnrecognizedCode,
}

/// A decoding failure: the zero-based position of the field and the cause.
#[derive(Clone, Copy, Debug, PartialEq, Eq, Structural)]
pub struct FieldError {
    pub position: usize,
    pub kind: ErrorKind,
}

/// The mathematical counterpart of [`FieldError`], with an unbounded position.
pub struct Fault {
    pub position: int,
    pub kind: ErrorKind,
}

impl View for FieldError {
    type V = Fault;

    open spec fn view(&self) -> Fault {
        Fault { position: self.position as int, kind: self.kind }
    }
}

/// `Some(v)` seen through the view of `v`.
pub open spec fn lift<T: View>(value: Option<T>) -> Option<T::V> {
    match value {
        Some(v) => Some(v@),
        None => None,
    }
}

impl FieldError {
    /// The text of the field at fault, out of the fields that were being
    /// decoded; `None` where the sentence ends before the position.
    pub fn failing_text<'a>(&self, fields: &'a Fields) -> (text: Option<&'a [u8]>)
        ensures
            match text {
                Some(found) => self.position < fields@.len() && found@ == fields@[self.position as int],
                None => self.position >= fields@.len(),
            },
    {
        if self.position < fields.len() {
            Some(fields.text(self.position))
        } else {
            None
        }
    }
}

impl ErrorKind {
    /// The words that `cause` returns for each kind.
    pub open spec fn cause_text(self) -> Seq<char> {
        match self {
            ErrorKind::MalformedScalar => "malformed scalar"@,
            ErrorKind::InvalidDirection => "invalid direction letter"@,
            ErrorKind::Truncated => "truncated sentence"@,
            ErrorKind::UnrecognizedCode => "unrecognized code"@,
        }
    }

    /// A short description of the cause, for people.
    pub fn cause(&self) -> (text: &'static str)
        ensures
            text@ == self.cause_text(),
    {
        match self {
            ErrorKind::MalformedScalar => "malformed scalar",
            ErrorKind::InvalidDirection => "invalid direction letter",
            ErrorKind::Truncated => "truncated sentence",
            ErrorKind::UnrecognizedCode => "unrecognized code",
        }
    }
}

} // verus!
