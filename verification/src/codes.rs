//! The one-letter codes of a sentence and the enumerations they stand for.

use vstd::prelude::*;
use crate::error::{ErrorKind, Fault, FieldError};
use crate::fields::Fields;
use crate::slot::{advances, field_at, optional_field};

verus! {

/// Whether the receiver vouches for the fix.
#[derive(Clone, Copy, Debug, PartialEq, Eq, Structural)]
pub enum Status {
    /// `A`: the data is valid.
    Valid,
    /// `V`: the receiver warns against the data. A sentence that leaves the
    /// field empty is read as this.
    Invalid,
}

/// How the fix was obtained.
#[derive(Clone, Copy, Debug, PartialEq, Eq, Structural)]
pub enum FaaMode {
    /// `A`
    Autonomous,
    /// `C`
    Caution,
    /// `D`
    Differential,
    /// `E`
    Estimated,
    /// `F`
    FloatRtk,
    /// `M`
    Manual,
    /// `N`
    DataNotValid,
    /// `P`
    Precise,
    /// `R`
    FixedRtk,
    /// `S`
    Simulator,
    /// `U`
    Unsafe,
}

/// Whether the position may be relied on for navigation.
#[derive(Clone, Copy, Debug, PartialEq, Eq, Structural)]
pub enum NavStatus {
    /// `S`
    Safe,
    /// `C`
    Caution,
    /// `U`
    Unsafe,
    /// `V`
    Invalid,
}

impl Status {
    /// The status that `code` stands for, if any.
    pub open spec fn of_code(code: u8) -> Option<Status> {
        if code == 65 {
            Some(Status::Valid)
        } else if code == 86 {
            Some(Status::Invalid)
        } else {
            None
        }
    }

    /// The letter of a status.
    pub open spec fn code_of(self) -> u8 {
        match self {
            Status::Valid => 65,
            Status::Invalid => 86,
        }
    }

    /// Reads a status letter.
    pub fn from_code(code: u8) -> (status: Option<Status>)
        ensures
            status == Status::of_code(code),
    {
        if code == 65 {
            Some(Status::Valid)
        } else if code == 86 {
            Some(Status::Invalid)
        } else {
            None
        }
    }

    /// Gives the letter of a status.
    pub fn code(&self) -> (code: u8)
        ensures
            code == self.code_of(),
            Status::of_code(code) == Some(*self),
    {
        match self {
            Status::Valid => 65,
            Status::Invalid => 86,
        }
    }
}

impl Default for Status {
    fn default() -> (status: Status)
        ensures
            status == Status::Invalid,
    {
        Status::Invalid
    }
}

impl FaaMode {
    /// The mode that `code` stands for, if any.
    pub open spec fn of_code(code: u8) -> Option<FaaMode> {
        if code == 65 {
            Some(FaaMode::Autonomous)
        } else if code == 67 {
            Some(FaaMode::Caution)
        } else if code == 68 {
            Some(FaaMode::Differential)
        } else if code == 69 {
            Some(FaaMode::Estimated)
        } else if code == 70 {
            Some(FaaMode::FloatRtk)
        } else if code == 77 {
            Some(FaaMode::Manual)
        } else if code == 78 {
            Some(FaaMode::DataNotValid)
        } else if code == 80 {
            Some(FaaMode::Precise)
        } else if code == 82 {
            Some(FaaMode::FixedRtk)
        } else if code == 83 {
            Some(FaaMode::Simulator)
        } else if code == 85 {
            Some(FaaMode::Unsafe)
        } else {
            None
        }
    }

    /// The letter of a mode.
    pub open spec fn code_of(self) -> u8 {
        match self {
            FaaMode::Autonomous => 65,
            FaaMode::Caution => 67,
            FaaMode::Differential => 68,
            FaaMode::Estimated => 69,
            FaaMode::FloatRtk => 70,
            FaaMode::Manual => 77,
            FaaMode::DataNotValid => 78,
            FaaMode::Precise => 80,
            FaaMode::FixedRtk => 82,
            FaaMode::Simulator => 83,
            FaaMode::Unsafe => 85,
        }
    }

    /// Reads a mode letter.
    pub fn from_code(code: u8) -> (mode: Option<FaaMode>)
        ensures
            mode == FaaMode::of_code(code),
    {
        if code == 65 {
            Some(FaaMode::Autonomous)
        } else if code == 67 {
            Some(FaaMode::Caution)
        } else if code == 68 {
            Some(FaaMode::Differential)
        } else if code == 69 {
            Some(FaaMode::Estimated)
        } else if code == 70 {
            Some(FaaMode::FloatRtk)
        } else if code == 77 {
            Some(FaaMode::Manual)
        } else if code == 78 {
            Some(FaaMode::DataNotValid)
        } else if code == 80 {
            Some(FaaMode::Precise)
        } else if code == 82 {
            Some(FaaMode::FixedRtk)
        } else if code == 83 {
            Some(FaaMode::Simulator)
        } else if code == 85 {
            Some(FaaMode::Unsafe)
        } else {
            None
        }
    }

    /// Gives the letter of a mode.
    pub fn code(&self) -> (code: u8)
        ensures
            code == self.code_of(),
            FaaMode::of_code(code) == Some(*self),
    {
        match self {
            FaaMode::Autonomous => 65,
            FaaMode::Caution => 67,
            FaaMode::Differential => 68,
            FaaMode::Estimated => 69,
            FaaMode::FloatRtk => 70,
            FaaMode::Manual => 77,
            FaaMode::DataNotValid => 78,
            FaaMode::Precise => 80,
            FaaMode::FixedRtk => 82,
            FaaMode::Simulator => 83,
            FaaMode::Unsafe => 85,
        }
    }
}

impl NavStatus {
    /// The navigation status that `code` stands for, if any.
    pub open spec fn of_code(code: u8) -> Option<NavStatus> {
        if code == 83 {
            Some(NavStatus::Safe)
        } else if code == 67 {
            Some(NavStatus::Caution)
        } else if code == 85 {
            Some(NavStatus::Unsafe)
        } else if code == 86 {
            Some(NavStatus::Invalid)
        } else {
            None
        }
    }

    /// The letter of a navigation status.
    pub open spec fn code_of(self) -> u8 {
        match self {
            NavStatus::Safe => 83,
            NavStatus::Caution => 67,
            NavStatus::Unsafe => 85,
            NavStatus::Invalid => 86,
        }
    }

    /// Reads a navigation status letter.
    pub fn from_code(code: u8) -> (status: Option<NavStatus>)
        ensures
            status == NavStatus::of_code(code),
    {
        if code == 83 {
            Some(NavStatus::Safe)
        } else if code == 67 {
            Some(NavStatus::Caution)
        } else if code == 85 {
            Some(NavStatus::Unsafe)
        } else if code == 86 {
            Some(NavStatus::Invalid)
        } else {
            None
        }
    }

    /// Gives the letter of a navigation status.
    pub fn code(&self) -> (code: u8)
        ensures
            code == self.code_of(),
            NavStatus::of_code(code) == Some(*self),
    {
        match self {
            NavStatus::Safe => 83,
            NavStatus::Caution => 67,
            NavStatus::Unsafe => 85,
            NavStatus::Invalid => 86,
        }
    }
}

/// A letter read back is the letter that was written: reading a code yields
/// a value exactly when the code is that value's letter.
pub proof fn lemma_codes_read_back(code: u8, status: Status, mode: FaaMode, nav: NavStatus)
    ensures
        Status::of_code(code) == Some(status) <==> status.code_of() == code,
        FaaMode::of_code(code) == Some(mode) <==> mode.code_of() == code,
        NavStatus::of_code(code) == Some(nav) <==> nav.code_of() == code,
{
}

/// The status that a field text of one letter stands for.
pub open spec fn status_of_text(text: Seq<u8>) -> Option<Status> {
    if text.len() == 1 {
        Status::of_code(text[0])
    } else {
        None
    }
}

/// The mode that a field text of one letter stands for.
pub open spec fn faa_mode_of_text(text: Seq<u8>) -> Option<FaaMode> {
    if text.len() == 1 {
        FaaMode::of_code(text[0])
    } else {
        None
    }
}

/// The navigation status that a field text of one letter stands for.
pub open spec fn nav_status_of_text(text: Seq<u8>) -> Option<NavStatus> {
    if text.len() == 1 {
        NavStatus::of_code(text[0])
    } else {
        None
    }
}

/// What the status at `at` decodes to: the status of the letter, `Invalid`
/// for an empty field, and an unrecognized-code fault for any other text.
pub open spec fn status_of(fields: Seq<Seq<u8>>, at: int) -> Result<Status, Fault> {
    match optional_field(
        fields,
        at,
        |text: Seq<u8>| status_of_text(text),
        ErrorKind::UnrecognizedCode,
    ) {
        Err(fault) => Err(fault),
        Ok(None) => Ok(Status::Invalid),
        Ok(Some(status)) => Ok(status),
    }
}

/// What the mode at `at` decodes to: nothing for an empty field, the mode
/// of the letter, and an unrecognized-code fault for any other text.
pub open spec fn faa_mode_of(fields: Seq<Seq<u8>>, at: int) -> Result<Option<FaaMode>, Fault> {
    optional_field(fields, at, |text: Seq<u8>| faa_mode_of_text(text), ErrorKind::UnrecognizedCode)
}

/// What the navigation status at `at` decodes to, in the same way.
pub open spec fn nav_status_of(fields: Seq<Seq<u8>>, at: int) -> Result<
    Option<NavStatus>,
    Fault,
> {
    optional_field(
        fields,
        at,
        |text: Seq<u8>| nav_status_of_text(text),
        ErrorKind::UnrecognizedCode,
    )
}

/// Decodes the status at `at`. It reads one field.
pub fn status(fields: &Fields, at: usize) -> (outcome: Result<(Status, usize), FieldError>)
    ensures
        advances(outcome, at, 1, status_of(fields@, at as int)),
{
    match field_at(fields, at) {
        Err(error) => Err(error),
        Ok(text) => {
            if text.len() == 0 {
                Ok((Status::Invalid, at + 1))
            } else if text.len() == 1 {
                match Status::from_code(text[0]) {
                    Some(status) => Ok((status, at + 1)),
                    None => Err(FieldError { position: at, kind: ErrorKind::UnrecognizedCode }),
                }
            } else {
                Err(FieldError { position: at, kind: ErrorKind::UnrecognizedCode })
            }
        },
    }
}

/// Decodes the optional mode at `at`. It reads one field.
pub fn faa_mode(fields: &Fields, at: usize) -> (outcome: Result<
    (Option<FaaMode>, usize),
    FieldError,
>)
    ensures
        advances(outcome, at, 1, faa_mode_of(fields@, at as int)),
{
    match field_at(fields, at) {
        Err(error) => Err(error),
        Ok(text) => {
            if text.len() == 0 {
                Ok((None, at + 1))
            } else if text.len() == 1 {
                match FaaMode::from_code(text[0]) {
                    Some(mode) => Ok((Some(mode), at + 1)),
                    None => Err(FieldError { position: at, kind: ErrorKind::UnrecognizedCode }),
                }
            } else {
                Err(FieldError { position: at, kind: ErrorKind::UnrecognizedCode })
            }
        },
    }
}

/// Decodes the optional navigation status at `at`. It reads one field.
pub fn nav_status(fields: &Fields, at: usize) -> (outcome: Result<
    (Option<NavStatus>, usize),
    FieldError,
>)
    ensures
        advances(outcome, at, 1, nav_status_of(fields@, at as int)),
{
    match field_at(fields, at) {
        Err(error) => Err(error),
        Ok(text) => {
            if text.len() == 0 {
                Ok((None, at + 1))
            } else if text.len() == 1 {
                match NavStatus::from_code(text[0]) {
                    Some(status) => Ok((Some(status), at + 1)),
                    None => Err(FieldError { position: at, kind: ErrorKind::UnrecognizedCode }),
                }
            } else {
                Err(FieldError { position: at, kind: ErrorKind::UnrecognizedCode })
            }
        },
    }
}

} // verus!
