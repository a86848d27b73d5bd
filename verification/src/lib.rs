//! Decoding of NMEA 0183 field sequences into typed records.
//!
//! A sentence body is a sequence of comma-delimited fields. Every decoder of
//! this crate follows one discipline: it is handed the field sequence and the
//! index of the first field it may read, and it answers with the decoded value
//! and the index of the first field it did not read, or with the position and
//! kind of the first field that stopped it. Decoders therefore compose without
//! knowing each other's width, and a record decoder is a chain of them.
//!
//! Decimal numbers and angles are kept exactly as the digits that were read,
//! and a time of day to the nanosecond: nothing in this crate rounds.

pub mod calendar;
pub mod clock;
pub mod codes;
pub mod decimal;
pub mod digits;
pub mod error;
pub mod fields;
pub mod laws;
pub mod position;
pub mod rmc;
pub mod slot;
