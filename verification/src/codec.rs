//! Typed errors shared by the record codec, and the versioned codec itself.

use vstd::prelude::*;

pub mod v0_0;

verus! {

/// A decode or encode failure. Every error is terminal for the single record
/// being processed: no partial result is ever returned beside one.
#[derive(Debug, PartialEq)]
pub enum Error {
    /// The framing layer handed a type tag no record kind is declared for.
    UnexpectedType(u16),
    /// A fixed-width read ran past the end of the payload, or the payload
    /// length does not fit the declared record layout.
    InvalidValueLength,
    /// A string field does not hold valid UTF-8.
    InvalidUTF8,
    /// A semantically invalid value, carrying the offending raw bytes.
    InvalidField(Vec<u8>),
}

/// Mathematical view of [`Error`].
#[verifier::ext_equal]
pub enum ErrorV {
    UnexpectedType(u16),
    InvalidValueLength,
    InvalidUTF8,
    InvalidField(Seq<u8>),
}

impl View for Error {
    type V = ErrorV;

    open spec fn view(&self) -> ErrorV {
        match self {
            Error::UnexpectedType(t) => ErrorV::UnexpectedType(*t),
            Error::InvalidValueLength => ErrorV::InvalidValueLength,
            Error::InvalidUTF8 => ErrorV::InvalidUTF8,
            Error::InvalidField(v) => ErrorV::InvalidField(v@),
        }
    }
}

} // verus!
