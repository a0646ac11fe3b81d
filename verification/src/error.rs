//! Typed errors for the event-log readers and writers.

use vstd::prelude::*;

verus! {

/// Convenience alias for results of event parsing and writing.
pub type PResult<T> = Result<T, PError>;

/// The text encoding a string field was expected to hold.
#[derive(Debug, Clone, Copy, PartialEq, Eq, Structural)]
pub enum StringEncoding {
    Utf8,
}

/// A parse or write failure for the event-log format.
#[derive(Debug, Clone, PartialEq)]
pub enum PError {
    /// The underlying byte source ran out, or the surrounding stream layer
    /// failed; the stream layer owning real I/O carries its own error beside
    /// this marker.
    Io,
    /// A string field does not hold valid text in the named encoding.
    InvalidString(StringEncoding),
    /// An unrecognized event type tag.
    InvalidTypeId(u64),
    /// A payload length that does not fit the event layout: found, expected.
    InvalidLength(usize, usize),
    /// A semantically invalid value.
    InvalidValue(u64),
}

} // verus!
