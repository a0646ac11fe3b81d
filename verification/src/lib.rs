//! Binary wire-format codec for a collaborative pixel-canvas event log.
//!
//! Records describing canvas metadata, palette changes, pixel placements and
//! contributor identifiers are encoded to and decoded from length-framed byte
//! payloads. An outer framing layer supplies a type tag together with a payload
//! of exactly the declared length; the codec either consumes the payload in
//! full or rejects it with a typed error.

pub mod bytes;
pub mod codec;
pub mod error;
pub mod events;
pub mod read;
pub mod records;
pub mod text;
pub mod util;
pub mod write;
