//! Little-endian integer writing for byte sinks.

use vstd::prelude::*;
use vstd::bytes::{spec_u16_to_le_bytes, spec_u32_to_le_bytes, spec_u64_to_le_bytes};
use crate::bytes::{push_i64, push_u16, push_u32, push_u64, push_u8, spec_i64_to_le_bytes};
use crate::error::{PError, PResult};

verus! {

/// A sink that fixed-width integers can be written to in little-endian byte
/// order. The sink's contents are its byte sequence so far; every write
/// appends.
pub trait WriteExt {
    /// The bytes the sink holds.
    spec fn sink(&self) -> Seq<u8>;

    /// Appends one byte.
    fn write_u8(&mut self, data: u8) -> (r: PResult<()>)
        ensures
            r == Ok::<(), PError>(()),
            final(self).sink() == old(self).sink() + seq![data],
    ;

    /// Appends an unsigned 16-bit value as two little-endian bytes.
    fn write_u16(&mut self, data: u16) -> (r: PResult<()>)
        ensures
            r == Ok::<(), PError>(()),
            final(self).sink() == old(self).sink() + spec_u16_to_le_bytes(data),
    ;

    /// Appends an unsigned 32-bit value as four little-endian bytes.
    fn write_u32(&mut self, data: u32) -> (r: PResult<()>)
        ensures
            r == Ok::<(), PError>(()),
            final(self).sink() == old(self).sink() + spec_u32_to_le_bytes(data),
    ;

    /// Appends an unsigned 64-bit value as eight little-endian bytes.
    fn write_u64(&mut self, data: u64) -> (r: PResult<()>)
        ensures
            r == Ok::<(), PError>(()),
            final(self).sink() == old(self).sink() + spec_u64_to_le_bytes(data),
    ;

    /// Appends a signed 64-bit value as eight little-endian bytes.
    fn write_i64(&mut self, data: i64) -> (r: PResult<()>)
        ensures
            r == Ok::<(), PError>(()),
            final(self).sink() == old(self).sink() + spec_i64_to_le_bytes(data),
    ;
}

impl WriteExt for Vec<u8> {
    open spec fn sink(&self) -> Seq<u8> {
        self@
    }

    fn write_u8(&mut self, data: u8) -> (r: PResult<()>) {
        push_u8(self, data);
        Ok(())
    }

    fn write_u16(&mut self, data: u16) -> (r: PResult<()>) {
        push_u16(self, data);
        Ok(())
    }

    fn write_u32(&mut self, data: u32) -> (r: PResult<()>) {
        push_u32(self, data);
        Ok(())
    }

    fn write_u64(&mut self, data: u64) -> (r: PResult<()>) {
        push_u64(self, data);
        Ok(())
    }

    fn write_i64(&mut self, data: i64) -> (r: PResult<()>) {
        push_i64(self, data);
        Ok(())
    }
}

} // verus!
