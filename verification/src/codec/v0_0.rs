//! Version 0.0 of the record wire format.
//!
//! Each record kind has a wire spec (`*_wire`), a decode spec (`spec_des_*`)
//! and exec encode/decode routines proved against them. All multi-byte
//! integers are little-endian; variable-length trailing fields consume the
//! whole remaining payload and the payload length is the length signal. A
//! decoder either consumes its payload exactly or fails: trailing bytes are
//! rejected.

use vstd::prelude::*;
use vstd::bytes::{
    spec_u32_from_le_bytes, spec_u32_to_le_bytes, spec_u64_from_le_bytes, spec_u64_to_le_bytes,
    lemma_auto_spec_u32_to_from_le_bytes, lemma_auto_spec_u64_to_from_le_bytes, u32_to_le_bytes,
    u64_to_le_bytes,
};
use vstd::utf8::{decode_utf8, encode_utf8, valid_utf8};
use crate::bytes::{concat_chunks, lemma_concat_chunks_fixed, lemma_concat_chunks_push, lemma_concat_chunks_reconstruct, push_bytes, push_u32, push_u64, push_u8, take_bytes, take_u32, take_u64, take_u8};
use crate::codec::{Error, ErrorV};
use crate::records::{
    CanvasMeta, CanvasMetaV, CanvasRecord, PaletteInsert, PaletteInsertV, PaletteRemove,
    PaletteRemoveV, PlacementInsert, PlacementInsertFillV, PlacementInsertFill, PlacementInsertV,
    PlacementRemove, PlacementRemoveFill, PlacementRemoveFillV, PlacementRemoveV, RecordV,
    CANVAS_META_TYPE_ID, PALETTE_INSERT_TYPE_ID, PALETTE_REMOVE_TYPE_ID, PLACEMENT_INSERT_TYPE_ID,
    PLACEMENT_INSERT_SILENT_TYPE_ID, PLACEMENT_INSERT_FILL_TYPE_ID,
    PLACEMENT_INSERT_FILL_SILENT_TYPE_ID, PLACEMENT_REMOVE_TYPE_ID, PLACEMENT_REMOVE_SILENT_TYPE_ID,
    PLACEMENT_REMOVE_FILL_TYPE_ID, PLACEMENT_REMOVE_FILL_SILENT_TYPE_ID, IDENTIFIER_NUMERIC_TYPE_ID,
    IDENTIFIER_STRING_TYPE_ID, IDENTIFIER_SECRET_TYPE_ID, record_type_id, record_wf, record_silent,
};

verus! {

/// The codec for wire-format version 0.0, dispatching on 16-bit type tags.
pub struct Serialiser;

// ---------------------------------------------------------------------------
// Wire-format specification
// ---------------------------------------------------------------------------

/// Byte image of a canvas metadata record: two length-prefixed UTF-8 strings,
/// the creation time and the two canvas dimensions.
pub open spec fn canvas_meta_wire(m: CanvasMetaV) -> Seq<u8> {
    let name = encode_utf8(m.name);
    let plat = encode_utf8(m.platform);
    seq![name.len() as u8] + name + seq![plat.len() as u8] + plat + spec_u64_to_le_bytes(m.time)
        + spec_u32_to_le_bytes(m.size.0) + spec_u32_to_le_bytes(m.size.1)
}

/// Byte image of a palette insertion: the offset, then the colour entries.
pub open spec fn palette_insert_wire(p: PaletteInsertV) -> Seq<u8> {
    spec_u32_to_le_bytes(p.offset) + concat_chunks(p.colors)
}

/// Byte image of a palette removal. The length field is omitted (short form)
/// when it equals the default length 1.
pub open spec fn palette_remove_wire(p: PaletteRemoveV) -> Seq<u8> {
    if p.length > 1 {
        spec_u32_to_le_bytes(p.offset) + spec_u32_to_le_bytes(p.length)
    } else {
        spec_u32_to_le_bytes(p.offset)
    }
}

/// Byte image of a single placement: time, packed position, colour.
pub open spec fn placement_insert_wire(p: PlacementInsertV) -> Seq<u8> {
    spec_u64_to_le_bytes(p.time) + spec_u64_to_le_bytes(p.pos) + spec_u32_to_le_bytes(p.col)
}

/// Byte image of a fill placement: time, both position bounds, colour.
pub open spec fn placement_insert_fill_wire(p: PlacementInsertFillV) -> Seq<u8> {
    spec_u64_to_le_bytes(p.time) + spec_u64_to_le_bytes(p.pos.0) + spec_u64_to_le_bytes(p.pos.1)
        + spec_u32_to_le_bytes(p.col)
}

/// Byte image of a placement removal: time and packed position.
pub open spec fn placement_remove_wire(p: PlacementRemoveV) -> Seq<u8> {
    spec_u64_to_le_bytes(p.time) + spec_u64_to_le_bytes(p.pos)
}

/// Byte image of a fill removal: time and both position bounds.
pub open spec fn placement_remove_fill_wire(p: PlacementRemoveFillV) -> Seq<u8> {
    spec_u64_to_le_bytes(p.time) + spec_u64_to_le_bytes(p.pos.0) + spec_u64_to_le_bytes(p.pos.1)
}

/// Byte image of a record of any kind. Quiet variants share the image of
/// their counterparts; only the type tag differs, and it is not part of the
/// payload.
pub open spec fn record_wire(r: RecordV) -> Seq<u8> {
    match r {
        RecordV::CanvasMeta(m) => canvas_meta_wire(m),
        RecordV::PaletteInsert(p) => palette_insert_wire(p),
        RecordV::PaletteRemove(p) => palette_remove_wire(p),
        RecordV::PlacementInsert(p) => placement_insert_wire(p),
        RecordV::PlacementInsertQuiet(p) => placement_insert_wire(p),
        RecordV::PlacementInsertFill(p) => placement_insert_fill_wire(p),
        RecordV::PlacementInsertFillQuiet(p) => placement_insert_fill_wire(p),
        RecordV::PlacementRemove(p) => placement_remove_wire(p),
        RecordV::PlacementRemoveQuiet(p) => placement_remove_wire(p),
        RecordV::PlacementRemoveFill(p) => placement_remove_fill_wire(p),
        RecordV::PlacementRemoveFillQuiet(p) => placement_remove_fill_wire(p),
        RecordV::IdentifierNumeric(n) => spec_u64_to_le_bytes(n),
        RecordV::IdentifierString(s) => encode_utf8(s),
        RecordV::IdentifierSecret(b) => b,
    }
}

/// Whether a record's variable-length fields fit their wire encoding: string
/// fields are bounded by a 1-byte length prefix and cap at 255 bytes.
pub open spec fn record_fits(r: RecordV) -> bool {
    match r {
        RecordV::CanvasMeta(m) => encode_utf8(m.name).len() <= 255 && encode_utf8(
            m.platform,
        ).len() <= 255,
        _ => true,
    }
}

// ---------------------------------------------------------------------------
// Encode specification: what `serialise_record` appends, or the error it
// returns. Encoding fails only when a string field overflows its 1-byte
// length prefix; the error carries the oversized length's 8-byte
// little-endian representation. Nothing is ever truncated silently.
// ---------------------------------------------------------------------------

/// Result of encoding a canvas metadata record.
pub open spec fn spec_ser_canvas_meta(m: CanvasMetaV) -> Result<Seq<u8>, ErrorV> {
    let nlen = encode_utf8(m.name).len();
    let plen = encode_utf8(m.platform).len();
    if nlen > 255 {
        Err(ErrorV::InvalidField(spec_u64_to_le_bytes(nlen as u64)))
    } else if plen > 255 {
        Err(ErrorV::InvalidField(spec_u64_to_le_bytes(plen as u64)))
    } else {
        Ok(canvas_meta_wire(m))
    }
}

/// Result of encoding a record of any kind.
pub open spec fn spec_ser_record(r: RecordV) -> Result<Seq<u8>, ErrorV> {
    match r {
        RecordV::CanvasMeta(m) => spec_ser_canvas_meta(m),
        _ => Ok(record_wire(r)),
    }
}

// ---------------------------------------------------------------------------
// Decode specification: the record a payload denotes, or the error rejecting
// it. Fixed-width reads past the end of the payload and payloads whose length
// does not fit the layout fail with `InvalidValueLength`; invalid string
// bytes fail with `InvalidUTF8`; semantically invalid values fail with
// `InvalidField`.
// ---------------------------------------------------------------------------

/// Decode of a canvas metadata payload.
pub open spec fn spec_des_canvas_meta(b: Seq<u8>) -> Result<CanvasMetaV, ErrorV> {
    if b.len() < 1 {
        Err(ErrorV::InvalidValueLength)
    } else {
        let nlen = b[0] as int;
        if b.len() < 1 + nlen {
            Err(ErrorV::InvalidValueLength)
        } else {
            let nbytes = b.subrange(1, 1 + nlen);
            if !valid_utf8(nbytes) {
                Err(ErrorV::InvalidUTF8)
            } else {
                let p0 = 1 + nlen;
                if b.len() < p0 + 1 {
                    Err(ErrorV::InvalidValueLength)
                } else {
                    let plen = b[p0] as int;
                    if b.len() < p0 + 1 + plen {
                        Err(ErrorV::InvalidValueLength)
                    } else {
                        let pbytes = b.subrange(p0 + 1, p0 + 1 + plen);
                        if !valid_utf8(pbytes) {
                            Err(ErrorV::InvalidUTF8)
                        } else {
                            let p1 = p0 + 1 + plen;
                            if b.len() != p1 + 16 {
                                Err(ErrorV::InvalidValueLength)
                            } else {
                                Ok(
                                    CanvasMetaV {
                                        name: decode_utf8(nbytes),
                                        platform: decode_utf8(pbytes),
                                        time: spec_u64_from_le_bytes(b.subrange(p1, p1 + 8)),
                                        size: (
                                            spec_u32_from_le_bytes(b.subrange(p1 + 8, p1 + 12)),
                                            spec_u32_from_le_bytes(b.subrange(p1 + 12, p1 + 16)),
                                        ),
                                    },
                                )
                            }
                        }
                    }
                }
            }
        }
    }
}

/// Decode of a palette insertion payload: the remainder after the offset must
/// be an exact multiple of the 4-byte entry size.
pub open spec fn spec_des_palette_insert(b: Seq<u8>) -> Result<PaletteInsertV, ErrorV> {
    if b.len() < 4 {
        Err(ErrorV::InvalidValueLength)
    } else if (b.len() - 4) % 4 != 0 {
        Err(ErrorV::InvalidValueLength)
    } else {
        Ok(
            PaletteInsertV {
                offset: spec_u32_from_le_bytes(b.subrange(0, 4)),
                colors: Seq::new(
                    ((b.len() - 4) / 4) as nat,
                    |i: int| b.subrange(4 + 4 * i, 8 + 4 * i),
                ),
            },
        )
    }
}

/// Decode of a palette removal payload: the length field defaults to 1 when
/// legitimately absent, and an explicitly encoded zero is rejected.
pub open spec fn spec_des_palette_remove(b: Seq<u8>) -> Result<PaletteRemoveV, ErrorV> {
    if b.len() < 4 {
        Err(ErrorV::InvalidValueLength)
    } else if b.len() == 4 {
        Ok(PaletteRemoveV { offset: spec_u32_from_le_bytes(b.subrange(0, 4)), length: 1 })
    } else if b.len() != 8 {
        Err(ErrorV::InvalidValueLength)
    } else {
        let length = spec_u32_from_le_bytes(b.subrange(4, 8));
        if length == 0 {
            Err(ErrorV::InvalidField(spec_u32_to_le_bytes(length)))
        } else {
            Ok(PaletteRemoveV { offset: spec_u32_from_le_bytes(b.subrange(0, 4)), length })
        }
    }
}

/// Decode of a single-placement payload.
pub open spec fn spec_des_placement_insert(b: Seq<u8>) -> Result<PlacementInsertV, ErrorV> {
    if b.len() != 20 {
        Err(ErrorV::InvalidValueLength)
    } else {
        Ok(
            PlacementInsertV {
                time: spec_u64_from_le_bytes(b.subrange(0, 8)),
                pos: spec_u64_from_le_bytes(b.subrange(8, 16)),
                col: spec_u32_from_le_bytes(b.subrange(16, 20)),
            },
        )
    }
}

/// Decode of a fill-placement payload.
pub open spec fn spec_des_placement_insert_fill(b: Seq<u8>) -> Result<
    PlacementInsertFillV,
    ErrorV,
> {
    if b.len() != 28 {
        Err(ErrorV::InvalidValueLength)
    } else {
        Ok(
            PlacementInsertFillV {
                time: spec_u64_from_le_bytes(b.subrange(0, 8)),
                pos: (
                    spec_u64_from_le_bytes(b.subrange(8, 16)),
                    spec_u64_from_le_bytes(b.subrange(16, 24)),
                ),
                col: spec_u32_from_le_bytes(b.subrange(24, 28)),
            },
        )
    }
}

/// Decode of a placement-removal payload.
pub open spec fn spec_des_placement_remove(b: Seq<u8>) -> Result<PlacementRemoveV, ErrorV> {
    if b.len() != 16 {
        Err(ErrorV::InvalidValueLength)
    } else {
        Ok(
            PlacementRemoveV {
                time: spec_u64_from_le_bytes(b.subrange(0, 8)),
                pos: spec_u64_from_le_bytes(b.subrange(8, 16)),
            },
        )
    }
}

/// Decode of a fill-removal payload.
pub open spec fn spec_des_placement_remove_fill(b: Seq<u8>) -> Result<
    PlacementRemoveFillV,
    ErrorV,
> {
    if b.len() != 24 {
        Err(ErrorV::InvalidValueLength)
    } else {
        Ok(
            PlacementRemoveFillV {
                time: spec_u64_from_le_bytes(b.subrange(0, 8)),
                pos: (
                    spec_u64_from_le_bytes(b.subrange(8, 16)),
                    spec_u64_from_le_bytes(b.subrange(16, 24)),
                ),
            },
        )
    }
}

/// Decode of a numeric identifier payload: exactly eight bytes.
pub open spec fn spec_des_identify_numeric(b: Seq<u8>) -> Result<u64, ErrorV> {
    if b.len() != 8 {
        Err(ErrorV::InvalidValueLength)
    } else {
        Ok(spec_u64_from_le_bytes(b))
    }
}

/// Decode of a string identifier payload: the whole payload, as UTF-8.
pub open spec fn spec_des_identify_string(b: Seq<u8>) -> Result<Seq<char>, ErrorV> {
    if !valid_utf8(b) {
        Err(ErrorV::InvalidUTF8)
    } else {
        Ok(decode_utf8(b))
    }
}

/// Decode of a secret identifier payload: the whole payload, unchanged.
pub open spec fn spec_des_identify_secret(b: Seq<u8>) -> Result<Seq<u8>, ErrorV> {
    Ok(b)
}

// ---------------------------------------------------------------------------
// Per-kind decoders
// ---------------------------------------------------------------------------

/// Decodes a canvas metadata payload.
pub fn des_canvas_meta(buf: &[u8]) -> (r: Result<CanvasMeta, Error>)
    ensures
        match r {
            Ok(m) => spec_des_canvas_meta(buf@) == Ok::<CanvasMetaV, ErrorV>(m@),
            Err(e) => spec_des_canvas_meta(buf@) == Err::<CanvasMetaV, ErrorV>(e@),
        },
{
    let mut pos: usize = 0;
    let name_len = match take_u8(buf, &mut pos) {
        Some(v) => v,
        None => {
            return Err(Error::InvalidValueLength);
        },
    };
    let name_vec = match take_bytes(buf, &mut pos, name_len as usize) {
        Some(v) => v,
        None => {
            return Err(Error::InvalidValueLength);
        },
    };
    let name = match core::str::from_utf8(name_vec.as_slice()) {
        Ok(s) => s.to_owned(),
        Err(_) => {
            return Err(Error::InvalidUTF8);
        },
    };
    let plat_len = match take_u8(buf, &mut pos) {
        Some(v) => v,
        None => {
            return Err(Error::InvalidValueLength);
        },
    };
    let plat_vec = match take_bytes(buf, &mut pos, plat_len as usize) {
        Some(v) => v,
        None => {
            return Err(Error::InvalidValueLength);
        },
    };
    let platform = match core::str::from_utf8(plat_vec.as_slice()) {
        Ok(s) => s.to_owned(),
        Err(_) => {
            return Err(Error::InvalidUTF8);
        },
    };
    let time = match take_u64(buf, &mut pos) {
        Some(v) => v,
        None => {
            return Err(Error::InvalidValueLength);
        },
    };
    let width = match take_u32(buf, &mut pos) {
        Some(v) => v,
        None => {
            return Err(Error::InvalidValueLength);
        },
    };
    let height = match take_u32(buf, &mut pos) {
        Some(v) => v,
        None => {
            return Err(Error::InvalidValueLength);
        },
    };
    if pos != buf.len() {
        return Err(Error::InvalidValueLength);
    }
    Ok(CanvasMeta { name, platform, time, size: (width, height) })
}

/// Decodes a palette insertion payload. The remainder after the offset must
/// be an exact multiple of the 4-byte entry size: a partial trailing entry is
/// rejected, never silently dropped.
pub fn des_palette_insert(buf: &[u8]) -> (r: Result<PaletteInsert, Error>)
    ensures
        match r {
            Ok(p) => spec_des_palette_insert(buf@) == Ok::<PaletteInsertV, ErrorV>(p@),
            Err(e) => spec_des_palette_insert(buf@) == Err::<PaletteInsertV, ErrorV>(e@),
        },
{
    let mut pos: usize = 0;
    let offset = match take_u32(buf, &mut pos) {
        Some(v) => v,
        None => {
            return Err(Error::InvalidValueLength);
        },
    };
    if (buf.len() - 4) % 4 != 0 {
        return Err(Error::InvalidValueLength);
    }
    let mut colors: Vec<[u8; 4]> = Vec::new();
    while pos < buf.len()
        invariant
            4 <= pos <= buf@.len(),
            (buf@.len() - 4) % 4 == 0,
            pos == 4 + 4 * colors@.len(),
            forall|i: int|
                0 <= i < colors@.len() ==> (#[trigger] colors@[i])@ == buf@.subrange(
                    4 + 4 * i,
                    8 + 4 * i,
                ),
        decreases buf@.len() - pos,
    {
        proof {
            let k = colors@.len() as int;
            let n = (buf@.len() - 4) as int;
            assert(n % 4 == 0 && 4 * k < n ==> 4 * k + 4 <= n) by (nonlinear_arith);
        }
        let b0 = *vstd::slice::slice_index_get(buf, pos);
        let b1 = *vstd::slice::slice_index_get(buf, pos + 1);
        let b2 = *vstd::slice::slice_index_get(buf, pos + 2);
        let b3 = *vstd::slice::slice_index_get(buf, pos + 3);
        let c: [u8; 4] = [b0, b1, b2, b3];
        proof {
            assert(c@ =~= buf@.subrange(pos as int, pos + 4));
        }
        colors.push(c);
        pos = pos + 4;
    }
    let result = PaletteInsert { offset, colors };
    proof {
        let expected = spec_des_palette_insert(buf@)->Ok_0;
        assert forall|i: int| 0 <= i < result@.colors.len() implies result@.colors[i]
            == expected.colors[i] by {
            assert(colors@[i]@ == buf@.subrange(4 + 4 * i, 8 + 4 * i));
        }
        assert(result@.colors =~= expected.colors);
    }
    Ok(result)
}

/// Decodes a palette removal payload, applying the short-form default.
pub fn des_palette_remove(buf: &[u8]) -> (r: Result<PaletteRemove, Error>)
    ensures
        match r {
            Ok(p) => spec_des_palette_remove(buf@) == Ok::<PaletteRemoveV, ErrorV>(p@),
            Err(e) => spec_des_palette_remove(buf@) == Err::<PaletteRemoveV, ErrorV>(e@),
        },
{
    let mut pos: usize = 0;
    let offset = match take_u32(buf, &mut pos) {
        Some(v) => v,
        None => {
            return Err(Error::InvalidValueLength);
        },
    };
    if buf.len() == 4 {
        // The length field is legitimately absent: apply the default.
        return Ok(PaletteRemove { offset, length: 1 });
    }
    if buf.len() != 8 {
        return Err(Error::InvalidValueLength);
    }
    let length = match take_u32(buf, &mut pos) {
        Some(v) => v,
        None => {
            return Err(Error::InvalidValueLength);
        },
    };
    if length == 0 {
        return Err(Error::InvalidField(u32_to_le_bytes(length)));
    }
    Ok(PaletteRemove { offset, length })
}

/// Decodes a single-placement payload.
pub fn des_placement_insert(buf: &[u8]) -> (r: Result<PlacementInsert, Error>)
    ensures
        match r {
            Ok(p) => spec_des_placement_insert(buf@) == Ok::<PlacementInsertV, ErrorV>(p@),
            Err(e) => spec_des_placement_insert(buf@) == Err::<PlacementInsertV, ErrorV>(e@),
        },
{
    let mut pos: usize = 0;
    let time = match take_u64(buf, &mut pos) {
        Some(v) => v,
        None => {
            return Err(Error::InvalidValueLength);
        },
    };
    let packed = match take_u64(buf, &mut pos) {
        Some(v) => v,
        None => {
            return Err(Error::InvalidValueLength);
        },
    };
    let col = match take_u32(buf, &mut pos) {
        Some(v) => v,
        None => {
            return Err(Error::InvalidValueLength);
        },
    };
    if pos != buf.len() {
        return Err(Error::InvalidValueLength);
    }
    Ok(PlacementInsert { time, pos: packed, col })
}

/// Decodes a fill-placement payload.
pub fn des_placement_insert_fill(buf: &[u8]) -> (r: Result<PlacementInsertFill, Error>)
    ensures
        match r {
            Ok(p) => spec_des_placement_insert_fill(buf@) == Ok::<PlacementInsertFillV, ErrorV>(
                p@,
            ),
            Err(e) => spec_des_placement_insert_fill(buf@) == Err::<PlacementInsertFillV, ErrorV>(
                e@,
            ),
        },
{
    let mut pos: usize = 0;
    let time = match take_u64(buf, &mut pos) {
        Some(v) => v,
        None => {
            return Err(Error::InvalidValueLength);
        },
    };
    let lo = match take_u64(buf, &mut pos) {
        Some(v) => v,
        None => {
            return Err(Error::InvalidValueLength);
        },
    };
    let hi = match take_u64(buf, &mut pos) {
        Some(v) => v,
        None => {
            return Err(Error::InvalidValueLength);
        },
    };
    let col = match take_u32(buf, &mut pos) {
        Some(v) => v,
        None => {
            return Err(Error::InvalidValueLength);
        },
    };
    if pos != buf.len() {
        return Err(Error::InvalidValueLength);
    }
    Ok(PlacementInsertFill { time, pos: (lo, hi), col })
}

/// Decodes a placement-removal payload.
pub fn des_placement_remove(buf: &[u8]) -> (r: Result<PlacementRemove, Error>)
    ensures
        match r {
            Ok(p) => spec_des_placement_remove(buf@) == Ok::<PlacementRemoveV, ErrorV>(p@),
            Err(e) => spec_des_placement_remove(buf@) == Err::<PlacementRemoveV, ErrorV>(e@),
        },
{
    let mut pos: usize = 0;
    let time = match take_u64(buf, &mut pos) {
        Some(v) => v,
        None => {
            return Err(Error::InvalidValueLength);
        },
    };
    let packed = match take_u64(buf, &mut pos) {
        Some(v) => v,
        None => {
            return Err(Error::InvalidValueLength);
        },
    };
    if pos != buf.len() {
        return Err(Error::InvalidValueLength);
    }
    Ok(PlacementRemove { time, pos: packed })
}

/// Decodes a fill-removal payload.
pub fn des_placement_remove_fill(buf: &[u8]) -> (r: Result<PlacementRemoveFill, Error>)
    ensures
        match r {
            Ok(p) => spec_des_placement_remove_fill(buf@) == Ok::<PlacementRemoveFillV, ErrorV>(
                p@,
            ),
            Err(e) => spec_des_placement_remove_fill(buf@) == Err::<PlacementRemoveFillV, ErrorV>(
                e@,
            ),
        },
{
    let mut pos: usize = 0;
    let time = match take_u64(buf, &mut pos) {
        Some(v) => v,
        None => {
            return Err(Error::InvalidValueLength);
        },
    };
    let lo = match take_u64(buf, &mut pos) {
        Some(v) => v,
        None => {
            return Err(Error::InvalidValueLength);
        },
    };
    let hi = match take_u64(buf, &mut pos) {
        Some(v) => v,
        None => {
            return Err(Error::InvalidValueLength);
        },
    };
    if pos != buf.len() {
        return Err(Error::InvalidValueLength);
    }
    Ok(PlacementRemoveFill { time, pos: (lo, hi) })
}

/// Decodes a numeric identifier payload.
pub fn des_identify_numeric(buf: &[u8]) -> (r: Result<u64, Error>)
    ensures
        match r {
            Ok(n) => spec_des_identify_numeric(buf@) == Ok::<u64, ErrorV>(n),
            Err(e) => spec_des_identify_numeric(buf@) == Err::<u64, ErrorV>(e@),
        },
{
    let mut pos: usize = 0;
    let n = match take_u64(buf, &mut pos) {
        Some(v) => v,
        None => {
            return Err(Error::InvalidValueLength);
        },
    };
    if pos != buf.len() {
        return Err(Error::InvalidValueLength);
    }
    proof {
        assert(buf@.subrange(0, 8) =~= buf@);
    }
    Ok(n)
}

/// Decodes a string identifier payload.
pub fn des_identify_string(buf: &[u8]) -> (r: Result<String, Error>)
    ensures
        match r {
            Ok(s) => spec_des_identify_string(buf@) == Ok::<Seq<char>, ErrorV>(s@),
            Err(e) => spec_des_identify_string(buf@) == Err::<Seq<char>, ErrorV>(e@),
        },
{
    match core::str::from_utf8(buf) {
        Ok(s) => Ok(s.to_owned()),
        Err(_) => Err(Error::InvalidUTF8),
    }
}

// ---------------------------------------------------------------------------
// Per-kind encoders: each appends the record's byte image to the output
// buffer and returns the exact number of bytes appended.
// ---------------------------------------------------------------------------

/// Encodes a canvas metadata record. Both string fields are validated against
/// the 1-byte length prefix before anything is written: on failure the output
/// buffer is untouched and the error carries the oversized length.
pub fn ser_canvas_meta(buf: &mut Vec<u8>, record: &CanvasMeta) -> (r: Result<usize, Error>)
    ensures
        match r {
            Ok(n) => {
                &&& spec_ser_canvas_meta(record@) matches Ok(w)
                &&& final(buf)@ == old(buf)@ + w
                &&& n == w.len()
            },
            Err(e) => {
                &&& spec_ser_canvas_meta(record@) == Err::<Seq<u8>, ErrorV>(e@)
                &&& final(buf)@ == old(buf)@
            },
        },
{
    let name_bytes = record.name.as_str().as_bytes();
    if name_bytes.len() > 255 {
        return Err(Error::InvalidField(u64_to_le_bytes(name_bytes.len() as u64)));
    }
    let plat_bytes = record.platform.as_str().as_bytes();
    if plat_bytes.len() > 255 {
        return Err(Error::InvalidField(u64_to_le_bytes(plat_bytes.len() as u64)));
    }
    let start = buf.len();
    push_u8(buf, name_bytes.len() as u8);
    push_bytes(buf, name_bytes);
    push_u8(buf, plat_bytes.len() as u8);
    push_bytes(buf, plat_bytes);
    push_u64(buf, record.time);
    push_u32(buf, record.size.0);
    push_u32(buf, record.size.1);
    proof {
        assert(buf@ =~= old(buf)@ + canvas_meta_wire(record@));
    }
    Ok(buf.len() - start)
}

/// Encodes a palette insertion: the offset, then each colour entry in order.
pub fn ser_palette_insert(buf: &mut Vec<u8>, record: &PaletteInsert) -> (r: Result<usize, Error>)
    ensures
        match r {
            Ok(n) => {
                &&& final(buf)@ == old(buf)@ + palette_insert_wire(record@)
                &&& n == palette_insert_wire(record@).len()
            },
            Err(_) => false,
        },
{
    let start = buf.len();
    push_u32(buf, record.offset);
    let mut i: usize = 0;
    while i < record.colors.len()
        invariant
            i <= record.colors@.len(),
            buf@ == old(buf)@ + spec_u32_to_le_bytes(record.offset) + concat_chunks(
                record@.colors.take(i as int),
            ),
        decreases record.colors@.len() - i,
    {
        let c = record.colors[i];
        push_bytes(buf, vstd::array::array_as_slice(&c));
        proof {
            assert(record@.colors.take(i + 1) =~= record@.colors.take(i as int).push(c@));
            lemma_concat_chunks_push(record@.colors.take(i as int), c@);
        }
        i = i + 1;
    }
    proof {
        assert(record@.colors.take(record@.colors.len() as int) =~= record@.colors);
        assert(buf@ =~= old(buf)@ + palette_insert_wire(record@));
    }
    Ok(buf.len() - start)
}

/// Encodes a palette removal, choosing the short form exactly when the length
/// equals the default length 1.
pub fn ser_palette_remove(buf: &mut Vec<u8>, record: &PaletteRemove) -> (r: Result<usize, Error>)
    ensures
        match r {
            Ok(n) => {
                &&& final(buf)@ == old(buf)@ + palette_remove_wire(record@)
                &&& n == palette_remove_wire(record@).len()
            },
            Err(_) => false,
        },
{
    let start = buf.len();
    push_u32(buf, record.offset);
    if record.length > 1 {
        push_u32(buf, record.length);
    }
    proof {
        assert(buf@ =~= old(buf)@ + palette_remove_wire(record@));
    }
    Ok(buf.len() - start)
}

/// Encodes a single placement.
pub fn ser_placement_insert(buf: &mut Vec<u8>, record: &PlacementInsert) -> (r: Result<
    usize,
    Error,
>)
    ensures
        match r {
            Ok(n) => {
                &&& final(buf)@ == old(buf)@ + placement_insert_wire(record@)
                &&& n == placement_insert_wire(record@).len()
            },
            Err(_) => false,
        },
{
    let start = buf.len();
    push_u64(buf, record.time);
    push_u64(buf, record.pos);
    push_u32(buf, record.col);
    proof {
        assert(buf@ =~= old(buf)@ + placement_insert_wire(record@));
    }
    Ok(buf.len() - start)
}

/// Encodes a fill placement.
pub fn ser_placement_insert_fill(buf: &mut Vec<u8>, record: &PlacementInsertFill) -> (r: Result<
    usize,
    Error,
>)
    ensures
        match r {
            Ok(n) => {
                &&& final(buf)@ == old(buf)@ + placement_insert_fill_wire(record@)
                &&& n == placement_insert_fill_wire(record@).len()
            },
            Err(_) => false,
        },
{
    let start = buf.len();
    push_u64(buf, record.time);
    push_u64(buf, record.pos.0);
    push_u64(buf, record.pos.1);
    push_u32(buf, record.col);
    proof {
        assert(buf@ =~= old(buf)@ + placement_insert_fill_wire(record@));
    }
    Ok(buf.len() - start)
}

/// Encodes a placement removal.
pub fn ser_placement_remove(buf: &mut Vec<u8>, record: &PlacementRemove) -> (r: Result<
    usize,
    Error,
>)
    ensures
        match r {
            Ok(n) => {
                &&& final(buf)@ == old(buf)@ + placement_remove_wire(record@)
                &&& n == placement_remove_wire(record@).len()
            },
            Err(_) => false,
        },
{
    let start = buf.len();
    push_u64(buf, record.time);
    push_u64(buf, record.pos);
    proof {
        assert(buf@ =~= old(buf)@ + placement_remove_wire(record@));
    }
    Ok(buf.len() - start)
}

/// Encodes a fill removal.
pub fn ser_placement_remove_fill(buf: &mut Vec<u8>, record: &PlacementRemoveFill) -> (r: Result<
    usize,
    Error,
>)
    ensures
        match r {
            Ok(n) => {
                &&& final(buf)@ == old(buf)@ + placement_remove_fill_wire(record@)
                &&& n == placement_remove_fill_wire(record@).len()
            },
            Err(_) => false,
        },
{
    let start = buf.len();
    push_u64(buf, record.time);
    push_u64(buf, record.pos.0);
    push_u64(buf, record.pos.1);
    proof {
        assert(buf@ =~= old(buf)@ + placement_remove_fill_wire(record@));
    }
    Ok(buf.len() - start)
}

/// Encodes a numeric identifier.
pub fn ser_identify_numeric(buf: &mut Vec<u8>, record: u64) -> (r: Result<usize, Error>)
    ensures
        match r {
            Ok(n) => {
                &&& final(buf)@ == old(buf)@ + spec_u64_to_le_bytes(record)
                &&& n == spec_u64_to_le_bytes(record).len()
            },
            Err(_) => false,
        },
{
    let start = buf.len();
    push_u64(buf, record);
    Ok(buf.len() - start)
}

/// Encodes a string identifier: its UTF-8 bytes, with no length prefix.
pub fn ser_identify_string(buf: &mut Vec<u8>, record: &str) -> (r: Result<usize, Error>)
    ensures
        match r {
            Ok(n) => {
                &&& final(buf)@ == old(buf)@ + encode_utf8(record@)
                &&& n == encode_utf8(record@).len()
            },
            Err(_) => false,
        },
{
    let start = buf.len();
    push_bytes(buf, record.as_bytes());
    Ok(buf.len() - start)
}

/// Encodes a secret identifier: its raw bytes, unchanged.
pub fn ser_identify_secret(buf: &mut Vec<u8>, record: &[u8]) -> (r: Result<usize, Error>)
    ensures
        match r {
            Ok(n) => {
                &&& final(buf)@ == old(buf)@ + record@
                &&& n == record@.len()
            },
            Err(_) => false,
        },
{
    let start = buf.len();
    push_bytes(buf, record);
    Ok(buf.len() - start)
}

/// Decodes a secret identifier payload.
pub fn des_identify_secret(buf: &[u8]) -> (r: Result<Vec<u8>, Error>)
    ensures
        match r {
            Ok(v) => spec_des_identify_secret(buf@) == Ok::<Seq<u8>, ErrorV>(v@),
            Err(e) => spec_des_identify_secret(buf@) == Err::<Seq<u8>, ErrorV>(e@),
        },
{
    Ok(vstd::slice::slice_to_vec(buf))
}

// ---------------------------------------------------------------------------
// Dispatch
// ---------------------------------------------------------------------------

/// Decode of a payload under a declared type tag: a tag selects the per-kind
/// layout, a quiet tag routes to the same layout and marks the result quiet,
/// and an unrecognized tag is rejected.
pub open spec fn spec_des_record(id: u16, b: Seq<u8>) -> Result<RecordV, ErrorV> {
    if id == CANVAS_META_TYPE_ID {
        match spec_des_canvas_meta(b) {
            Ok(m) => Ok(RecordV::CanvasMeta(m)),
            Err(e) => Err(e),
        }
    } else if id == PALETTE_INSERT_TYPE_ID {
        match spec_des_palette_insert(b) {
            Ok(p) => Ok(RecordV::PaletteInsert(p)),
            Err(e) => Err(e),
        }
    } else if id == PALETTE_REMOVE_TYPE_ID {
        match spec_des_palette_remove(b) {
            Ok(p) => Ok(RecordV::PaletteRemove(p)),
            Err(e) => Err(e),
        }
    } else if id == PLACEMENT_INSERT_TYPE_ID {
        match spec_des_placement_insert(b) {
            Ok(p) => Ok(RecordV::PlacementInsert(p)),
            Err(e) => Err(e),
        }
    } else if id == PLACEMENT_INSERT_SILENT_TYPE_ID {
        match spec_des_placement_insert(b) {
            Ok(p) => Ok(RecordV::PlacementInsertQuiet(p)),
            Err(e) => Err(e),
        }
    } else if id == PLACEMENT_INSERT_FILL_TYPE_ID {
        match spec_des_placement_insert_fill(b) {
            Ok(p) => Ok(RecordV::PlacementInsertFill(p)),
            Err(e) => Err(e),
        }
    } else if id == PLACEMENT_INSERT_FILL_SILENT_TYPE_ID {
        match spec_des_placement_insert_fill(b) {
            Ok(p) => Ok(RecordV::PlacementInsertFillQuiet(p)),
            Err(e) => Err(e),
        }
    } else if id == PLACEMENT_REMOVE_TYPE_ID {
        match spec_des_placement_remove(b) {
            Ok(p) => Ok(RecordV::PlacementRemove(p)),
            Err(e) => Err(e),
        }
    } else if id == PLACEMENT_REMOVE_SILENT_TYPE_ID {
        match spec_des_placement_remove(b) {
            Ok(p) => Ok(RecordV::PlacementRemoveQuiet(p)),
            Err(e) => Err(e),
        }
    } else if id == PLACEMENT_REMOVE_FILL_TYPE_ID {
        match spec_des_placement_remove_fill(b) {
            Ok(p) => Ok(RecordV::PlacementRemoveFill(p)),
            Err(e) => Err(e),
        }
    } else if id == PLACEMENT_REMOVE_FILL_SILENT_TYPE_ID {
        match spec_des_placement_remove_fill(b) {
            Ok(p) => Ok(RecordV::PlacementRemoveFillQuiet(p)),
            Err(e) => Err(e),
        }
    } else if id == IDENTIFIER_NUMERIC_TYPE_ID {
        match spec_des_identify_numeric(b) {
            Ok(n) => Ok(RecordV::IdentifierNumeric(n)),
            Err(e) => Err(e),
        }
    } else if id == IDENTIFIER_STRING_TYPE_ID {
        match spec_des_identify_string(b) {
            Ok(s) => Ok(RecordV::IdentifierString(s)),
            Err(e) => Err(e),
        }
    } else if id == IDENTIFIER_SECRET_TYPE_ID {
        match spec_des_identify_secret(b) {
            Ok(v) => Ok(RecordV::IdentifierSecret(v)),
            Err(e) => Err(e),
        }
    } else {
        Err(ErrorV::UnexpectedType(id))
    }
}

impl Serialiser {
    /// Decodes a record from a type tag and the payload of exactly the
    /// declared length. A failure discards all partially-parsed state.
    pub fn deserialise_record(&self, id: u16, value: &[u8]) -> (r: Result<CanvasRecord, Error>)
        ensures
            match r {
                Ok(rec) => spec_des_record(id, value@) == Ok::<RecordV, ErrorV>(rec@),
                Err(e) => spec_des_record(id, value@) == Err::<RecordV, ErrorV>(e@),
            },
    {
        if id == CANVAS_META_TYPE_ID {
            match des_canvas_meta(value) {
                Ok(m) => Ok(CanvasRecord::CanvasMeta(m)),
                Err(e) => Err(e),
            }
        } else if id == PALETTE_INSERT_TYPE_ID {
            match des_palette_insert(value) {
                Ok(p) => Ok(CanvasRecord::PaletteInsert(p)),
                Err(e) => Err(e),
            }
        } else if id == PALETTE_REMOVE_TYPE_ID {
            match des_palette_remove(value) {
                Ok(p) => Ok(CanvasRecord::PaletteRemove(p)),
                Err(e) => Err(e),
            }
        } else if id == PLACEMENT_INSERT_TYPE_ID {
            match des_placement_insert(value) {
                Ok(p) => Ok(CanvasRecord::PlacementInsert(p)),
                Err(e) => Err(e),
            }
        } else if id == PLACEMENT_INSERT_SILENT_TYPE_ID {
            match des_placement_insert(value) {
                Ok(p) => Ok(CanvasRecord::PlacementInsertQuiet(p)),
                Err(e) => Err(e),
            }
        } else if id == PLACEMENT_INSERT_FILL_TYPE_ID {
            match des_placement_insert_fill(value) {
                Ok(p) => Ok(CanvasRecord::PlacementInsertFill(p)),
                Err(e) => Err(e),
            }
        } else if id == PLACEMENT_INSERT_FILL_SILENT_TYPE_ID {
            match des_placement_insert_fill(value) {
                Ok(p) => Ok(CanvasRecord::PlacementInsertFillQuiet(p)),
                Err(e) => Err(e),
            }
        } else if id == PLACEMENT_REMOVE_TYPE_ID {
            match des_placement_remove(value) {
                Ok(p) => Ok(CanvasRecord::PlacementRemove(p)),
                Err(e) => Err(e),
            }
        } else if id == PLACEMENT_REMOVE_SILENT_TYPE_ID {
            match des_placement_remove(value) {
                Ok(p) => Ok(CanvasRecord::PlacementRemoveQuiet(p)),
                Err(e) => Err(e),
            }
        } else if id == PLACEMENT_REMOVE_FILL_TYPE_ID {
            match des_placement_remove_fill(value) {
                Ok(p) => Ok(CanvasRecord::PlacementRemoveFill(p)),
                Err(e) => Err(e),
            }
        } else if id == PLACEMENT_REMOVE_FILL_SILENT_TYPE_ID {
            match des_placement_remove_fill(value) {
                Ok(p) => Ok(CanvasRecord::PlacementRemoveFillQuiet(p)),
                Err(e) => Err(e),
            }
        } else if id == IDENTIFIER_NUMERIC_TYPE_ID {
            match des_identify_numeric(value) {
                Ok(n) => Ok(CanvasRecord::IdentifierNumeric(n)),
                Err(e) => Err(e),
            }
        } else if id == IDENTIFIER_STRING_TYPE_ID {
            match des_identify_string(value) {
                Ok(s) => Ok(CanvasRecord::IdentifierString(s)),
                Err(e) => Err(e),
            }
        } else if id == IDENTIFIER_SECRET_TYPE_ID {
            match des_identify_secret(value) {
                Ok(v) => Ok(CanvasRecord::IdentifierSecret(v)),
                Err(e) => Err(e),
            }
        } else {
            Err(Error::UnexpectedType(id))
        }
    }

    /// Encodes a record by appending its byte image to the output buffer and
    /// returns the exact number of bytes appended. On failure the buffer is
    /// untouched and nothing is ever truncated silently.
    pub fn serialise_record(&self, value: &mut Vec<u8>, record: &CanvasRecord) -> (r: Result<
        usize,
        Error,
    >)
        ensures
            match r {
                Ok(n) => {
                    &&& spec_ser_record(record@) matches Ok(w)
                    &&& final(value)@ == old(value)@ + w
                    &&& n == w.len()
                },
                Err(e) => {
                    &&& spec_ser_record(record@) == Err::<Seq<u8>, ErrorV>(e@)
                    &&& final(value)@ == old(value)@
                },
            },
    {
        match record {
            CanvasRecord::CanvasMeta(m) => ser_canvas_meta(value, m),
            CanvasRecord::PaletteInsert(p) => ser_palette_insert(value, p),
            CanvasRecord::PaletteRemove(p) => ser_palette_remove(value, p),
            CanvasRecord::PlacementInsert(p) | CanvasRecord::PlacementInsertQuiet(p) => {
                ser_placement_insert(value, p)
            },
            CanvasRecord::PlacementInsertFill(p) | CanvasRecord::PlacementInsertFillQuiet(p) => {
                ser_placement_insert_fill(value, p)
            },
            CanvasRecord::PlacementRemove(p) | CanvasRecord::PlacementRemoveQuiet(p) => {
                ser_placement_remove(value, p)
            },
            CanvasRecord::PlacementRemoveFill(p) | CanvasRecord::PlacementRemoveFillQuiet(p) => {
                ser_placement_remove_fill(value, p)
            },
            CanvasRecord::IdentifierNumeric(n) => ser_identify_numeric(value, *n),
            CanvasRecord::IdentifierString(s) => ser_identify_string(value, s.as_str()),
            CanvasRecord::IdentifierSecret(raw) => ser_identify_secret(value, raw.as_slice()),
        }
    }
}

// ---------------------------------------------------------------------------
// Round-trip laws
// ---------------------------------------------------------------------------

/// Encoding a well-formed record whose variable-length fields fit always
/// succeeds, and decoding the encoded bytes under the record's own type tag
/// gives the record back. The encoding is consumed exactly: its whole length,
/// no more and no less, is what the decoder accepts.
pub proof fn lemma_serialise_deserialise(r: RecordV)
    requires
        record_wf(r),
        record_fits(r),
    ensures
        spec_ser_record(r) == Ok::<Seq<u8>, ErrorV>(record_wire(r)),
        spec_des_record(record_type_id(r), record_wire(r)) == Ok::<RecordV, ErrorV>(r),
{
    lemma_auto_spec_u32_to_from_le_bytes();
    lemma_auto_spec_u64_to_from_le_bytes();
    broadcast use vstd::utf8::encode_utf8_valid_utf8;
    broadcast use vstd::utf8::encode_utf8_decode_utf8;

    match r {
        RecordV::CanvasMeta(m) => {
            let name = encode_utf8(m.name);
            let plat = encode_utf8(m.platform);
            let w = canvas_meta_wire(m);
            let nlen = name.len() as int;
            let plen = plat.len() as int;
            let p0 = 1 + nlen;
            let p1 = p0 + 1 + plen;
            assert(w.len() == p1 + 16);
            assert(w[0] == nlen as u8);
            assert(w.subrange(1, 1 + nlen) =~= name);
            assert(w[p0] == plen as u8);
            assert(w.subrange(p0 + 1, p0 + 1 + plen) =~= plat);
            assert(w.subrange(p1, p1 + 8) =~= spec_u64_to_le_bytes(m.time));
            assert(w.subrange(p1 + 8, p1 + 12) =~= spec_u32_to_le_bytes(m.size.0));
            assert(w.subrange(p1 + 12, p1 + 16) =~= spec_u32_to_le_bytes(m.size.1));
            assert(spec_des_canvas_meta(w) matches Ok(mm) && mm =~= m);
        },
        RecordV::PaletteInsert(p) => {
            let w = palette_insert_wire(p);
            let n = p.colors.len() as int;
            lemma_concat_chunks_fixed(p.colors, 4);
            assert(w.len() == 4 + 4 * n);
            assert((w.len() - 4) % 4 == 0) by {
                assert((4 * n) % 4 == 0) by (nonlinear_arith);
            }
            assert(w.subrange(0, 4) =~= spec_u32_to_le_bytes(p.offset));
            let cw = concat_chunks(p.colors);
            assert forall|i: int| 0 <= i < n implies w.subrange(4 + 4 * i, 8 + 4 * i)
                == #[trigger] p.colors[i] by {
                assert(w.subrange(4 + 4 * i, 8 + 4 * i) =~= cw.subrange(4 * i, 4 * i + 4));
            }
            assert(((4 + 4 * n - 4) / 4) as nat == n as nat) by (nonlinear_arith);
            assert(spec_des_palette_insert(w) matches Ok(pp) && pp =~= p);
        },
        RecordV::PaletteRemove(p) => {
            let w = palette_remove_wire(p);
            if p.length > 1 {
                assert(w.len() == 8);
                assert(w.subrange(0, 4) =~= spec_u32_to_le_bytes(p.offset));
                assert(w.subrange(4, 8) =~= spec_u32_to_le_bytes(p.length));
                assert(spec_des_palette_remove(w) matches Ok(pp) && pp =~= p);
            } else {
                assert(w.len() == 4);
                assert(w.subrange(0, 4) =~= spec_u32_to_le_bytes(p.offset));
                assert(spec_des_palette_remove(w) matches Ok(pp) && pp =~= p);
            }
        },
        RecordV::PlacementInsert(p) | RecordV::PlacementInsertQuiet(p) => {
            let w = placement_insert_wire(p);
            assert(w.len() == 20);
            assert(w.subrange(0, 8) =~= spec_u64_to_le_bytes(p.time));
            assert(w.subrange(8, 16) =~= spec_u64_to_le_bytes(p.pos));
            assert(w.subrange(16, 20) =~= spec_u32_to_le_bytes(p.col));
            assert(spec_des_placement_insert(w) matches Ok(pp) && pp =~= p);
        },
        RecordV::PlacementInsertFill(p) | RecordV::PlacementInsertFillQuiet(p) => {
            let w = placement_insert_fill_wire(p);
            assert(w.len() == 28);
            assert(w.subrange(0, 8) =~= spec_u64_to_le_bytes(p.time));
            assert(w.subrange(8, 16) =~= spec_u64_to_le_bytes(p.pos.0));
            assert(w.subrange(16, 24) =~= spec_u64_to_le_bytes(p.pos.1));
            assert(w.subrange(24, 28) =~= spec_u32_to_le_bytes(p.col));
            assert(spec_des_placement_insert_fill(w) matches Ok(pp) && pp =~= p);
        },
        RecordV::PlacementRemove(p) | RecordV::PlacementRemoveQuiet(p) => {
            let w = placement_remove_wire(p);
            assert(w.len() == 16);
            assert(w.subrange(0, 8) =~= spec_u64_to_le_bytes(p.time));
            assert(w.subrange(8, 16) =~= spec_u64_to_le_bytes(p.pos));
            assert(spec_des_placement_remove(w) matches Ok(pp) && pp =~= p);
        },
        RecordV::PlacementRemoveFill(p) | RecordV::PlacementRemoveFillQuiet(p) => {
            let w = placement_remove_fill_wire(p);
            assert(w.len() == 24);
            assert(w.subrange(0, 8) =~= spec_u64_to_le_bytes(p.time));
            assert(w.subrange(8, 16) =~= spec_u64_to_le_bytes(p.pos.0));
            assert(w.subrange(16, 24) =~= spec_u64_to_le_bytes(p.pos.1));
            assert(spec_des_placement_remove_fill(w) matches Ok(pp) && pp =~= p);
        },
        RecordV::IdentifierNumeric(n) => {
            let w = spec_u64_to_le_bytes(n);
            assert(w.subrange(0, 8) =~= w);
        },
        RecordV::IdentifierString(s) => {
            assert(valid_utf8(encode_utf8(s)));
            assert(decode_utf8(encode_utf8(s)) == s);
        },
        RecordV::IdentifierSecret(_) => {},
    }
}

/// Decoding a payload and re-encoding the record gives the payload back, for
/// every payload in canonical form. The one non-canonical form is a palette
/// removal whose length field is written explicitly although it equals the
/// default 1: it decodes to the same record as the short form, which is what
/// re-encoding then produces.
pub proof fn lemma_deserialise_serialise(id: u16, b: Seq<u8>)
    requires
        spec_des_record(id, b) is Ok,
        !(id == PALETTE_REMOVE_TYPE_ID && b.len() == 8 && spec_u32_from_le_bytes(
            b.subrange(4, 8),
        ) == 1),
    ensures
        ({
            let r = spec_des_record(id, b)->Ok_0;
            &&& record_type_id(r) == id
            &&& record_wf(r)
            &&& record_fits(r)
            &&& spec_ser_record(r) == Ok::<Seq<u8>, ErrorV>(b)
        }),
{
    lemma_auto_spec_u32_to_from_le_bytes();
    lemma_auto_spec_u64_to_from_le_bytes();
    broadcast use vstd::utf8::decode_utf8_encode_utf8;

    let r = spec_des_record(id, b)->Ok_0;
    if id == CANVAS_META_TYPE_ID {
        let nlen = b[0] as int;
        let nbytes = b.subrange(1, 1 + nlen);
        let p0 = 1 + nlen;
        let plen = b[p0] as int;
        let pbytes = b.subrange(p0 + 1, p0 + 1 + plen);
        let p1 = p0 + 1 + plen;
        let m = spec_des_canvas_meta(b)->Ok_0;
        assert(encode_utf8(m.name) == nbytes);
        assert(encode_utf8(m.platform) == pbytes);
        assert(spec_u64_to_le_bytes(m.time) == b.subrange(p1, p1 + 8));
        assert(spec_u32_to_le_bytes(m.size.0) == b.subrange(p1 + 8, p1 + 12));
        assert(spec_u32_to_le_bytes(m.size.1) == b.subrange(p1 + 12, p1 + 16));
        assert(canvas_meta_wire(m) =~= b);
    } else if id == PALETTE_INSERT_TYPE_ID {
        let p = spec_des_palette_insert(b)->Ok_0;
        let n = p.colors.len() as int;
        let t = b.subrange(4, b.len() as int);
        assert(4 * n == t.len()) by {
            vstd::arithmetic::div_mod::lemma_fundamental_div_mod(b.len() - 4, 4);
        }
        assert forall|i: int| 0 <= i < n implies #[trigger] p.colors[i] == t.subrange(
            4 * i,
            4 * i + 4,
        ) by {
            assert(b.subrange(4 + 4 * i, 8 + 4 * i) =~= t.subrange(4 * i, 4 * i + 4));
        }
        lemma_concat_chunks_reconstruct(p.colors, t, 4);
        assert(spec_u32_to_le_bytes(p.offset) == b.subrange(0, 4));
        assert(palette_insert_wire(p) =~= b);
    } else if id == PALETTE_REMOVE_TYPE_ID {
        let p = spec_des_palette_remove(b)->Ok_0;
        if b.len() == 4 {
            assert(p.length == 1);
            assert(spec_u32_to_le_bytes(p.offset) == b.subrange(0, 4));
            assert(palette_remove_wire(p) =~= b);
        } else {
            assert(b.len() == 8);
            assert(p.length > 1);
            assert(spec_u32_to_le_bytes(p.offset) == b.subrange(0, 4));
            assert(spec_u32_to_le_bytes(p.length) == b.subrange(4, 8));
            assert(palette_remove_wire(p) =~= b);
        }
    } else if id == PLACEMENT_INSERT_TYPE_ID || id == PLACEMENT_INSERT_SILENT_TYPE_ID {
        let p = spec_des_placement_insert(b)->Ok_0;
        assert(spec_u64_to_le_bytes(p.time) == b.subrange(0, 8));
        assert(spec_u64_to_le_bytes(p.pos) == b.subrange(8, 16));
        assert(spec_u32_to_le_bytes(p.col) == b.subrange(16, 20));
        assert(placement_insert_wire(p) =~= b);
    } else if id == PLACEMENT_INSERT_FILL_TYPE_ID || id == PLACEMENT_INSERT_FILL_SILENT_TYPE_ID {
        let p = spec_des_placement_insert_fill(b)->Ok_0;
        assert(spec_u64_to_le_bytes(p.time) == b.subrange(0, 8));
        assert(spec_u64_to_le_bytes(p.pos.0) == b.subrange(8, 16));
        assert(spec_u64_to_le_bytes(p.pos.1) == b.subrange(16, 24));
        assert(spec_u32_to_le_bytes(p.col) == b.subrange(24, 28));
        assert(placement_insert_fill_wire(p) =~= b);
    } else if id == PLACEMENT_REMOVE_TYPE_ID || id == PLACEMENT_REMOVE_SILENT_TYPE_ID {
        let p = spec_des_placement_remove(b)->Ok_0;
        assert(spec_u64_to_le_bytes(p.time) == b.subrange(0, 8));
        assert(spec_u64_to_le_bytes(p.pos) == b.subrange(8, 16));
        assert(placement_remove_wire(p) =~= b);
    } else if id == PLACEMENT_REMOVE_FILL_TYPE_ID || id == PLACEMENT_REMOVE_FILL_SILENT_TYPE_ID {
        let p = spec_des_placement_remove_fill(b)->Ok_0;
        assert(spec_u64_to_le_bytes(p.time) == b.subrange(0, 8));
        assert(spec_u64_to_le_bytes(p.pos.0) == b.subrange(8, 16));
        assert(spec_u64_to_le_bytes(p.pos.1) == b.subrange(16, 24));
        assert(placement_remove_fill_wire(p) =~= b);
    } else if id == IDENTIFIER_NUMERIC_TYPE_ID {
        assert(record_wire(r) =~= b);
    } else if id == IDENTIFIER_STRING_TYPE_ID {
        assert(encode_utf8(decode_utf8(b)) == b);
    } else {
        assert(id == IDENTIFIER_SECRET_TYPE_ID);
    }
}

/// Every successfully decoded record is well-formed, fits its wire encoding,
/// and carries the type tag it was decoded under: decoding never constructs a
/// record the model's invariants rule out, whatever the payload was.
pub proof fn lemma_deserialise_wf(id: u16, b: Seq<u8>)
    requires
        spec_des_record(id, b) is Ok,
    ensures
        ({
            let r = spec_des_record(id, b)->Ok_0;
            &&& record_type_id(r) == id
            &&& record_wf(r)
            &&& record_fits(r)
        }),
{
    broadcast use vstd::utf8::decode_utf8_encode_utf8;

    if id == CANVAS_META_TYPE_ID {
        let nlen = b[0] as int;
        let nbytes = b.subrange(1, 1 + nlen);
        let p0 = 1 + nlen;
        let plen = b[p0] as int;
        let pbytes = b.subrange(p0 + 1, p0 + 1 + plen);
        let m = spec_des_canvas_meta(b)->Ok_0;
        assert(encode_utf8(m.name) == nbytes);
        assert(encode_utf8(m.platform) == pbytes);
    }
}

/// The quiet counterpart of a record: placement records gain the
/// notification-suppressing tag, every other record is unchanged.
pub open spec fn quiet_of(r: RecordV) -> RecordV {
    match r {
        RecordV::PlacementInsert(p) => RecordV::PlacementInsertQuiet(p),
        RecordV::PlacementInsertFill(p) => RecordV::PlacementInsertFillQuiet(p),
        RecordV::PlacementRemove(p) => RecordV::PlacementRemoveQuiet(p),
        RecordV::PlacementRemoveFill(p) => RecordV::PlacementRemoveFillQuiet(p),
        _ => r,
    }
}

/// A record and its quiet counterpart encode to byte-identical payloads: the
/// quiet flag lives purely in the type tag, never in the wire shape.
pub proof fn lemma_quiet_encoding(r: RecordV)
    ensures
        record_wire(quiet_of(r)) == record_wire(r),
        spec_ser_record(quiet_of(r)) == spec_ser_record(r),
        record_silent(r) ==> quiet_of(r) == r,
{
}

/// Decoding under a quiet placement tag parses exactly as under the plain
/// tag and only re-tags the result quiet.
pub proof fn lemma_quiet_decoding(b: Seq<u8>)
    ensures
        spec_des_record(PLACEMENT_INSERT_SILENT_TYPE_ID, b) == (match spec_des_record(
            PLACEMENT_INSERT_TYPE_ID,
            b,
        ) {
            Ok(r) => Ok::<RecordV, ErrorV>(quiet_of(r)),
            Err(e) => Err(e),
        }),
        spec_des_record(PLACEMENT_INSERT_FILL_SILENT_TYPE_ID, b) == (match spec_des_record(
            PLACEMENT_INSERT_FILL_TYPE_ID,
            b,
        ) {
            Ok(r) => Ok::<RecordV, ErrorV>(quiet_of(r)),
            Err(e) => Err(e),
        }),
        spec_des_record(PLACEMENT_REMOVE_SILENT_TYPE_ID, b) == (match spec_des_record(
            PLACEMENT_REMOVE_TYPE_ID,
            b,
        ) {
            Ok(r) => Ok::<RecordV, ErrorV>(quiet_of(r)),
            Err(e) => Err(e),
        }),
        spec_des_record(PLACEMENT_REMOVE_FILL_SILENT_TYPE_ID, b) == (match spec_des_record(
            PLACEMENT_REMOVE_FILL_TYPE_ID,
            b,
        ) {
            Ok(r) => Ok::<RecordV, ErrorV>(quiet_of(r)),
            Err(e) => Err(e),
        }),
{
}

/// Short-form and long-form palette removals are equivalent: a 4-byte payload
/// and an 8-byte payload with explicit length 1 decode to the identical
/// record, whose canonical encoding is the 4-byte short form; an explicitly
/// encoded length of zero is rejected with the offending bytes.
pub proof fn lemma_palette_remove_forms(offset: u32)
    ensures
        spec_des_record(PALETTE_REMOVE_TYPE_ID, spec_u32_to_le_bytes(offset)) == Ok::<
            RecordV,
            ErrorV,
        >(RecordV::PaletteRemove(PaletteRemoveV { offset, length: 1 })),
        spec_des_record(
            PALETTE_REMOVE_TYPE_ID,
            spec_u32_to_le_bytes(offset) + spec_u32_to_le_bytes(1),
        ) == Ok::<RecordV, ErrorV>(RecordV::PaletteRemove(PaletteRemoveV { offset, length: 1 })),
        spec_ser_record(RecordV::PaletteRemove(PaletteRemoveV { offset, length: 1 }))
            == Ok::<Seq<u8>, ErrorV>(spec_u32_to_le_bytes(offset)),
        spec_u32_to_le_bytes(offset).len() == 4,
        spec_des_record(
            PALETTE_REMOVE_TYPE_ID,
            spec_u32_to_le_bytes(offset) + spec_u32_to_le_bytes(0),
        ) == Err::<RecordV, ErrorV>(ErrorV::InvalidField(spec_u32_to_le_bytes(0u32))),
{
    lemma_auto_spec_u32_to_from_le_bytes();
    let short = spec_u32_to_le_bytes(offset);
    let long = spec_u32_to_le_bytes(offset) + spec_u32_to_le_bytes(1);
    let zero = spec_u32_to_le_bytes(offset) + spec_u32_to_le_bytes(0);
    assert(short.subrange(0, 4) =~= short);
    assert(long.len() == 8);
    assert(long.subrange(0, 4) =~= short);
    assert(long.subrange(4, 8) =~= spec_u32_to_le_bytes(1));
    assert(zero.len() == 8);
    assert(zero.subrange(0, 4) =~= short);
    assert(zero.subrange(4, 8) =~= spec_u32_to_le_bytes(0));
}

} // verus!
