//! Readers for the event-log format: each takes the payload bytes of exactly
//! the framed length and produces an event value or a typed error.
//!
//! A read past the end of the payload fails with the I/O marker, a string
//! field with invalid text fails with `InvalidString`, and a payload whose
//! length does not fit the event layout fails with `InvalidLength`. A partial
//! trailing element is rejected, never silently dropped.

use vstd::prelude::*;
use vstd::bytes::{spec_u16_from_le_bytes, spec_u32_from_le_bytes, spec_u64_from_le_bytes};
use vstd::utf8::{decode_utf8, valid_utf8};
use crate::bytes::{spec_i64_from_le_bytes, take_bytes, take_i64, take_u16, take_u32, take_u64, take_u8};
use crate::error::{PError, PResult, StringEncoding};
use crate::events::{
    CanvasEvent, CanvasMeta, CanvasMetaV, CanvasModify, EventV, MetaId, MetaIdV, ModifyMap,
    ModifyMapV, PaletteChunk, PaletteChunkV, Placement, PlacementChunk, PlacementChunkV,
    CANVAS_META_ID, CANVAS_MODIFY_ID, PALETTE_CHUNK_ID, PLACEMENT_ID, PLACEMENT_QUIET_ID,
    PLACEMENT_CHUNK_ID, PLACEMENT_CHUNK_QUIET_ID, META_ID, META_UNIQUE_ID, MODIFY_MAP_ID,
};

verus! {

/// Rejects a payload length other than the one the event layout expects.
pub fn check_len(len: usize, expected_len: usize) -> (r: PResult<()>)
    ensures
        r == if len == expected_len {
            Ok::<(), PError>(())
        } else {
            Err::<(), PError>(PError::InvalidLength(len, expected_len))
        },
{
    if len != expected_len {
        Err(PError::InvalidLength(len, expected_len))
    } else {
        Ok(())
    }
}

// ---------------------------------------------------------------------------
// Decode specification
// ---------------------------------------------------------------------------

/// Decode of a canvas metadata payload. A non-positive end time on the wire
/// denotes "no end time".
pub open spec fn spec_read_canvas_meta(b: Seq<u8>) -> Result<CanvasMetaV, PError> {
    if b.len() < 26 {
        Err(PError::Io)
    } else {
        let nlen = spec_u16_from_le_bytes(b.subrange(24, 26)) as int;
        if b.len() < 26 + nlen {
            Err(PError::Io)
        } else {
            let nbytes = b.subrange(26, 26 + nlen);
            if !valid_utf8(nbytes) {
                Err(PError::InvalidString(StringEncoding::Utf8))
            } else if b.len() < 28 + nlen {
                Err(PError::Io)
            } else {
                let plen = spec_u16_from_le_bytes(b.subrange(26 + nlen, 28 + nlen)) as int;
                if b.len() < 28 + nlen + plen {
                    Err(PError::Io)
                } else {
                    let pbytes = b.subrange(28 + nlen, 28 + nlen + plen);
                    if !valid_utf8(pbytes) {
                        Err(PError::InvalidString(StringEncoding::Utf8))
                    } else if b.len() != 28 + nlen + plen {
                        Err(
                            PError::InvalidLength(
                                b.len() as usize,
                                (28 + nlen + plen) as usize,
                            ),
                        )
                    } else {
                        let time_end = spec_i64_from_le_bytes(b.subrange(16, 24));
                        Ok(
                            CanvasMetaV {
                                size: (
                                    spec_u32_from_le_bytes(b.subrange(0, 4)),
                                    spec_u32_from_le_bytes(b.subrange(4, 8)),
                                ),
                                time_start: spec_i64_from_le_bytes(b.subrange(8, 16)),
                                time_end: if time_end > 0 {
                                    Some(time_end)
                                } else {
                                    None
                                },
                                name: decode_utf8(nbytes),
                                platform: decode_utf8(pbytes),
                            },
                        )
                    }
                }
            }
        }
    }
}

/// Decode of a canvas resize payload: exactly the two dimensions.
pub open spec fn spec_read_canvas_modify(b: Seq<u8>) -> Result<CanvasModify, PError> {
    if b.len() != 8 {
        Err(PError::InvalidLength(b.len() as usize, 8))
    } else {
        Ok(
            CanvasModify {
                size: (
                    spec_u32_from_le_bytes(b.subrange(0, 4)),
                    spec_u32_from_le_bytes(b.subrange(4, 8)),
                ),
            },
        )
    }
}

/// Decode of a palette chunk payload: the offset, then 4-byte colour entries
/// filling the remainder exactly.
pub open spec fn spec_read_palette_chunk(b: Seq<u8>) -> Result<PaletteChunkV, PError> {
    if b.len() < 8 {
        Err(PError::Io)
    } else {
        let n = (b.len() - 8) / 4;
        if (b.len() - 8) % 4 != 0 {
            Err(PError::InvalidLength(b.len() as usize, (8 + 4 * n) as usize))
        } else {
            Ok(
                PaletteChunkV {
                    offset: spec_u64_from_le_bytes(b.subrange(0, 8)),
                    colors: Seq::new(n as nat, |i: int| b.subrange(8 + 4 * i, 12 + 4 * i)),
                },
            )
        }
    }
}

/// Decode of a single-placement payload: exactly coordinates, palette index
/// and timestamp.
pub open spec fn spec_read_placement(b: Seq<u8>) -> Result<Placement, PError> {
    if b.len() != 18 {
        Err(PError::InvalidLength(b.len() as usize, 18))
    } else {
        Ok(
            Placement {
                pos: (
                    spec_u32_from_le_bytes(b.subrange(0, 4)),
                    spec_u32_from_le_bytes(b.subrange(4, 8)),
                ),
                color_index: spec_u16_from_le_bytes(b.subrange(8, 10)),
                time: spec_i64_from_le_bytes(b.subrange(10, 18)),
            },
        )
    }
}

/// Decode of a placement chunk payload: coordinates and timestamp, then
/// 2-byte palette indexes filling the remainder exactly.
pub open spec fn spec_read_placement_chunk(b: Seq<u8>) -> Result<PlacementChunkV, PError> {
    if b.len() < 16 {
        Err(PError::Io)
    } else {
        let n = (b.len() - 16) / 2;
        if (b.len() - 16) % 2 != 0 {
            Err(PError::InvalidLength(b.len() as usize, (16 + 2 * n) as usize))
        } else {
            Ok(
                PlacementChunkV {
                    pos: (
                        spec_u32_from_le_bytes(b.subrange(0, 4)),
                        spec_u32_from_le_bytes(b.subrange(4, 8)),
                    ),
                    time: spec_i64_from_le_bytes(b.subrange(8, 16)),
                    color_indexes: Seq::new(
                        n as nat,
                        |i: int| spec_u16_from_le_bytes(b.subrange(16 + 2 * i, 18 + 2 * i)),
                    ),
                },
            )
        }
    }
}

/// Decode of a contributor identifier payload: a layout byte, then the
/// identifier bytes filling the remainder.
pub open spec fn spec_read_meta_id(b: Seq<u8>) -> Result<MetaIdV, PError> {
    if b.len() < 1 {
        Err(PError::Io)
    } else {
        let rest = b.subrange(1, b.len() as int);
        if b[0] == 0 {
            Ok(MetaIdV::Numerical(rest))
        } else if b[0] == 1 {
            if !valid_utf8(rest) {
                Err(PError::InvalidString(StringEncoding::Utf8))
            } else {
                Ok(MetaIdV::Username(decode_utf8(rest)))
            }
        } else {
            Err(PError::InvalidValue(b[0] as u64))
        }
    }
}

/// Decode of a coordinate remap payload: region position and size, then
/// exactly one 8-byte coordinate pair per cell of the region.
pub open spec fn spec_read_modify_map(b: Seq<u8>) -> Result<ModifyMapV, PError> {
    if b.len() < 16 {
        Err(PError::Io)
    } else {
        let s0 = spec_u32_from_le_bytes(b.subrange(8, 12));
        let s1 = spec_u32_from_le_bytes(b.subrange(12, 16));
        let need = s0 * s1 * 8;
        if b.len() - 16 < need {
            Err(PError::Io)
        } else if b.len() - 16 > need {
            Err(PError::InvalidLength(b.len() as usize, (16 + need) as usize))
        } else {
            Ok(
                ModifyMapV {
                    pos: (
                        spec_u32_from_le_bytes(b.subrange(0, 4)),
                        spec_u32_from_le_bytes(b.subrange(4, 8)),
                    ),
                    size: (s0, s1),
                    map: Seq::new(
                        (s0 * s1) as nat,
                        |i: int| (
                            spec_u32_from_le_bytes(b.subrange(16 + 8 * i, 20 + 8 * i)),
                            spec_u32_from_le_bytes(b.subrange(20 + 8 * i, 24 + 8 * i)),
                        ),
                    ),
                },
            )
        }
    }
}

// ---------------------------------------------------------------------------
// Readers
// ---------------------------------------------------------------------------

/// Reads a canvas metadata payload.
pub fn read_canvas_meta(data: &[u8]) -> (r: PResult<CanvasMeta>)
    ensures
        match r {
            Ok(e) => spec_read_canvas_meta(data@) == Ok::<CanvasMetaV, PError>(e@),
            Err(e) => spec_read_canvas_meta(data@) == Err::<CanvasMetaV, PError>(e),
        },
{
    let mut pos: usize = 0;
    let width = match take_u32(data, &mut pos) {
        Some(v) => v,
        None => {
            return Err(PError::Io);
        },
    };
    let height = match take_u32(data, &mut pos) {
        Some(v) => v,
        None => {
            return Err(PError::Io);
        },
    };
    let time_start = match take_i64(data, &mut pos) {
        Some(v) => v,
        None => {
            return Err(PError::Io);
        },
    };
    let time_end_raw = match take_i64(data, &mut pos) {
        Some(v) => v,
        None => {
            return Err(PError::Io);
        },
    };
    let time_end = if time_end_raw > 0 {
        Some(time_end_raw)
    } else {
        None
    };
    let name_len = match take_u16(data, &mut pos) {
        Some(v) => v,
        None => {
            return Err(PError::Io);
        },
    };
    let name_vec = match take_bytes(data, &mut pos, name_len as usize) {
        Some(v) => v,
        None => {
            return Err(PError::Io);
        },
    };
    let name = match core::str::from_utf8(name_vec.as_slice()) {
        Ok(s) => s.to_owned(),
        Err(_) => {
            return Err(PError::InvalidString(StringEncoding::Utf8));
        },
    };
    let plat_len = match take_u16(data, &mut pos) {
        Some(v) => v,
        None => {
            return Err(PError::Io);
        },
    };
    let plat_vec = match take_bytes(data, &mut pos, plat_len as usize) {
        Some(v) => v,
        None => {
            return Err(PError::Io);
        },
    };
    let platform = match core::str::from_utf8(plat_vec.as_slice()) {
        Ok(s) => s.to_owned(),
        Err(_) => {
            return Err(PError::InvalidString(StringEncoding::Utf8));
        },
    };
    proof {
        broadcast use vstd::utf8::decode_utf8_encode_utf8;

        assert(vstd::utf8::encode_utf8(name@) == name_vec@);
        assert(vstd::utf8::encode_utf8(platform@) == plat_vec@);
    }
    check_len(data.len(), name.as_str().len() + platform.as_str().len() + 28)?;
    Ok(CanvasMeta { size: (width, height), time_start, time_end, name, platform })
}

/// Reads a canvas resize payload.
pub fn read_canvas_modify(data: &[u8]) -> (r: PResult<CanvasModify>)
    ensures
        match r {
            Ok(e) => spec_read_canvas_modify(data@) == Ok::<CanvasModify, PError>(e),
            Err(e) => spec_read_canvas_modify(data@) == Err::<CanvasModify, PError>(e),
        },
{
    check_len(data.len(), 8)?;
    let mut pos: usize = 0;
    let width = match take_u32(data, &mut pos) {
        Some(v) => v,
        None => {
            return Err(PError::Io);
        },
    };
    let height = match take_u32(data, &mut pos) {
        Some(v) => v,
        None => {
            return Err(PError::Io);
        },
    };
    Ok(CanvasModify { size: (width, height) })
}

/// Reads a palette chunk payload.
pub fn read_palette_chunk(data: &[u8]) -> (r: PResult<PaletteChunk>)
    ensures
        match r {
            Ok(e) => spec_read_palette_chunk(data@) == Ok::<PaletteChunkV, PError>(e@),
            Err(e) => spec_read_palette_chunk(data@) == Err::<PaletteChunkV, PError>(e),
        },
{
    let mut pos: usize = 0;
    let offset = match take_u64(data, &mut pos) {
        Some(v) => v,
        None => {
            return Err(PError::Io);
        },
    };
    if (data.len() - 8) % 4 != 0 {
        return Err(PError::InvalidLength(data.len(), 8 + (data.len() - 8) / 4 * 4));
    }
    let mut colors: Vec<[u8; 4]> = Vec::new();
    while pos < data.len()
        invariant
            8 <= pos <= data@.len(),
            (data@.len() - 8) % 4 == 0,
            pos == 8 + 4 * colors@.len(),
            forall|i: int|
                0 <= i < colors@.len() ==> (#[trigger] colors@[i])@ == data@.subrange(
                    8 + 4 * i,
                    12 + 4 * i,
                ),
        decreases data@.len() - pos,
    {
        proof {
            let k = colors@.len() as int;
            let n = (data@.len() - 8) as int;
            assert(n % 4 == 0 && 4 * k < n ==> 4 * k + 4 <= n) by (nonlinear_arith);
        }
        let b0 = *vstd::slice::slice_index_get(data, pos);
        let b1 = *vstd::slice::slice_index_get(data, pos + 1);
        let b2 = *vstd::slice::slice_index_get(data, pos + 2);
        let b3 = *vstd::slice::slice_index_get(data, pos + 3);
        let c: [u8; 4] = [b0, b1, b2, b3];
        proof {
            assert(c@ =~= data@.subrange(pos as int, pos + 4));
        }
        colors.push(c);
        pos = pos + 4;
    }
    let result = PaletteChunk { offset, colors };
    proof {
        let expected = spec_read_palette_chunk(data@)->Ok_0;
        assert forall|i: int| 0 <= i < result@.colors.len() implies result@.colors[i]
            == expected.colors[i] by {
            assert(colors@[i]@ == data@.subrange(8 + 4 * i, 12 + 4 * i));
        }
        assert(result@.colors =~= expected.colors);
    }
    Ok(result)
}

/// Reads a single-placement payload.
pub fn read_placement(data: &[u8]) -> (r: PResult<Placement>)
    ensures
        match r {
            Ok(e) => spec_read_placement(data@) == Ok::<Placement, PError>(e),
            Err(e) => spec_read_placement(data@) == Err::<Placement, PError>(e),
        },
{
    check_len(data.len(), 18)?;
    let mut pos: usize = 0;
    let x = match take_u32(data, &mut pos) {
        Some(v) => v,
        None => {
            return Err(PError::Io);
        },
    };
    let y = match take_u32(data, &mut pos) {
        Some(v) => v,
        None => {
            return Err(PError::Io);
        },
    };
    let color_index = match take_u16(data, &mut pos) {
        Some(v) => v,
        None => {
            return Err(PError::Io);
        },
    };
    let time = match take_i64(data, &mut pos) {
        Some(v) => v,
        None => {
            return Err(PError::Io);
        },
    };
    Ok(Placement { pos: (x, y), time, color_index })
}

/// Reads a placement chunk payload.
pub fn read_placement_chunk(data: &[u8]) -> (r: PResult<PlacementChunk>)
    ensures
        match r {
            Ok(e) => spec_read_placement_chunk(data@) == Ok::<PlacementChunkV, PError>(e@),
            Err(e) => spec_read_placement_chunk(data@) == Err::<PlacementChunkV, PError>(e),
        },
{
    let mut pos: usize = 0;
    let x = match take_u32(data, &mut pos) {
        Some(v) => v,
        None => {
            return Err(PError::Io);
        },
    };
    let y = match take_u32(data, &mut pos) {
        Some(v) => v,
        None => {
            return Err(PError::Io);
        },
    };
    let time = match take_i64(data, &mut pos) {
        Some(v) => v,
        None => {
            return Err(PError::Io);
        },
    };
    if (data.len() - 16) % 2 != 0 {
        return Err(PError::InvalidLength(data.len(), 16 + (data.len() - 16) / 2 * 2));
    }
    let mut color_indexes: Vec<u16> = Vec::new();
    while pos < data.len()
        invariant
            16 <= pos <= data@.len(),
            (data@.len() - 16) % 2 == 0,
            pos == 16 + 2 * color_indexes@.len(),
            forall|i: int|
                0 <= i < color_indexes@.len() ==> #[trigger] color_indexes@[i]
                    == spec_u16_from_le_bytes(data@.subrange(16 + 2 * i, 18 + 2 * i)),
        decreases data@.len() - pos,
    {
        proof {
            let k = color_indexes@.len() as int;
            let n = (data@.len() - 16) as int;
            assert(n % 2 == 0 && 2 * k < n ==> 2 * k + 2 <= n) by (nonlinear_arith);
        }
        let c = match take_u16(data, &mut pos) {
            Some(v) => v,
            None => {
                return Err(PError::Io);
            },
        };
        color_indexes.push(c);
    }
    let result = PlacementChunk { pos: (x, y), time, color_indexes };
    proof {
        let expected = spec_read_placement_chunk(data@)->Ok_0;
        assert(result@.color_indexes =~= expected.color_indexes);
    }
    Ok(result)
}

/// Reads a contributor identifier payload.
pub fn read_meta_id(data: &[u8]) -> (r: PResult<MetaId>)
    ensures
        match r {
            Ok(e) => spec_read_meta_id(data@) == Ok::<MetaIdV, PError>(e@),
            Err(e) => spec_read_meta_id(data@) == Err::<MetaIdV, PError>(e),
        },
{
    let mut pos: usize = 0;
    let layout = match take_u8(data, &mut pos) {
        Some(v) => v,
        None => {
            return Err(PError::Io);
        },
    };
    let id = match take_bytes(data, &mut pos, data.len() - 1) {
        Some(v) => v,
        None => {
            return Err(PError::Io);
        },
    };
    if layout == 0 {
        Ok(MetaId::Numerical(id))
    } else if layout == 1 {
        match core::str::from_utf8(id.as_slice()) {
            Ok(s) => Ok(MetaId::Username(s.to_owned())),
            Err(_) => Err(PError::InvalidString(StringEncoding::Utf8)),
        }
    } else {
        Err(PError::InvalidValue(layout as u64))
    }
}

/// Reads a coordinate remap payload.
pub fn read_modify_map(data: &[u8]) -> (r: PResult<ModifyMap>)
    ensures
        match r {
            Ok(e) => spec_read_modify_map(data@) == Ok::<ModifyMapV, PError>(e@),
            Err(e) => spec_read_modify_map(data@) == Err::<ModifyMapV, PError>(e),
        },
{
    let mut pos: usize = 0;
    let x = match take_u32(data, &mut pos) {
        Some(v) => v,
        None => {
            return Err(PError::Io);
        },
    };
    let y = match take_u32(data, &mut pos) {
        Some(v) => v,
        None => {
            return Err(PError::Io);
        },
    };
    let s0 = match take_u32(data, &mut pos) {
        Some(v) => v,
        None => {
            return Err(PError::Io);
        },
    };
    let s1 = match take_u32(data, &mut pos) {
        Some(v) => v,
        None => {
            return Err(PError::Io);
        },
    };
    proof {
        let a = s0 as int;
        let b = s1 as int;
        assert(0 <= a * b <= 0xFFFF_FFFF * 0xFFFF_FFFF) by (nonlinear_arith)
            requires
                0 <= a <= 0xFFFF_FFFF,
                0 <= b <= 0xFFFF_FFFF,
        ;
    }
    let need: u128 = (s0 as u128) * (s1 as u128) * 8;
    let rem: u128 = (data.len() - 16) as u128;
    if rem < need {
        return Err(PError::Io);
    }
    if rem > need {
        return Err(PError::InvalidLength(data.len(), 16 + (need as usize)));
    }
    proof {
        let a = s0 as int;
        let b = s1 as int;
        assert((a * b * 8) % 8 == 0) by (nonlinear_arith);
    }
    let mut map: Vec<(u32, u32)> = Vec::new();
    while pos < data.len()
        invariant
            16 <= pos <= data@.len(),
            data@.len() == 16 + need,
            need % 8 == 0,
            pos == 16 + 8 * map@.len(),
            forall|i: int|
                0 <= i < map@.len() ==> #[trigger] map@[i] == (
                    spec_u32_from_le_bytes(data@.subrange(16 + 8 * i, 20 + 8 * i)),
                    spec_u32_from_le_bytes(data@.subrange(20 + 8 * i, 24 + 8 * i)),
                ),
        decreases data@.len() - pos,
    {
        proof {
            let k = map@.len() as int;
            let n = need as int;
            assert(n % 8 == 0 && 8 * k < n ==> 8 * k + 8 <= n) by (nonlinear_arith);
        }
        let mx = match take_u32(data, &mut pos) {
            Some(v) => v,
            None => {
                return Err(PError::Io);
            },
        };
        let my = match take_u32(data, &mut pos) {
            Some(v) => v,
            None => {
                return Err(PError::Io);
            },
        };
        map.push((mx, my));
    }
    let result = ModifyMap { pos: (x, y), size: (s0, s1), map };
    proof {
        let a = s0 as int;
        let b = s1 as int;
        assert((a * b * 8) % 8 == 0 && (a * b * 8) / 8 == a * b) by (nonlinear_arith);
        assert(8 * map@.len() == 8 * (a * b) ==> map@.len() == a * b) by (nonlinear_arith);
        let expected = spec_read_modify_map(data@)->Ok_0;
        assert(result@.map =~= expected.map);
    }
    Ok(result)
}

/// Decode of a payload under a declared type tag. Matrix-transform events
/// carry floating-point fields and are decoded by the stream layer outside
/// this library: their tag is rejected here like any other unknown tag.
pub open spec fn spec_read_event(id: u64, b: Seq<u8>) -> Result<EventV, PError> {
    if id == CANVAS_META_ID {
        match spec_read_canvas_meta(b) {
            Ok(e) => Ok(EventV::CanvasMeta(e)),
            Err(e) => Err(e),
        }
    } else if id == CANVAS_MODIFY_ID {
        match spec_read_canvas_modify(b) {
            Ok(e) => Ok(EventV::CanvasModify(e)),
            Err(e) => Err(e),
        }
    } else if id == PALETTE_CHUNK_ID {
        match spec_read_palette_chunk(b) {
            Ok(e) => Ok(EventV::PaletteChunk(e)),
            Err(e) => Err(e),
        }
    } else if id == PLACEMENT_ID {
        match spec_read_placement(b) {
            Ok(e) => Ok(EventV::Placement(e)),
            Err(e) => Err(e),
        }
    } else if id == PLACEMENT_QUIET_ID {
        match spec_read_placement(b) {
            Ok(e) => Ok(EventV::PlacementQuiet(e)),
            Err(e) => Err(e),
        }
    } else if id == PLACEMENT_CHUNK_ID {
        match spec_read_placement_chunk(b) {
            Ok(e) => Ok(EventV::PlacementChunk(e)),
            Err(e) => Err(e),
        }
    } else if id == PLACEMENT_CHUNK_QUIET_ID {
        match spec_read_placement_chunk(b) {
            Ok(e) => Ok(EventV::PlacementChunkQuiet(e)),
            Err(e) => Err(e),
        }
    } else if id == META_ID {
        match spec_read_meta_id(b) {
            Ok(e) => Ok(EventV::MetaId(e)),
            Err(e) => Err(e),
        }
    } else if id == META_UNIQUE_ID {
        match spec_read_meta_id(b) {
            Ok(e) => Ok(EventV::MetaUniqueId(e)),
            Err(e) => Err(e),
        }
    } else if id == MODIFY_MAP_ID {
        match spec_read_modify_map(b) {
            Ok(e) => Ok(EventV::ModifyMap(e)),
            Err(e) => Err(e),
        }
    } else {
        Err(PError::InvalidTypeId(id))
    }
}

/// Reads an event from a type tag and the payload of exactly the framed
/// length. Matrix-transform events carry floating-point fields and are read
/// by the stream layer outside this library: their tag is rejected here like
/// any other unknown tag.
pub fn read_event(id: u64, value: &[u8]) -> (r: PResult<CanvasEvent>)
    ensures
        match r {
            Ok(e) => spec_read_event(id, value@) == Ok::<EventV, PError>(e@),
            Err(e) => spec_read_event(id, value@) == Err::<EventV, PError>(e),
        },
{
    if id == CANVAS_META_ID {
        match read_canvas_meta(value) {
            Ok(e) => Ok(CanvasEvent::CanvasMeta(e)),
            Err(e) => Err(e),
        }
    } else if id == CANVAS_MODIFY_ID {
        match read_canvas_modify(value) {
            Ok(e) => Ok(CanvasEvent::CanvasModify(e)),
            Err(e) => Err(e),
        }
    } else if id == PALETTE_CHUNK_ID {
        match read_palette_chunk(value) {
            Ok(e) => Ok(CanvasEvent::PaletteChunk(e)),
            Err(e) => Err(e),
        }
    } else if id == PLACEMENT_ID {
        match read_placement(value) {
            Ok(e) => Ok(CanvasEvent::Placement(e)),
            Err(e) => Err(e),
        }
    } else if id == PLACEMENT_QUIET_ID {
        match read_placement(value) {
            Ok(e) => Ok(CanvasEvent::PlacementQuiet(e)),
            Err(e) => Err(e),
        }
    } else if id == PLACEMENT_CHUNK_ID {
        match read_placement_chunk(value) {
            Ok(e) => Ok(CanvasEvent::PlacementChunk(e)),
            Err(e) => Err(e),
        }
    } else if id == PLACEMENT_CHUNK_QUIET_ID {
        match read_placement_chunk(value) {
            Ok(e) => Ok(CanvasEvent::PlacementChunkQuiet(e)),
            Err(e) => Err(e),
        }
    } else if id == META_ID {
        match read_meta_id(value) {
            Ok(e) => Ok(CanvasEvent::MetaId(e)),
            Err(e) => Err(e),
        }
    } else if id == META_UNIQUE_ID {
        match read_meta_id(value) {
            Ok(e) => Ok(CanvasEvent::MetaUniqueId(e)),
            Err(e) => Err(e),
        }
    } else if id == MODIFY_MAP_ID {
        match read_modify_map(value) {
            Ok(e) => Ok(CanvasEvent::ModifyMap(e)),
            Err(e) => Err(e),
        }
    } else {
        Err(PError::InvalidTypeId(id))
    }
}

} // verus!
