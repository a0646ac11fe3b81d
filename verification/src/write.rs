//! Writers for the event-log format: each appends an event's byte image to a
//! growable byte sink.
//!
//! `event_len` gives the exact number of bytes the writer for an event will
//! append, so the stream layer can frame the payload before writing it.

use vstd::prelude::*;
use vstd::bytes::{spec_u16_from_le_bytes, spec_u16_to_le_bytes, spec_u32_from_le_bytes, spec_u32_to_le_bytes, spec_u64_to_le_bytes};
use vstd::utf8::encode_utf8;
use crate::bytes::{concat_chunks, lemma_concat_chunks_fixed, lemma_concat_chunks_push, lemma_i64_le_bytes_roundtrip, push_bytes, spec_i64_to_le_bytes};
use crate::error::{PError, PResult};
use crate::events::{
    meta_id_bytes, CanvasEvent, CanvasMeta, CanvasMetaV, CanvasModify, EventV, MetaId, MetaIdV,
    ModifyMap, ModifyMapV, PaletteChunk, PaletteChunkV, Placement, PlacementChunk, PlacementChunkV,
};
use crate::util::WriteExt;

verus! {

pub const CANVAS_MODIFY_LEN: usize = 8;

pub const PLACEMENT_LEN: usize = 18;

pub const MODIFY_MATRIX_LEN: usize = 40;

pub const CANVAS_META_MIN_LEN: usize = 28;

pub const PALETTE_CHUNK_MIN_LEN: usize = 8;

pub const PLACEMENT_CHUNK_MIN_LEN: usize = 16;

pub const META_ID_MIN_LEN: usize = 1;

pub const MODIFY_MAP_MIN_LEN: usize = 16;

// ---------------------------------------------------------------------------
// Wire-format specification, write side
// ---------------------------------------------------------------------------

/// Byte image of a written canvas metadata event: dimensions, start time, end
/// time (0 when absent), then the two length-prefixed UTF-8 strings.
pub open spec fn canvas_meta_wire(m: CanvasMetaV) -> Seq<u8> {
    let name = encode_utf8(m.name);
    let plat = encode_utf8(m.platform);
    spec_u32_to_le_bytes(m.size.0) + spec_u32_to_le_bytes(m.size.1) + spec_i64_to_le_bytes(
        m.time_start,
    ) + spec_i64_to_le_bytes(
        match m.time_end {
            Some(t) => t,
            None => 0,
        },
    ) + spec_u16_to_le_bytes(name.len() as u16) + name + spec_u16_to_le_bytes(plat.len() as u16)
        + plat
}

/// Byte image of a written canvas resize event.
pub open spec fn canvas_modify_wire(m: CanvasModify) -> Seq<u8> {
    spec_u32_to_le_bytes(m.size.0) + spec_u32_to_le_bytes(m.size.1)
}

/// Byte image of a written palette chunk: the offset, then the colour
/// entries.
pub open spec fn palette_chunk_wire(p: PaletteChunkV) -> Seq<u8> {
    spec_u64_to_le_bytes(p.offset) + concat_chunks(p.colors)
}

/// Byte image of a written placement: coordinates, then the palette index,
/// then the timestamp — the same order the reader consumes.
pub open spec fn placement_wire(p: Placement) -> Seq<u8> {
    spec_u32_to_le_bytes(p.pos.0) + spec_u32_to_le_bytes(p.pos.1) + spec_u16_to_le_bytes(
        p.color_index,
    ) + spec_i64_to_le_bytes(p.time)
}

/// Byte image of a written placement chunk: coordinates and timestamp, then
/// the palette indexes.
pub open spec fn placement_chunk_wire(p: PlacementChunkV) -> Seq<u8> {
    spec_u32_to_le_bytes(p.pos.0) + spec_u32_to_le_bytes(p.pos.1) + spec_i64_to_le_bytes(p.time)
        + concat_chunks(p.color_indexes.map_values(|c: u16| spec_u16_to_le_bytes(c)))
}

/// Byte image of a written contributor identifier: the layout byte, then the
/// identifier bytes.
pub open spec fn meta_id_wire(m: MetaIdV) -> Seq<u8> {
    match m {
        MetaIdV::Numerical(_) => seq![0u8] + meta_id_bytes(m),
        MetaIdV::Username(_) => seq![1u8] + meta_id_bytes(m),
    }
}

/// Byte image of a written coordinate remap: region position and size, then
/// one 8-byte coordinate pair per entry.
pub open spec fn modify_map_wire(m: ModifyMapV) -> Seq<u8> {
    spec_u32_to_le_bytes(m.pos.0) + spec_u32_to_le_bytes(m.pos.1) + spec_u32_to_le_bytes(m.size.0)
        + spec_u32_to_le_bytes(m.size.1) + concat_chunks(
        m.map.map_values(
            |p: (u32, u32)| spec_u32_to_le_bytes(p.0) + spec_u32_to_le_bytes(p.1),
        ),
    )
}

/// Byte image of a written event of any kind. Quiet variants share the image
/// of their counterparts; only the type tag differs, and it is written by the
/// stream layer, not here.
pub open spec fn event_wire(e: EventV) -> Seq<u8> {
    match e {
        EventV::CanvasMeta(m) => canvas_meta_wire(m),
        EventV::CanvasModify(m) => canvas_modify_wire(m),
        EventV::PaletteChunk(p) => palette_chunk_wire(p),
        EventV::Placement(p) => placement_wire(p),
        EventV::PlacementQuiet(p) => placement_wire(p),
        EventV::PlacementChunk(p) => placement_chunk_wire(p),
        EventV::PlacementChunkQuiet(p) => placement_chunk_wire(p),
        EventV::MetaId(m) => meta_id_wire(m),
        EventV::MetaUniqueId(m) => meta_id_wire(m),
        EventV::ModifyMap(m) => modify_map_wire(m),
    }
}

/// Result of writing a canvas metadata event: its byte image, unless a string
/// field overflows the 2-byte length prefix. Nothing is ever truncated
/// silently.
pub open spec fn spec_write_canvas_meta(m: CanvasMetaV) -> Result<Seq<u8>, PError> {
    let nlen = encode_utf8(m.name).len();
    let plen = encode_utf8(m.platform).len();
    if nlen > 0xFFFF {
        Err(PError::InvalidLength(nlen as usize, 0xFFFF))
    } else if plen > 0xFFFF {
        Err(PError::InvalidLength(plen as usize, 0xFFFF))
    } else {
        Ok(canvas_meta_wire(m))
    }
}

/// Result of writing an event of any kind.
pub open spec fn spec_write_event(e: EventV) -> Result<Seq<u8>, PError> {
    match e {
        EventV::CanvasMeta(m) => spec_write_canvas_meta(m),
        _ => Ok(event_wire(e)),
    }
}

/// The exact number of bytes the writer for an event appends.
pub open spec fn spec_event_len(e: EventV) -> int {
    match e {
        EventV::CanvasMeta(m) => 28 + encode_utf8(m.name).len() + encode_utf8(
            m.platform,
        ).len() as int,
        EventV::CanvasModify(_) => 8,
        EventV::PaletteChunk(p) => 8 + 4 * p.colors.len() as int,
        EventV::Placement(_) => 18,
        EventV::PlacementQuiet(_) => 18,
        EventV::PlacementChunk(p) => 16 + 2 * p.color_indexes.len() as int,
        EventV::PlacementChunkQuiet(p) => 16 + 2 * p.color_indexes.len() as int,
        EventV::MetaId(m) => 1 + meta_id_bytes(m).len() as int,
        EventV::MetaUniqueId(m) => 1 + meta_id_bytes(m).len() as int,
        EventV::ModifyMap(m) => 16 + 8 * m.map.len() as int,
    }
}

// ---------------------------------------------------------------------------
// Writers
// ---------------------------------------------------------------------------

/// The exact number of bytes `write_event` will append for this event, so
/// that the stream layer can frame the payload first.
pub fn event_len(event: &CanvasEvent) -> (r: usize)
    requires
        spec_event_len(event@) <= usize::MAX,
    ensures
        r == spec_event_len(event@),
{
    match event {
        CanvasEvent::CanvasMeta(e) => {
            CANVAS_META_MIN_LEN + e.name.as_str().len() + e.platform.as_str().len()
        },
        CanvasEvent::CanvasModify(_) => CANVAS_MODIFY_LEN,
        CanvasEvent::PaletteChunk(e) => PALETTE_CHUNK_MIN_LEN + e.colors.len() * 4,
        CanvasEvent::Placement(_) | CanvasEvent::PlacementQuiet(_) => PLACEMENT_LEN,
        CanvasEvent::PlacementChunk(e) | CanvasEvent::PlacementChunkQuiet(e) => {
            PLACEMENT_CHUNK_MIN_LEN + e.color_indexes.len() * 2
        },
        CanvasEvent::MetaId(e) | CanvasEvent::MetaUniqueId(e) => META_ID_MIN_LEN + e.as_bytes().len(),
        CanvasEvent::ModifyMap(e) => MODIFY_MAP_MIN_LEN + e.map.len() * 8,
    }
}

/// Writes a canvas metadata event. Both string fields are validated against
/// the 2-byte length prefix before anything is written: on failure the sink
/// is untouched and the error carries the oversized length.
pub fn write_canvas_meta(wtr: &mut Vec<u8>, event_data: &CanvasMeta) -> (r: PResult<()>)
    ensures
        match r {
            Ok(_) => {
                &&& spec_write_canvas_meta(event_data@) matches Ok(w)
                &&& final(wtr)@ == old(wtr)@ + w
            },
            Err(e) => {
                &&& spec_write_canvas_meta(event_data@) == Err::<Seq<u8>, PError>(e)
                &&& final(wtr)@ == old(wtr)@
            },
        },
{
    let name_bytes = event_data.name.as_str().as_bytes();
    if name_bytes.len() > 0xFFFF {
        return Err(PError::InvalidLength(name_bytes.len(), 0xFFFF));
    }
    let plat_bytes = event_data.platform.as_str().as_bytes();
    if plat_bytes.len() > 0xFFFF {
        return Err(PError::InvalidLength(plat_bytes.len(), 0xFFFF));
    }
    wtr.write_u32(event_data.size.0)?;
    wtr.write_u32(event_data.size.1)?;
    wtr.write_i64(event_data.time_start)?;
    let time_end = match event_data.time_end {
        Some(t) => t,
        None => 0,
    };
    wtr.write_i64(time_end)?;
    wtr.write_u16(name_bytes.len() as u16)?;
    push_bytes(wtr, name_bytes);
    wtr.write_u16(plat_bytes.len() as u16)?;
    push_bytes(wtr, plat_bytes);
    proof {
        assert(wtr@ =~= old(wtr)@ + canvas_meta_wire(event_data@));
    }
    Ok(())
}

/// Writes a canvas resize event.
pub fn write_canvas_modify(wtr: &mut Vec<u8>, event_data: &CanvasModify) -> (r: PResult<()>)
    ensures
        r == Ok::<(), PError>(()),
        final(wtr)@ == old(wtr)@ + canvas_modify_wire(*event_data),
{
    wtr.write_u32(event_data.size.0)?;
    wtr.write_u32(event_data.size.1)?;
    proof {
        assert(wtr@ =~= old(wtr)@ + canvas_modify_wire(*event_data));
    }
    Ok(())
}

/// Writes a palette chunk: the offset, then each colour entry in order.
pub fn write_palette_chunk(wtr: &mut Vec<u8>, event_data: &PaletteChunk) -> (r: PResult<()>)
    ensures
        r == Ok::<(), PError>(()),
        final(wtr)@ == old(wtr)@ + palette_chunk_wire(event_data@),
{
    wtr.write_u64(event_data.offset)?;
    let mut i: usize = 0;
    while i < event_data.colors.len()
        invariant
            i <= event_data.colors@.len(),
            wtr@ == old(wtr)@ + spec_u64_to_le_bytes(event_data.offset) + concat_chunks(
                event_data@.colors.take(i as int),
            ),
        decreases event_data.colors@.len() - i,
    {
        let c = event_data.colors[i];
        push_bytes(wtr, vstd::array::array_as_slice(&c));
        proof {
            assert(event_data@.colors.take(i + 1) =~= event_data@.colors.take(i as int).push(c@));
            lemma_concat_chunks_push(event_data@.colors.take(i as int), c@);
        }
        i = i + 1;
    }
    proof {
        assert(event_data@.colors.take(event_data@.colors.len() as int) =~= event_data@.colors);
        assert(wtr@ =~= old(wtr)@ + palette_chunk_wire(event_data@));
    }
    Ok(())
}

/// Writes a single placement: coordinates, then the palette index, then the
/// timestamp — the same order the reader consumes.
pub fn write_placement(wtr: &mut Vec<u8>, event_data: &Placement) -> (r: PResult<()>)
    ensures
        r == Ok::<(), PError>(()),
        final(wtr)@ == old(wtr)@ + placement_wire(*event_data),
{
    wtr.write_u32(event_data.pos.0)?;
    wtr.write_u32(event_data.pos.1)?;
    wtr.write_u16(event_data.color_index)?;
    wtr.write_i64(event_data.time)?;
    proof {
        assert(wtr@ =~= old(wtr)@ + placement_wire(*event_data));
    }
    Ok(())
}

/// Writes a placement chunk: coordinates and timestamp, then each palette
/// index in order.
pub fn write_placement_chunk(wtr: &mut Vec<u8>, event_data: &PlacementChunk) -> (r: PResult<()>)
    ensures
        r == Ok::<(), PError>(()),
        final(wtr)@ == old(wtr)@ + placement_chunk_wire(event_data@),
{
    wtr.write_u32(event_data.pos.0)?;
    wtr.write_u32(event_data.pos.1)?;
    wtr.write_i64(event_data.time)?;
    let ghost header = old(wtr)@ + spec_u32_to_le_bytes(event_data.pos.0) + spec_u32_to_le_bytes(
        event_data.pos.1,
    ) + spec_i64_to_le_bytes(event_data.time);
    let ghost chunks = event_data@.color_indexes.map_values(|c: u16| spec_u16_to_le_bytes(c));
    let mut i: usize = 0;
    while i < event_data.color_indexes.len()
        invariant
            i <= event_data.color_indexes@.len(),
            chunks == event_data@.color_indexes.map_values(|c: u16| spec_u16_to_le_bytes(c)),
            chunks.len() == event_data.color_indexes@.len(),
            wtr@ == header + concat_chunks(chunks.take(i as int)),
        decreases event_data.color_indexes@.len() - i,
    {
        let c = event_data.color_indexes[i];
        wtr.write_u16(c)?;
        proof {
            assert(chunks.take(i + 1) =~= chunks.take(i as int).push(spec_u16_to_le_bytes(c)));
            lemma_concat_chunks_push(chunks.take(i as int), spec_u16_to_le_bytes(c));
        }
        i = i + 1;
    }
    proof {
        assert(chunks.take(chunks.len() as int) =~= chunks);
        assert(wtr@ =~= old(wtr)@ + placement_chunk_wire(event_data@));
    }
    Ok(())
}

/// Writes a contributor identifier: the layout byte, then the identifier
/// bytes.
pub fn write_meta_id(wtr: &mut Vec<u8>, event_data: &MetaId) -> (r: PResult<()>)
    ensures
        r == Ok::<(), PError>(()),
        final(wtr)@ == old(wtr)@ + meta_id_wire(event_data@),
{
    match event_data {
        MetaId::Numerical(int_vec) => {
            wtr.write_u8(0x00)?;
            push_bytes(wtr, int_vec.as_slice());
        },
        MetaId::Username(user_str) => {
            wtr.write_u8(0x01)?;
            push_bytes(wtr, user_str.as_str().as_bytes());
        },
    }
    proof {
        assert(wtr@ =~= old(wtr)@ + meta_id_wire(event_data@));
    }
    Ok(())
}

/// Writes a coordinate remap: region position and size, then each coordinate
/// pair in order.
pub fn write_modify_map(wtr: &mut Vec<u8>, event_data: &ModifyMap) -> (r: PResult<()>)
    ensures
        r == Ok::<(), PError>(()),
        final(wtr)@ == old(wtr)@ + modify_map_wire(event_data@),
{
    wtr.write_u32(event_data.pos.0)?;
    wtr.write_u32(event_data.pos.1)?;
    wtr.write_u32(event_data.size.0)?;
    wtr.write_u32(event_data.size.1)?;
    let ghost header = old(wtr)@ + spec_u32_to_le_bytes(event_data.pos.0) + spec_u32_to_le_bytes(
        event_data.pos.1,
    ) + spec_u32_to_le_bytes(event_data.size.0) + spec_u32_to_le_bytes(event_data.size.1);
    let ghost chunks = event_data@.map.map_values(
        |p: (u32, u32)| spec_u32_to_le_bytes(p.0) + spec_u32_to_le_bytes(p.1),
    );
    let mut i: usize = 0;
    while i < event_data.map.len()
        invariant
            i <= event_data.map@.len(),
            chunks == event_data@.map.map_values(
                |p: (u32, u32)| spec_u32_to_le_bytes(p.0) + spec_u32_to_le_bytes(p.1),
            ),
            chunks.len() == event_data.map@.len(),
            wtr@ == header + concat_chunks(chunks.take(i as int)),
        decreases event_data.map@.len() - i,
    {
        let p = event_data.map[i];
        wtr.write_u32(p.0)?;
        wtr.write_u32(p.1)?;
        proof {
            let ghost chunk = spec_u32_to_le_bytes(p.0) + spec_u32_to_le_bytes(p.1);
            assert(chunks.take(i + 1) =~= chunks.take(i as int).push(chunk));
            lemma_concat_chunks_push(chunks.take(i as int), chunk);
            assert(wtr@ =~= header + concat_chunks(chunks.take(i + 1)));
        }
        i = i + 1;
    }
    proof {
        assert(chunks.take(chunks.len() as int) =~= chunks);
        assert(wtr@ =~= old(wtr)@ + modify_map_wire(event_data@));
    }
    Ok(())
}

/// Writing a well-formed event and reading its bytes back under the event's
/// own type tag gives the event back. The one caveat is a canvas metadata
/// event, which round-trips when its optional end time is absent or
/// positive: the wire encodes an absent end time as zero.
pub proof fn lemma_write_read_event(e: EventV)
    requires
        crate::events::event_wf(e),
        spec_write_event(e) is Ok,
        e matches EventV::CanvasMeta(m) ==> match m.time_end {
            Some(t) => t > 0,
            None => true,
        },
    ensures
        crate::read::spec_read_event(
            crate::events::event_type_id(e),
            spec_write_event(e)->Ok_0,
        ) == Ok::<EventV, PError>(e),
{
    vstd::bytes::lemma_auto_spec_u16_to_from_le_bytes();
    vstd::bytes::lemma_auto_spec_u32_to_from_le_bytes();
    vstd::bytes::lemma_auto_spec_u64_to_from_le_bytes();
    broadcast use vstd::utf8::encode_utf8_valid_utf8;
    broadcast use vstd::utf8::encode_utf8_decode_utf8;

    match e {
        EventV::CanvasMeta(m) => {
            let w = canvas_meta_wire(m);
            let name = encode_utf8(m.name);
            let plat = encode_utf8(m.platform);
            let nlen = name.len() as int;
            let plen = plat.len() as int;
            lemma_i64_le_bytes_roundtrip(m.time_start);
            lemma_i64_le_bytes_roundtrip(
                match m.time_end {
                    Some(t) => t,
                    None => 0,
                },
            );
            assert(w.len() == 28 + nlen + plen);
            assert(w.subrange(0, 4) =~= spec_u32_to_le_bytes(m.size.0));
            assert(w.subrange(4, 8) =~= spec_u32_to_le_bytes(m.size.1));
            assert(w.subrange(8, 16) =~= spec_i64_to_le_bytes(m.time_start));
            assert(w.subrange(16, 24) =~= spec_i64_to_le_bytes(
                match m.time_end {
                    Some(t) => t,
                    None => 0,
                },
            ));
            assert(w.subrange(24, 26) =~= spec_u16_to_le_bytes(nlen as u16));
            assert(w.subrange(26, 26 + nlen) =~= name);
            assert(w.subrange(26 + nlen, 28 + nlen) =~= spec_u16_to_le_bytes(plen as u16));
            assert(w.subrange(28 + nlen, 28 + nlen + plen) =~= plat);
            assert(crate::read::spec_read_canvas_meta(w) matches Ok(mm) && mm =~= m);
        },
        EventV::CanvasModify(m) => {
            let w = canvas_modify_wire(m);
            assert(w.subrange(0, 4) =~= spec_u32_to_le_bytes(m.size.0));
            assert(w.subrange(4, 8) =~= spec_u32_to_le_bytes(m.size.1));
            assert(crate::read::spec_read_canvas_modify(w) matches Ok(mm) && mm =~= m);
        },
        EventV::PaletteChunk(p) => {
            let w = palette_chunk_wire(p);
            let n = p.colors.len() as int;
            lemma_concat_chunks_fixed(p.colors, 4);
            assert(w.len() == 8 + 4 * n);
            assert((w.len() - 8) % 4 == 0 && (w.len() - 8) / 4 == n) by (nonlinear_arith)
                requires
                    w.len() == 8 + 4 * n,
                    n >= 0,
            ;
            assert(w.subrange(0, 8) =~= spec_u64_to_le_bytes(p.offset));
            let cw = concat_chunks(p.colors);
            assert forall|i: int| 0 <= i < n implies w.subrange(8 + 4 * i, 12 + 4 * i)
                == #[trigger] p.colors[i] by {
                assert(w.subrange(8 + 4 * i, 12 + 4 * i) =~= cw.subrange(4 * i, 4 * i + 4));
            }
            assert(crate::read::spec_read_palette_chunk(w) matches Ok(pp) && pp =~= p);
        },
        EventV::PlacementChunk(p) | EventV::PlacementChunkQuiet(p) => {
            let w = placement_chunk_wire(p);
            let chunks = p.color_indexes.map_values(|c: u16| spec_u16_to_le_bytes(c));
            let n = p.color_indexes.len() as int;
            lemma_concat_chunks_fixed(chunks, 2);
            assert(w.len() == 16 + 2 * n);
            assert((w.len() - 16) % 2 == 0 && (w.len() - 16) / 2 == n) by (nonlinear_arith)
                requires
                    w.len() == 16 + 2 * n,
                    n >= 0,
            ;
            assert(w.subrange(0, 4) =~= spec_u32_to_le_bytes(p.pos.0));
            assert(w.subrange(4, 8) =~= spec_u32_to_le_bytes(p.pos.1));
            assert(w.subrange(8, 16) =~= spec_i64_to_le_bytes(p.time));
            lemma_i64_le_bytes_roundtrip(p.time);
            let cw = concat_chunks(chunks);
            assert forall|i: int| 0 <= i < n implies spec_u16_from_le_bytes(
                w.subrange(16 + 2 * i, 18 + 2 * i),
            ) == #[trigger] p.color_indexes[i] by {
                assert(w.subrange(16 + 2 * i, 18 + 2 * i) =~= cw.subrange(2 * i, 2 * i + 2));
                assert(cw.subrange(2 * i, 2 * i + 2) == chunks[i]);
            }
            assert(crate::read::spec_read_placement_chunk(w) matches Ok(pp)
                && pp.color_indexes =~= p.color_indexes && pp =~= p);
        },
        EventV::MetaId(m) | EventV::MetaUniqueId(m) => {
            let w = meta_id_wire(m);
            match m {
                MetaIdV::Numerical(v) => {
                    assert(w.subrange(1, w.len() as int) =~= v);
                },
                MetaIdV::Username(s) => {
                    assert(w.subrange(1, w.len() as int) =~= encode_utf8(s));
                },
            }
            assert(crate::read::spec_read_meta_id(w) matches Ok(mm) && mm =~= m);
        },
        EventV::ModifyMap(m) => {
            let w = modify_map_wire(m);
            let chunks = m.map.map_values(
                |p: (u32, u32)| spec_u32_to_le_bytes(p.0) + spec_u32_to_le_bytes(p.1),
            );
            let n = m.map.len() as int;
            lemma_concat_chunks_fixed(chunks, 8);
            assert(w.len() == 16 + 8 * n);
            assert(w.subrange(0, 4) =~= spec_u32_to_le_bytes(m.pos.0));
            assert(w.subrange(4, 8) =~= spec_u32_to_le_bytes(m.pos.1));
            assert(w.subrange(8, 12) =~= spec_u32_to_le_bytes(m.size.0));
            assert(w.subrange(12, 16) =~= spec_u32_to_le_bytes(m.size.1));
            assert(m.size.0 * m.size.1 * 8 == 8 * n) by (nonlinear_arith)
                requires
                    n == m.size.0 * m.size.1,
            ;
            let cw = concat_chunks(chunks);
            assert forall|i: int| 0 <= i < n implies (
                spec_u32_from_le_bytes(w.subrange(16 + 8 * i, 20 + 8 * i)),
                spec_u32_from_le_bytes(w.subrange(20 + 8 * i, 24 + 8 * i)),
            ) == #[trigger] m.map[i] by {
                let chunk = spec_u32_to_le_bytes(m.map[i].0) + spec_u32_to_le_bytes(m.map[i].1);
                assert(cw.subrange(8 * i, 8 * i + 8) == chunks[i]);
                assert(w.subrange(16 + 8 * i, 20 + 8 * i) =~= chunk.subrange(0, 4));
                assert(w.subrange(20 + 8 * i, 24 + 8 * i) =~= chunk.subrange(4, 8));
                assert(chunk.subrange(0, 4) =~= spec_u32_to_le_bytes(m.map[i].0));
                assert(chunk.subrange(4, 8) =~= spec_u32_to_le_bytes(m.map[i].1));
            }
            assert(crate::read::spec_read_modify_map(w) matches Ok(mm) && mm.map =~= m.map
                && mm =~= m);
        },
        EventV::Placement(p) | EventV::PlacementQuiet(p) => {
            let w = placement_wire(p);
            lemma_i64_le_bytes_roundtrip(p.time);
            assert(w.len() == 18);
            assert(w.subrange(0, 4) =~= spec_u32_to_le_bytes(p.pos.0));
            assert(w.subrange(4, 8) =~= spec_u32_to_le_bytes(p.pos.1));
            assert(w.subrange(8, 10) =~= spec_u16_to_le_bytes(p.color_index));
            assert(w.subrange(10, 18) =~= spec_i64_to_le_bytes(p.time));
            assert(crate::read::spec_read_placement(w) matches Ok(pp) && pp =~= p);
        },
    }
}

/// Writes an event of any kind by appending its byte image to the sink.
/// Matrix-transform events carry floating-point fields and are written by the
/// stream layer outside this library.
pub fn write_event(wtr: &mut Vec<u8>, event: &CanvasEvent) -> (r: PResult<()>)
    ensures
        match r {
            Ok(_) => {
                &&& spec_write_event(event@) matches Ok(w)
                &&& final(wtr)@ == old(wtr)@ + w
            },
            Err(e) => {
                &&& spec_write_event(event@) == Err::<Seq<u8>, PError>(e)
                &&& final(wtr)@ == old(wtr)@
            },
        },
{
    match event {
        CanvasEvent::CanvasMeta(canvas_meta) => write_canvas_meta(wtr, canvas_meta),
        CanvasEvent::CanvasModify(canvas_modify) => write_canvas_modify(wtr, canvas_modify),
        CanvasEvent::PaletteChunk(palette_chunk) => write_palette_chunk(wtr, palette_chunk),
        CanvasEvent::Placement(placement) => write_placement(wtr, placement),
        CanvasEvent::PlacementQuiet(placement) => write_placement(wtr, placement),
        CanvasEvent::PlacementChunk(placement_chunk) => write_placement_chunk(wtr, placement_chunk),
        CanvasEvent::PlacementChunkQuiet(placement_chunk) => {
            write_placement_chunk(wtr, placement_chunk)
        },
        CanvasEvent::MetaId(meta_id) => write_meta_id(wtr, meta_id),
        CanvasEvent::MetaUniqueId(meta_id) => write_meta_id(wtr, meta_id),
        CanvasEvent::ModifyMap(modify_map) => write_modify_map(wtr, modify_map),
    }
}

} // verus!
