//! Event model for the canvas event log's original format: a closed set of
//! events, each identified by a fixed unsigned 64-bit type tag.
//!
//! Matrix-transform events carry floating-point fields and live with the
//! stream layer outside this library; every other event kind is modelled
//! here.

use vstd::prelude::*;
use vstd::utf8::encode_utf8;

verus! {

/// Version constant exposed to the stream layer for negotiation; the readers
/// and writers do not interpret it.
pub const CURRENT_VERSION: u16 = 0;

pub const CANVAS_META_ID: u64 = 0x00000000;
pub const CANVAS_MODIFY_ID: u64 = 0x00000001;
pub const PALETTE_CHUNK_ID: u64 = 0x00000010;
pub const PLACEMENT_ID: u64 = 0x00000020;
pub const PLACEMENT_QUIET_ID: u64 = 0x00000021;
pub const PLACEMENT_CHUNK_ID: u64 = 0x00000022;
pub const PLACEMENT_CHUNK_QUIET_ID: u64 = 0x00000023;
pub const META_ID: u64 = 0x00000030;
pub const META_UNIQUE_ID: u64 = 0x00000031;
pub const MODIFY_MATRIX_ID: u64 = 0x00000040;
pub const MODIFY_MAP_ID: u64 = 0x00000041;

/// Canvas creation metadata: dimensions, start and optional end time, display
/// name and hosting platform.
#[derive(Debug, PartialEq)]
pub struct CanvasMeta {
    pub size: (u32, u32),
    pub time_start: i64,
    pub time_end: Option<i64>,
    pub name: String,
    pub platform: String,
}

impl Clone for CanvasMeta {
    fn clone(&self) -> (r: Self)
        ensures
            r@ == self@,
    {
        CanvasMeta {
            size: (self.size.0, self.size.1),
            time_start: self.time_start,
            time_end: self.time_end,
            name: self.name.clone(),
            platform: self.platform.clone(),
        }
    }
}

/// Mathematical view of [`CanvasMeta`].
#[verifier::ext_equal]
pub struct CanvasMetaV {
    pub size: (u32, u32),
    pub time_start: i64,
    pub time_end: Option<i64>,
    pub name: Seq<char>,
    pub platform: Seq<char>,
}

impl View for CanvasMeta {
    type V = CanvasMetaV;

    open spec fn view(&self) -> CanvasMetaV {
        CanvasMetaV {
            size: self.size,
            time_start: self.time_start,
            time_end: self.time_end,
            name: self.name@,
            platform: self.platform@,
        }
    }
}

/// A change of the canvas dimensions.
#[derive(Debug, Clone, Copy, PartialEq)]
pub struct CanvasModify {
    pub size: (u32, u32),
}

/// Palette entries starting at a palette offset; each colour is one 4-byte
/// RGBA entry.
#[derive(Debug, Clone, PartialEq)]
pub struct PaletteChunk {
    pub offset: u64,
    pub colors: Vec<[u8; 4]>,
}

/// Mathematical view of [`PaletteChunk`]; every colour is a 4-byte sequence.
#[verifier::ext_equal]
pub struct PaletteChunkV {
    pub offset: u64,
    pub colors: Seq<Seq<u8>>,
}

impl View for PaletteChunk {
    type V = PaletteChunkV;

    open spec fn view(&self) -> PaletteChunkV {
        PaletteChunkV { offset: self.offset, colors: self.colors@.map_values(|c: [u8; 4]| c@) }
    }
}

/// A single pixel placement: coordinates, palette index and timestamp.
#[derive(Debug, Clone, Copy, PartialEq)]
pub struct Placement {
    pub pos: (u32, u32),
    pub time: i64,
    pub color_index: u16,
}

/// A run of palette indexes placed starting at a coordinate.
#[derive(Debug, PartialEq)]
pub struct PlacementChunk {
    pub pos: (u32, u32),
    pub time: i64,
    pub color_indexes: Vec<u16>,
}

impl Clone for PlacementChunk {
    fn clone(&self) -> (r: Self)
        ensures
            r@ == self@,
    {
        PlacementChunk {
            pos: (self.pos.0, self.pos.1),
            time: self.time,
            color_indexes: vstd::slice::slice_to_vec(self.color_indexes.as_slice()),
        }
    }
}

/// Mathematical view of [`PlacementChunk`].
#[verifier::ext_equal]
pub struct PlacementChunkV {
    pub pos: (u32, u32),
    pub time: i64,
    pub color_indexes: Seq<u16>,
}

impl View for PlacementChunk {
    type V = PlacementChunkV;

    open spec fn view(&self) -> PlacementChunkV {
        PlacementChunkV {
            pos: self.pos,
            time: self.time,
            color_indexes: self.color_indexes@,
        }
    }
}

/// An opaque contributor identifier: raw numeric bytes or a user name.
#[derive(Debug, Clone, PartialEq)]
pub enum MetaId {
    Numerical(Vec<u8>),
    Username(String),
}

/// Mathematical view of [`MetaId`].
#[verifier::ext_equal]
pub enum MetaIdV {
    Numerical(Seq<u8>),
    Username(Seq<char>),
}

impl View for MetaId {
    type V = MetaIdV;

    open spec fn view(&self) -> MetaIdV {
        match self {
            MetaId::Numerical(v) => MetaIdV::Numerical(v@),
            MetaId::Username(s) => MetaIdV::Username(s@),
        }
    }
}

/// The identifier's payload bytes as they stand on the wire: raw bytes for a
/// numeric identifier, UTF-8 bytes for a user name.
pub open spec fn meta_id_bytes(m: MetaIdV) -> Seq<u8> {
    match m {
        MetaIdV::Numerical(v) => v,
        MetaIdV::Username(s) => encode_utf8(s),
    }
}

impl MetaId {
    /// The identifier's payload bytes as they stand on the wire.
    pub fn as_bytes(&self) -> (r: &[u8])
        ensures
            r@ == meta_id_bytes(self@),
    {
        match self {
            MetaId::Numerical(v) => v.as_slice(),
            MetaId::Username(s) => s.as_str().as_bytes(),
        }
    }
}

/// A coordinate remapping given pointwise over a region.
#[derive(Debug, PartialEq)]
pub struct ModifyMap {
    pub pos: (u32, u32),
    pub size: (u32, u32),
    pub map: Vec<(u32, u32)>,
}

impl Clone for ModifyMap {
    fn clone(&self) -> (r: Self)
        ensures
            r@ == self@,
    {
        ModifyMap {
            pos: (self.pos.0, self.pos.1),
            size: (self.size.0, self.size.1),
            map: vstd::slice::slice_to_vec(self.map.as_slice()),
        }
    }
}

/// Mathematical view of [`ModifyMap`].
#[verifier::ext_equal]
pub struct ModifyMapV {
    pub pos: (u32, u32),
    pub size: (u32, u32),
    pub map: Seq<(u32, u32)>,
}

impl View for ModifyMap {
    type V = ModifyMapV;

    open spec fn view(&self) -> ModifyMapV {
        ModifyMapV { pos: self.pos, size: self.size, map: self.map@ }
    }
}

/// One typed unit in the event log. Matrix-transform events carry
/// floating-point fields and are handled by the stream layer outside this
/// library.
#[derive(Debug, Clone, PartialEq)]
pub enum CanvasEvent {
    CanvasMeta(CanvasMeta),
    CanvasModify(CanvasModify),
    PaletteChunk(PaletteChunk),
    Placement(Placement),
    PlacementQuiet(Placement),
    PlacementChunk(PlacementChunk),
    PlacementChunkQuiet(PlacementChunk),
    MetaId(MetaId),
    MetaUniqueId(MetaId),
    ModifyMap(ModifyMap),
}

/// Mathematical view of [`CanvasEvent`].
#[verifier::ext_equal]
pub enum EventV {
    CanvasMeta(CanvasMetaV),
    CanvasModify(CanvasModify),
    PaletteChunk(PaletteChunkV),
    Placement(Placement),
    PlacementQuiet(Placement),
    PlacementChunk(PlacementChunkV),
    PlacementChunkQuiet(PlacementChunkV),
    MetaId(MetaIdV),
    MetaUniqueId(MetaIdV),
    ModifyMap(ModifyMapV),
}

impl View for CanvasEvent {
    type V = EventV;

    open spec fn view(&self) -> EventV {
        match self {
            CanvasEvent::CanvasMeta(e) => EventV::CanvasMeta(e@),
            CanvasEvent::CanvasModify(e) => EventV::CanvasModify(*e),
            CanvasEvent::PaletteChunk(e) => EventV::PaletteChunk(e@),
            CanvasEvent::Placement(e) => EventV::Placement(*e),
            CanvasEvent::PlacementQuiet(e) => EventV::PlacementQuiet(*e),
            CanvasEvent::PlacementChunk(e) => EventV::PlacementChunk(e@),
            CanvasEvent::PlacementChunkQuiet(e) => EventV::PlacementChunkQuiet(e@),
            CanvasEvent::MetaId(e) => EventV::MetaId(e@),
            CanvasEvent::MetaUniqueId(e) => EventV::MetaUniqueId(e@),
            CanvasEvent::ModifyMap(e) => EventV::ModifyMap(e@),
        }
    }
}

/// The wire type tag of an event: declared here, alongside the variants, and
/// nowhere else.
pub open spec fn event_type_id(e: EventV) -> u64 {
    match e {
        EventV::CanvasMeta(_) => CANVAS_META_ID,
        EventV::CanvasModify(_) => CANVAS_MODIFY_ID,
        EventV::PaletteChunk(_) => PALETTE_CHUNK_ID,
        EventV::Placement(_) => PLACEMENT_ID,
        EventV::PlacementQuiet(_) => PLACEMENT_QUIET_ID,
        EventV::PlacementChunk(_) => PLACEMENT_CHUNK_ID,
        EventV::PlacementChunkQuiet(_) => PLACEMENT_CHUNK_QUIET_ID,
        EventV::MetaId(_) => META_ID,
        EventV::MetaUniqueId(_) => META_UNIQUE_ID,
        EventV::ModifyMap(_) => MODIFY_MAP_ID,
    }
}

/// Well-formedness of an event: every palette colour is a 4-byte entry, and
/// a coordinate remap holds exactly one pair per cell of its region.
pub open spec fn event_wf(e: EventV) -> bool {
    match e {
        EventV::PaletteChunk(p) => forall|i: int|
            0 <= i < p.colors.len() ==> (#[trigger] p.colors[i]).len() == 4,
        EventV::ModifyMap(m) => m.map.len() == m.size.0 * m.size.1,
        _ => true,
    }
}

/// True exactly for the notification-suppressing quiet variants.
pub open spec fn event_silent(e: EventV) -> bool {
    match e {
        EventV::PlacementQuiet(_) => true,
        EventV::PlacementChunkQuiet(_) => true,
        _ => false,
    }
}

impl CanvasEvent {
    /// The 64-bit wire type tag of this event.
    pub fn raw_id(&self) -> (r: u64)
        ensures
            r == event_type_id(self@),
    {
        match self {
            CanvasEvent::CanvasMeta(_) => CANVAS_META_ID,
            CanvasEvent::CanvasModify(_) => CANVAS_MODIFY_ID,
            CanvasEvent::PaletteChunk(_) => PALETTE_CHUNK_ID,
            CanvasEvent::Placement(_) => PLACEMENT_ID,
            CanvasEvent::PlacementQuiet(_) => PLACEMENT_QUIET_ID,
            CanvasEvent::PlacementChunk(_) => PLACEMENT_CHUNK_ID,
            CanvasEvent::PlacementChunkQuiet(_) => PLACEMENT_CHUNK_QUIET_ID,
            CanvasEvent::MetaId(_) => META_ID,
            CanvasEvent::MetaUniqueId(_) => META_UNIQUE_ID,
            CanvasEvent::ModifyMap(_) => MODIFY_MAP_ID,
        }
    }

    /// True exactly for the quiet variants: events not surfaced as
    /// user-facing notifications.
    pub fn is_silent(&self) -> (r: bool)
        ensures
            r == event_silent(self@),
    {
        match self {
            CanvasEvent::PlacementQuiet(_) => true,
            CanvasEvent::PlacementChunkQuiet(_) => true,
            _ => false,
        }
    }
}

/// The event-log codec as the stream layer sees it: an instance registered
/// under a stream-assigned codec identifier.
#[derive(Debug, Clone, Copy, PartialEq)]
pub struct CanvasBaseCodec {
    id: u64,
}

impl View for CanvasBaseCodec {
    type V = u64;

    closed spec fn view(&self) -> u64 {
        self.id
    }
}

impl CanvasBaseCodec {
    /// Registers the codec under the given stream-assigned identifier.
    pub fn new(id: u64) -> (r: Self)
        ensures
            r@ == id,
    {
        CanvasBaseCodec { id }
    }

    /// The stream-assigned identifier this codec was registered under.
    pub fn codec_id(&self) -> (r: u64)
        ensures
            r == self@,
    {
        self.id
    }
}

} // verus!
