//! Record model for the canvas event log: a closed set of typed records, each
//! identified by a fixed unsigned 16-bit type tag.
//!
//! "Quiet" placement variants share the byte layout of their counterparts; the
//! distinction exists purely at the type-tag level and never changes the wire
//! shape. Each record type has a mathematical view used by the codec contracts.

use vstd::prelude::*;

verus! {

/// Version constant exposed to the framing layer for negotiation; the codec
/// itself does not interpret it.
pub const CURRENT_VERSION: u16 = 0;

pub const CANVAS_META_TYPE_ID: u16 = 0x0000;
pub const PALETTE_INSERT_TYPE_ID: u16 = 0x0010;
pub const PALETTE_REMOVE_TYPE_ID: u16 = 0x0011;
pub const PLACEMENT_INSERT_TYPE_ID: u16 = 0x0020;
pub const PLACEMENT_INSERT_SILENT_TYPE_ID: u16 = 0x0021;
pub const PLACEMENT_INSERT_FILL_TYPE_ID: u16 = 0x0022;
pub const PLACEMENT_INSERT_FILL_SILENT_TYPE_ID: u16 = 0x0023;
pub const PLACEMENT_REMOVE_TYPE_ID: u16 = 0x0024;
pub const PLACEMENT_REMOVE_SILENT_TYPE_ID: u16 = 0x0025;
pub const PLACEMENT_REMOVE_FILL_TYPE_ID: u16 = 0x0026;
pub const PLACEMENT_REMOVE_FILL_SILENT_TYPE_ID: u16 = 0x0027;
pub const IDENTIFIER_NUMERIC_TYPE_ID: u16 = 0x0030;
pub const IDENTIFIER_STRING_TYPE_ID: u16 = 0x0031;
pub const IDENTIFIER_SECRET_TYPE_ID: u16 = 0x0032;

/// Canvas creation metadata: display name, hosting platform, creation time and
/// canvas dimensions.
#[derive(Debug, PartialEq)]
pub struct CanvasMeta {
    pub name: String,
    pub platform: String,
    pub time: u64,
    pub size: (u32, u32),
}

impl Clone for CanvasMeta {
    fn clone(&self) -> (r: Self)
        ensures
            r@ == self@,
    {
        CanvasMeta {
            name: self.name.clone(),
            platform: self.platform.clone(),
            time: self.time,
            size: (self.size.0, self.size.1),
        }
    }
}

/// Mathematical view of [`CanvasMeta`].
#[verifier::ext_equal]
pub struct CanvasMetaV {
    pub name: Seq<char>,
    pub platform: Seq<char>,
    pub time: u64,
    pub size: (u32, u32),
}

impl View for CanvasMeta {
    type V = CanvasMetaV;

    open spec fn view(&self) -> CanvasMetaV {
        CanvasMetaV { name: self.name@, platform: self.platform@, time: self.time, size: self.size }
    }
}

/// Palette entries inserted starting at a palette offset; each colour is one
/// 4-byte RGBA entry.
#[derive(Debug, Clone, PartialEq)]
pub struct PaletteInsert {
    pub offset: u32,
    pub colors: Vec<[u8; 4]>,
}

/// Mathematical view of [`PaletteInsert`]; every colour is a 4-byte sequence.
#[verifier::ext_equal]
pub struct PaletteInsertV {
    pub offset: u32,
    pub colors: Seq<Seq<u8>>,
}

impl View for PaletteInsert {
    type V = PaletteInsertV;

    open spec fn view(&self) -> PaletteInsertV {
        PaletteInsertV { offset: self.offset, colors: self.colors@.map_values(|c: [u8; 4]| c@) }
    }
}

/// Palette entries removed starting at a palette offset. `length` is never
/// zero: the wire form omits the field entirely when it equals 1.
#[derive(Debug, Clone, PartialEq)]
pub struct PaletteRemove {
    pub offset: u32,
    /// Number of removed entries; well-formed records hold a non-zero value.
    pub length: u32,
}

/// Mathematical view of [`PaletteRemove`].
#[verifier::ext_equal]
pub struct PaletteRemoveV {
    pub offset: u32,
    pub length: u32,
}

impl View for PaletteRemove {
    type V = PaletteRemoveV;

    open spec fn view(&self) -> PaletteRemoveV {
        PaletteRemoveV { offset: self.offset, length: self.length }
    }
}

/// A single pixel placement: packed coordinate, colour index and timestamp.
#[derive(Debug, Clone, Copy, PartialEq)]
pub struct PlacementInsert {
    pub time: u64,
    pub pos: u64,
    pub col: u32,
}

/// Mathematical view of [`PlacementInsert`].
#[verifier::ext_equal]
pub struct PlacementInsertV {
    pub time: u64,
    pub pos: u64,
    pub col: u32,
}

impl View for PlacementInsert {
    type V = PlacementInsertV;

    open spec fn view(&self) -> PlacementInsertV {
        PlacementInsertV { time: self.time, pos: self.pos, col: self.col }
    }
}

/// A rectangular fill placement between two packed coordinate bounds.
#[derive(Debug, Clone, Copy, PartialEq)]
pub struct PlacementInsertFill {
    pub time: u64,
    pub pos: (u64, u64),
    pub col: u32,
}

/// Mathematical view of [`PlacementInsertFill`].
#[verifier::ext_equal]
pub struct PlacementInsertFillV {
    pub time: u64,
    pub pos: (u64, u64),
    pub col: u32,
}

impl View for PlacementInsertFill {
    type V = PlacementInsertFillV;

    open spec fn view(&self) -> PlacementInsertFillV {
        PlacementInsertFillV { time: self.time, pos: self.pos, col: self.col }
    }
}

/// Removal of a single placement.
#[derive(Debug, Clone, Copy, PartialEq)]
pub struct PlacementRemove {
    pub time: u64,
    pub pos: u64,
}

/// Mathematical view of [`PlacementRemove`].
#[verifier::ext_equal]
pub struct PlacementRemoveV {
    pub time: u64,
    pub pos: u64,
}

impl View for PlacementRemove {
    type V = PlacementRemoveV;

    open spec fn view(&self) -> PlacementRemoveV {
        PlacementRemoveV { time: self.time, pos: self.pos }
    }
}

/// Removal of a rectangular fill between two packed coordinate bounds.
#[derive(Debug, Clone, Copy, PartialEq)]
pub struct PlacementRemoveFill {
    pub time: u64,
    pub pos: (u64, u64),
}

/// Mathematical view of [`PlacementRemoveFill`].
#[verifier::ext_equal]
pub struct PlacementRemoveFillV {
    pub time: u64,
    pub pos: (u64, u64),
}

impl View for PlacementRemoveFill {
    type V = PlacementRemoveFillV;

    open spec fn view(&self) -> PlacementRemoveFillV {
        PlacementRemoveFillV { time: self.time, pos: self.pos }
    }
}

/// An opaque contributor identifier: numeric, string, or raw secret bytes.
#[derive(Debug, Clone, PartialEq)]
pub enum Identifier {
    Numerical(u64),
    String(String),
    Secret(Vec<u8>),
}

/// One typed unit in the canvas change log.
#[derive(Debug, Clone, PartialEq)]
pub enum CanvasRecord {
    CanvasMeta(CanvasMeta),
    PaletteInsert(PaletteInsert),
    PaletteRemove(PaletteRemove),
    PlacementInsert(PlacementInsert),
    PlacementInsertQuiet(PlacementInsert),
    PlacementInsertFill(PlacementInsertFill),
    PlacementInsertFillQuiet(PlacementInsertFill),
    PlacementRemove(PlacementRemove),
    PlacementRemoveQuiet(PlacementRemove),
    PlacementRemoveFill(PlacementRemoveFill),
    PlacementRemoveFillQuiet(PlacementRemoveFill),
    IdentifierNumeric(u64),
    IdentifierString(String),
    IdentifierSecret(Vec<u8>),
}

/// Mathematical view of [`CanvasRecord`].
#[verifier::ext_equal]
pub enum RecordV {
    CanvasMeta(CanvasMetaV),
    PaletteInsert(PaletteInsertV),
    PaletteRemove(PaletteRemoveV),
    PlacementInsert(PlacementInsertV),
    PlacementInsertQuiet(PlacementInsertV),
    PlacementInsertFill(PlacementInsertFillV),
    PlacementInsertFillQuiet(PlacementInsertFillV),
    PlacementRemove(PlacementRemoveV),
    PlacementRemoveQuiet(PlacementRemoveV),
    PlacementRemoveFill(PlacementRemoveFillV),
    PlacementRemoveFillQuiet(PlacementRemoveFillV),
    IdentifierNumeric(u64),
    IdentifierString(Seq<char>),
    IdentifierSecret(Seq<u8>),
}

impl View for CanvasRecord {
    type V = RecordV;

    open spec fn view(&self) -> RecordV {
        match self {
            CanvasRecord::CanvasMeta(m) => RecordV::CanvasMeta(m@),
            CanvasRecord::PaletteInsert(p) => RecordV::PaletteInsert(p@),
            CanvasRecord::PaletteRemove(p) => RecordV::PaletteRemove(p@),
            CanvasRecord::PlacementInsert(p) => RecordV::PlacementInsert(p@),
            CanvasRecord::PlacementInsertQuiet(p) => RecordV::PlacementInsertQuiet(p@),
            CanvasRecord::PlacementInsertFill(p) => RecordV::PlacementInsertFill(p@),
            CanvasRecord::PlacementInsertFillQuiet(p) => RecordV::PlacementInsertFillQuiet(p@),
            CanvasRecord::PlacementRemove(p) => RecordV::PlacementRemove(p@),
            CanvasRecord::PlacementRemoveQuiet(p) => RecordV::PlacementRemoveQuiet(p@),
            CanvasRecord::PlacementRemoveFill(p) => RecordV::PlacementRemoveFill(p@),
            CanvasRecord::PlacementRemoveFillQuiet(p) => RecordV::PlacementRemoveFillQuiet(p@),
            CanvasRecord::IdentifierNumeric(n) => RecordV::IdentifierNumeric(*n),
            CanvasRecord::IdentifierString(s) => RecordV::IdentifierString(s@),
            CanvasRecord::IdentifierSecret(v) => RecordV::IdentifierSecret(v@),
        }
    }
}

/// The wire type tag of a record: declared here, alongside the variants, and
/// nowhere else.
pub open spec fn record_type_id(r: RecordV) -> u16 {
    match r {
        RecordV::CanvasMeta(_) => CANVAS_META_TYPE_ID,
        RecordV::PaletteInsert(_) => PALETTE_INSERT_TYPE_ID,
        RecordV::PaletteRemove(_) => PALETTE_REMOVE_TYPE_ID,
        RecordV::PlacementInsert(_) => PLACEMENT_INSERT_TYPE_ID,
        RecordV::PlacementInsertQuiet(_) => PLACEMENT_INSERT_SILENT_TYPE_ID,
        RecordV::PlacementInsertFill(_) => PLACEMENT_INSERT_FILL_TYPE_ID,
        RecordV::PlacementInsertFillQuiet(_) => PLACEMENT_INSERT_FILL_SILENT_TYPE_ID,
        RecordV::PlacementRemove(_) => PLACEMENT_REMOVE_TYPE_ID,
        RecordV::PlacementRemoveQuiet(_) => PLACEMENT_REMOVE_SILENT_TYPE_ID,
        RecordV::PlacementRemoveFill(_) => PLACEMENT_REMOVE_FILL_TYPE_ID,
        RecordV::PlacementRemoveFillQuiet(_) => PLACEMENT_REMOVE_FILL_SILENT_TYPE_ID,
        RecordV::IdentifierNumeric(_) => IDENTIFIER_NUMERIC_TYPE_ID,
        RecordV::IdentifierString(_) => IDENTIFIER_STRING_TYPE_ID,
        RecordV::IdentifierSecret(_) => IDENTIFIER_SECRET_TYPE_ID,
    }
}

/// True exactly for the notification-suppressing "Quiet" variants.
pub open spec fn record_silent(r: RecordV) -> bool {
    match r {
        RecordV::PlacementInsertQuiet(_) => true,
        RecordV::PlacementInsertFillQuiet(_) => true,
        RecordV::PlacementRemoveQuiet(_) => true,
        RecordV::PlacementRemoveFillQuiet(_) => true,
        _ => false,
    }
}

/// Well-formedness of a record: the invariants the model promises beyond its
/// field types. `PaletteRemove.length` is never zero, and every palette colour
/// is a 4-byte entry.
pub open spec fn record_wf(r: RecordV) -> bool {
    match r {
        RecordV::PaletteRemove(p) => p.length >= 1,
        RecordV::PaletteInsert(p) => forall|i: int|
            0 <= i < p.colors.len() ==> (#[trigger] p.colors[i]).len() == 4,
        _ => true,
    }
}

impl CanvasRecord {
    /// The 16-bit wire type tag of this record.
    pub fn raw_id(&self) -> (r: u16)
        ensures
            r == record_type_id(self@),
    {
        match self {
            CanvasRecord::CanvasMeta(_) => CANVAS_META_TYPE_ID,
            CanvasRecord::PaletteInsert(_) => PALETTE_INSERT_TYPE_ID,
            CanvasRecord::PaletteRemove(_) => PALETTE_REMOVE_TYPE_ID,
            CanvasRecord::PlacementInsert(_) => PLACEMENT_INSERT_TYPE_ID,
            CanvasRecord::PlacementInsertQuiet(_) => PLACEMENT_INSERT_SILENT_TYPE_ID,
            CanvasRecord::PlacementInsertFill(_) => PLACEMENT_INSERT_FILL_TYPE_ID,
            CanvasRecord::PlacementInsertFillQuiet(_) => PLACEMENT_INSERT_FILL_SILENT_TYPE_ID,
            CanvasRecord::PlacementRemove(_) => PLACEMENT_REMOVE_TYPE_ID,
            CanvasRecord::PlacementRemoveQuiet(_) => PLACEMENT_REMOVE_SILENT_TYPE_ID,
            CanvasRecord::PlacementRemoveFill(_) => PLACEMENT_REMOVE_FILL_TYPE_ID,
            CanvasRecord::PlacementRemoveFillQuiet(_) => PLACEMENT_REMOVE_FILL_SILENT_TYPE_ID,
            CanvasRecord::IdentifierNumeric(_) => IDENTIFIER_NUMERIC_TYPE_ID,
            CanvasRecord::IdentifierString(_) => IDENTIFIER_STRING_TYPE_ID,
            CanvasRecord::IdentifierSecret(_) => IDENTIFIER_SECRET_TYPE_ID,
        }
    }

    /// True exactly for the four "Quiet" variants: records whose placement is
    /// not surfaced as a user-facing notification.
    pub fn is_silent(&self) -> (r: bool)
        ensures
            r == record_silent(self@),
    {
        match self {
            CanvasRecord::PlacementInsertQuiet(_) => true,
            CanvasRecord::PlacementInsertFillQuiet(_) => true,
            CanvasRecord::PlacementRemoveQuiet(_) => true,
            CanvasRecord::PlacementRemoveFillQuiet(_) => true,
            _ => false,
        }
    }
}

/// A 32-bit reference into a side table of contributor identities.
///
/// Bit 31 marks a unique, session-scoped identifier; the values `0x7FFF_FFFF`
/// and `0xFFFF_FFFF` are reserved "no identifier" sentinels. The low 31 bits
/// are the table index. The raw integer is never exposed: the bit-packing rule
/// lives here and nowhere else.
#[derive(Debug, Copy, Clone, PartialEq)]
pub struct MetaIdIndex(u32);

impl View for MetaIdIndex {
    type V = u32;

    closed spec fn view(&self) -> u32 {
        self.0
    }
}

impl MetaIdIndex {
    /// Wraps a raw 32-bit reference value.
    pub fn new(raw: u32) -> (r: Self)
        ensures
            r@ == raw,
    {
        MetaIdIndex(raw)
    }

    /// True when bit 31 marks the identifier as unique (session-scoped).
    pub fn is_unique(&self) -> (r: bool)
        ensures
            r == ((self@ >> 31) & 1 > 0),
    {
        (self.0 >> 31) & 1 > 0
    }

    /// True for the two reserved "no identifier" sentinel values.
    pub fn is_none(&self) -> (r: bool)
        ensures
            r == (self@ == 0x7FFF_FFFFu32 || self@ == 0xFFFF_FFFFu32),
    {
        self.0 == 0x7FFF_FFFF || self.0 == 0xFFFF_FFFF
    }

    /// The low 31 bits: the index into the identity side table.
    pub fn into_index(self) -> (r: usize)
        ensures
            r == (self@ & 0x7FFF_FFFF) as usize,
            r < 0x8000_0000,
    {
        proof {
            let raw = self.0;
            assert((raw & 0x7FFF_FFFF) < 0x8000_0000u32) by (bit_vector);
        }
        (self.0 & 0x7FFF_FFFF) as usize
    }
}

} // verus!
