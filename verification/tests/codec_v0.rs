use canvas_base::codec::v0_0::Serialiser;
use canvas_base::codec::Error;
use canvas_base::records::{
    CanvasMeta, CanvasRecord, PaletteInsert, PaletteRemove, PlacementInsert, PlacementInsertFill,
    PlacementRemove, PlacementRemoveFill, PALETTE_REMOVE_TYPE_ID,
};

fn serdes_harness(sample: CanvasRecord, raw: &[u8]) {
    let serialiser = Serialiser;
    let record = serialiser
        .deserialise_record(sample.raw_id(), raw)
        .expect("failed deserialise");

    assert_eq!(record, sample);

    let mut buf: Vec<u8> = Vec::new();
    let written = serialiser
        .serialise_record(&mut buf, &record)
        .expect("failed serialise");

    assert_eq!(written, raw.len());
    assert_eq!(buf, raw);
}

fn ser_harness_err(sample: CanvasRecord, err: Error) {
    let serialiser = Serialiser;
    let mut buf: Vec<u8> = Vec::new();
    let ser_err = serialiser
        .serialise_record(&mut buf, &sample)
        .expect_err("succeeded serialise unexpectedly");

    assert_eq!(ser_err, err);
    assert!(buf.is_empty());
}

fn des_harness_err(id: u16, raw: &[u8], err: Error) {
    let serialiser = Serialiser;
    let des_err = serialiser
        .deserialise_record(id, raw)
        .expect_err("succeeded deserialise unexpectedly");

    assert_eq!(des_err, err);
}

#[test]
fn codec_canvas_meta() {
    // Typical
    let mut raw: Vec<u8> = Vec::new();
    raw.push(4u8); // Name Len
    raw.extend_from_slice(b"test"); // Name
    raw.push(10u8); // Platform Name Len
    raw.extend_from_slice(b"pxls.space"); // Platform Name
    raw.extend_from_slice(&1234u64.to_le_bytes()); // Time
    raw.extend_from_slice(&512u32.to_le_bytes()); // Size.0
    raw.extend_from_slice(&256u32.to_le_bytes()); // Size.1
    serdes_harness(
        CanvasRecord::CanvasMeta(CanvasMeta {
            name: "test".to_string(),
            platform: "pxls.space".to_string(),
            time: 1234,
            size: (512, 256),
        }),
        &raw,
    );
    // Illegal name lengths
    ser_harness_err(
        CanvasRecord::CanvasMeta(CanvasMeta {
            name: String::from_utf8(vec![0; 256]).unwrap(),
            platform: "pxls.space".to_string(),
            time: 1234,
            size: (512, 256),
        }),
        Error::InvalidField(256usize.to_le_bytes().to_vec()),
    );
    ser_harness_err(
        CanvasRecord::CanvasMeta(CanvasMeta {
            name: "test".to_string(),
            platform: String::from_utf8(vec![0; 257]).unwrap(),
            time: 1234,
            size: (512, 256),
        }),
        Error::InvalidField(257usize.to_le_bytes().to_vec()),
    );
}

#[test]
fn codec_canvas_meta_max_name() {
    // A 255-byte name is the longest that fits the 1-byte length prefix.
    let name = String::from_utf8(vec![b'a'; 255]).unwrap();
    let mut raw: Vec<u8> = Vec::new();
    raw.push(255u8);
    raw.extend_from_slice(name.as_bytes());
    raw.push(0u8);
    raw.extend_from_slice(&7u64.to_le_bytes());
    raw.extend_from_slice(&1u32.to_le_bytes());
    raw.extend_from_slice(&2u32.to_le_bytes());
    serdes_harness(
        CanvasRecord::CanvasMeta(CanvasMeta {
            name,
            platform: String::new(),
            time: 7,
            size: (1, 2),
        }),
        &raw,
    );
}

#[test]
fn codec_palette_insert() {
    const COLORS: &[[u8; 4]] = &[
        [0x00, 0x00, 0x00, 0x00], // colors[0]
        [0xFF, 0xFF, 0xFF, 0xFF], // colors[1]
        [0x7F, 0x7F, 0x7F, 0xFF], // colors[2]
        [0x00, 0x00, 0x00, 0xFF], // colors[3]
    ];
    let mut raw: Vec<u8> = Vec::new();
    raw.extend_from_slice(&16u32.to_le_bytes()); // Offset
    for color in COLORS {
        raw.extend_from_slice(color);
    }
    serdes_harness(
        CanvasRecord::PaletteInsert(PaletteInsert {
            offset: 16,
            colors: COLORS.to_vec(),
        }),
        &raw,
    );
}

#[test]
fn codec_palette_insert_empty() {
    serdes_harness(
        CanvasRecord::PaletteInsert(PaletteInsert {
            offset: 3,
            colors: Vec::new(),
        }),
        &3u32.to_le_bytes(),
    );
}

#[test]
fn codec_palette_insert_partial_entry() {
    // A partial trailing colour entry is rejected, not dropped.
    let mut raw: Vec<u8> = Vec::new();
    raw.extend_from_slice(&16u32.to_le_bytes());
    raw.extend_from_slice(&[1, 2, 3]);
    des_harness_err(0x0010, &raw, Error::InvalidValueLength);
}

#[test]
fn codec_palette_remove() {
    // Long form
    let mut raw: Vec<u8> = Vec::new();
    raw.extend_from_slice(&16u32.to_le_bytes()); // Offset
    raw.extend_from_slice(&32u32.to_le_bytes()); // Length
    serdes_harness(
        CanvasRecord::PaletteRemove(PaletteRemove {
            offset: 16,
            length: 32,
        }),
        &raw,
    );
    // Short form
    serdes_harness(
        CanvasRecord::PaletteRemove(PaletteRemove {
            offset: 16,
            length: 1,
        }),
        &16u32.to_le_bytes(),
    );
    // Invalid deserialise
    let mut raw: Vec<u8> = Vec::new();
    raw.extend_from_slice(&16u32.to_le_bytes()); // Offset
    raw.extend_from_slice(&0u32.to_le_bytes()); // Length (0 is invalid)
    des_harness_err(
        PALETTE_REMOVE_TYPE_ID,
        &raw,
        Error::InvalidField(0u32.to_le_bytes().to_vec()),
    );
}

#[test]
fn codec_palette_remove_long_form_one() {
    // An 8-byte form with explicit length 1 decodes to the same record as
    // the 4-byte short form; re-encoding gives the short form back.
    let serialiser = Serialiser;
    let mut long: Vec<u8> = Vec::new();
    long.extend_from_slice(&16u32.to_le_bytes());
    long.extend_from_slice(&1u32.to_le_bytes());
    let from_long = serialiser
        .deserialise_record(PALETTE_REMOVE_TYPE_ID, &long)
        .unwrap();
    let from_short = serialiser
        .deserialise_record(PALETTE_REMOVE_TYPE_ID, &16u32.to_le_bytes())
        .unwrap();
    assert_eq!(from_long, from_short);
    let mut buf: Vec<u8> = Vec::new();
    let written = serialiser.serialise_record(&mut buf, &from_long).unwrap();
    assert_eq!(written, 4);
    assert_eq!(buf, 16u32.to_le_bytes().to_vec());
}

#[test]
fn codec_placement_insert() {
    let inner = PlacementInsert {
        time: 1234,
        pos: 21,
        col: 5,
    };
    let mut raw: Vec<u8> = Vec::new();
    raw.extend_from_slice(&1234u64.to_le_bytes()); // Time
    raw.extend_from_slice(&21u64.to_le_bytes()); // Position
    raw.extend_from_slice(&5u32.to_le_bytes()); // Color

    serdes_harness(CanvasRecord::PlacementInsert(inner.clone()), &raw);
    serdes_harness(CanvasRecord::PlacementInsertQuiet(inner), &raw);
}

#[test]
fn codec_placement_insert_fill() {
    let inner = PlacementInsertFill {
        time: 1234,
        pos: (21, 42),
        col: 5,
    };
    let mut raw: Vec<u8> = Vec::new();
    raw.extend_from_slice(&1234u64.to_le_bytes()); // Time
    raw.extend_from_slice(&21u64.to_le_bytes()); // Position 1
    raw.extend_from_slice(&42u64.to_le_bytes()); // Position 2
    raw.extend_from_slice(&5u32.to_le_bytes()); // Color

    serdes_harness(CanvasRecord::PlacementInsertFill(inner.clone()), &raw);
    serdes_harness(CanvasRecord::PlacementInsertFillQuiet(inner), &raw);
}

#[test]
fn codec_placement_remove() {
    let inner = PlacementRemove {
        time: 1234,
        pos: 21,
    };
    let mut raw: Vec<u8> = Vec::new();
    raw.extend_from_slice(&1234u64.to_le_bytes()); // Time
    raw.extend_from_slice(&21u64.to_le_bytes()); // Position

    serdes_harness(CanvasRecord::PlacementRemove(inner.clone()), &raw);
    serdes_harness(CanvasRecord::PlacementRemoveQuiet(inner), &raw);
}

#[test]
fn codec_placement_remove_fill() {
    let inner = PlacementRemoveFill {
        time: 1234,
        pos: (21, 42),
    };
    let mut raw: Vec<u8> = Vec::new();
    raw.extend_from_slice(&1234u64.to_le_bytes()); // Time
    raw.extend_from_slice(&21u64.to_le_bytes()); // Position 1
    raw.extend_from_slice(&42u64.to_le_bytes()); // Position 2

    serdes_harness(CanvasRecord::PlacementRemoveFill(inner.clone()), &raw);
    serdes_harness(CanvasRecord::PlacementRemoveFillQuiet(inner), &raw);
}

#[test]
fn codec_identifier() {
    serdes_harness(
        CanvasRecord::IdentifierNumeric(1234u64),
        &1234u64.to_le_bytes(),
    );
    serdes_harness(CanvasRecord::IdentifierString("Etos2".to_string()), b"Etos2");
    let secret = vec![42u8; 256];
    serdes_harness(CanvasRecord::IdentifierSecret(secret.clone()), &secret);
}

#[test]
fn codec_unknown_tag() {
    des_harness_err(0x0099, &[], Error::UnexpectedType(0x0099));
}

#[test]
fn codec_short_payload() {
    // A fixed-width read past the end of the payload is rejected.
    des_harness_err(0x0020, &1234u64.to_le_bytes(), Error::InvalidValueLength);
    // Trailing bytes after a fixed layout are rejected as well.
    des_harness_err(0x0030, &[0u8; 9], Error::InvalidValueLength);
}

#[test]
fn codec_invalid_utf8() {
    // 0xFF can never start a UTF-8 sequence.
    des_harness_err(0x0031, &[0x41, 0xFF, 0x42], Error::InvalidUTF8);
    // The same rejection through a canvas metadata name field.
    let mut raw: Vec<u8> = Vec::new();
    raw.push(2u8);
    raw.extend_from_slice(&[0xC3, 0x28]); // malformed 2-byte sequence
    raw.push(0u8);
    raw.extend_from_slice(&7u64.to_le_bytes());
    raw.extend_from_slice(&1u32.to_le_bytes());
    raw.extend_from_slice(&1u32.to_le_bytes());
    des_harness_err(0x0000, &raw, Error::InvalidUTF8);
}
