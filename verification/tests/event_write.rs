use canvas_base::error::PError;
use canvas_base::events::{
    CanvasEvent, CanvasMeta, CanvasModify, MetaId, ModifyMap, PaletteChunk, Placement,
    PlacementChunk,
};
use canvas_base::write::{event_len, write_canvas_meta, write_event};

fn verify_write(input: CanvasEvent, output: &[u8]) {
    // STEP 1: Write
    let len = event_len(&input);
    let mut wtr: Vec<u8> = Vec::new();
    write_event(&mut wtr, &input).expect("write error");

    // STEP 2: Assert length
    let data = wtr;
    assert_eq!(
        data.len(),
        len,
        "length error: output was {} bytes but expected {len} bytes",
        data.len()
    );

    // STEP 3: Assert contents
    assert_eq!(data, output, "write error: mismatched results");
}

#[test]
fn write_test_canvas_meta() {
    let input = CanvasEvent::CanvasMeta(CanvasMeta {
        size: (32, 64),
        time_start: 96,
        time_end: None,
        name: String::from("test"),
        platform: String::from("testing!"),
    });
    let output = [
        32, 0, 0, 0, //                                     Width (32)
        64, 0, 0, 0, //                                     Height (64)
        96, 0, 0, 0, 0, 0, 0, 0, //                         Time Start (Some(96 ms))
        0, 0, 0, 0, 0, 0, 0, 0, //                          Time End (None)
        4, 0, //                                            Name Len (4)
        b't', b'e', b's', b't', //                          Name
        8, 0, //                                            Platform Name Len (8)
        b't', b'e', b's', b't', b'i', b'n', b'g', b'!', //  Platform Name
    ];
    verify_write(input, &output);
}

#[test]
fn write_test_canvas_modify() {
    let input = CanvasEvent::CanvasModify(CanvasModify { size: (96, 64) });
    let output = [
        96, 0, 0, 0, //                                     Width (32)
        64, 0, 0, 0, //                                     Height (64)
    ];
    verify_write(input, &output);
}

#[test]
fn write_test_palette_chunk() {
    let input = CanvasEvent::PaletteChunk(PaletteChunk {
        offset: 96,
        colors: vec![[255, 255, 255, 255], [0, 0, 0, 255]],
    });
    let output = [
        96, 0, 0, 0, 0, 0, 0, 0, // Width (96)
        255, 255, 255, 255, //      Colors[0]
        0, 0, 0, 255, //            Colors[1]
    ];
    verify_write(input, &output);
}

#[test]
fn write_test_placement() {
    let input = CanvasEvent::Placement(Placement {
        pos: (24, 32),
        time: 64,
        color_index: 8,
    });
    let output = [
        24, 0, 0, 0, //             X (24)
        32, 0, 0, 0, //             Y (32)
        8, 0, //                    Color (8)
        64, 0, 0, 0, 0, 0, 0, 0, // Time Start (96)
    ];
    verify_write(input, &output);
}

#[test]
fn test_placement_chunk() {
    let input = CanvasEvent::PlacementChunk(PlacementChunk {
        pos: (24, 32),
        time: 64,
        color_indexes: vec![8, 15, 2],
    });
    let output = [
        24, 0, 0, 0, //             X (24)
        32, 0, 0, 0, //             Y (32)
        64, 0, 0, 0, 0, 0, 0, 0, // Time Start (96)
        8, 0, //                    Color (8)
        15, 0, //                   Color (15)
        2, 0, //                    Color (2)
    ];
    verify_write(input, &output);
}

#[test]
fn test_meta_id() {
    let input = CanvasEvent::MetaId(MetaId::Numerical(u32::to_le_bytes(1234).to_vec()));
    let output = [
        0, //                       Layout
        0xD2, 0x04, 0x00, 0x00, //  ID
    ];
    verify_write(input, &output);
}

#[test]
fn write_test_modify_map() {
    let input = CanvasEvent::ModifyMap(ModifyMap {
        pos: (24, 32),
        size: (1, 2),
        map: vec![(0x32, 0x64), (0x04, 0x06)],
    });
    let output = [
        24, 0, 0, 0, //           X (24)
        32, 0, 0, 0, //           Y (32)
        1, 0, 0, 0, //            Width (24)
        2, 0, 0, 0, //            Height (32)
        0x32, 0x00, 0x00, 0x00, //  X1
        0x64, 0x00, 0x00, 0x00, //  Y1
        0x04, 0x00, 0x00, 0x00, //  X2
        0x06, 0x00, 0x00, 0x00, //  Y2
    ];
    verify_write(input, &output);
}

#[test]
fn write_meta_id_username() {
    let input = CanvasEvent::MetaUniqueId(MetaId::Username(String::from("Etos")));
    let output = [
        1, //                       Layout
        b'E', b't', b'o', b's', //  Name
    ];
    verify_write(input, &output);
}

#[test]
fn write_read_placement_roundtrip() {
    // Writer and reader agree on the placement field order: a written
    // placement reads back unchanged.
    let input = Placement {
        pos: (24, 32),
        time: 64,
        color_index: 8,
    };
    let mut wtr: Vec<u8> = Vec::new();
    write_event(&mut wtr, &CanvasEvent::Placement(input)).expect("write error");
    let back = canvas_base::read::read_event(0x20, &wtr).expect("read error");
    assert_eq!(back, CanvasEvent::Placement(input));
}

#[test]
fn write_canvas_meta_oversized_name() {
    // A name longer than the 2-byte length prefix allows is rejected, never
    // silently truncated; the sink is untouched.
    let input = CanvasMeta {
        size: (1, 1),
        time_start: 0,
        time_end: None,
        name: String::from_utf8(vec![b'a'; 0x1_0000]).unwrap(),
        platform: String::new(),
    };
    let mut wtr: Vec<u8> = Vec::new();
    let err = write_canvas_meta(&mut wtr, &input).expect_err("oversized name accepted");
    assert_eq!(err, PError::InvalidLength(0x1_0000, 0xFFFF));
    assert!(wtr.is_empty());
}
