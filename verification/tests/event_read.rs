use canvas_base::error::PError;
use canvas_base::events::{
    CanvasMeta, CanvasModify, MetaId, ModifyMap, PaletteChunk, Placement,
};
use canvas_base::read::{
    read_canvas_meta, read_canvas_modify, read_event, read_meta_id, read_modify_map,
    read_palette_chunk, read_placement, read_placement_chunk,
};

#[test]
fn read_test_canvas_meta() {
    let data = [
        32, 0, 0, 0, //                                     Width (32)
        64, 0, 0, 0, //                                     Height (64)
        96, 0, 0, 0, 0, 0, 0, 0, //                         Time Start (Some(96 ms))
        0, 0, 0, 0, 0, 0, 0, 0, //                          Time End (None)
        4, 0, //                                            Name Len (4)
        b't', b'e', b's', b't', //                          Name
        8, 0, //                                            Platform Name Len (8)
        b't', b'e', b's', b't', b'i', b'n', b'g', b'!', //  Platform Name
    ];
    let result = read_canvas_meta(&data);
    assert!(result.is_ok(), "parse error: {:?}", result);
    assert_eq!(
        result.unwrap(),
        CanvasMeta {
            size: (32, 64),
            time_start: 96,
            time_end: None,
            name: String::from("test"),
            platform: String::from("testing!")
        }
    )
}

#[test]
fn read_test_canvas_modify() {
    let data = [
        96, 0, 0, 0, // Width (96)
        64, 0, 0, 0, // Height (64)
    ];
    let result = read_canvas_modify(&data);
    assert!(result.is_ok(), "parse error: {:?}", result);
    assert_eq!(result.unwrap(), CanvasModify { size: (96, 64) })
}

#[test]
fn read_test_palette_chunk() {
    let data = [
        96, 0, 0, 0, 0, 0, 0, 0, // Width (96)
        255, 255, 255, 255, //      Colors[0]
        0, 0, 0, 255, //            Colors[1]
    ];
    let result = read_palette_chunk(&data);
    assert!(result.is_ok(), "parse error: {:?}", result);
    assert_eq!(
        result.unwrap(),
        PaletteChunk {
            offset: 96,
            colors: vec![[255, 255, 255, 255], [0, 0, 0, 255],]
        }
    )
}

#[test]
fn read_test_placement() {
    let data = [
        24, 0, 0, 0, //             X (24)
        32, 0, 0, 0, //             Y (32)
        8, 0, //                    Color (8)
        64, 0, 0, 0, 0, 0, 0, 0, // Time Start (96)
    ];
    let result = read_placement(&data);
    assert!(result.is_ok(), "parse error: {:?}", result);
    assert_eq!(
        result.unwrap(),
        Placement {
            pos: (24, 32),
            color_index: 8,
            time: 64,
        }
    )
}

#[test]
fn test_meda_id() {
    let data = [
        0, //                       Layout
        0xD2, 0x04, 0x00, 0x00, //  ID
    ];
    let result = read_meta_id(&data);
    assert!(result.is_ok(), "parse error: {:?}", result);
    assert_eq!(
        result.unwrap(),
        MetaId::Numerical(u32::to_le_bytes(1234).to_vec())
    )
}

#[test]
fn read_test_modify_map() {
    let data = [
        24, 0, 0, 0, //           X (24)
        32, 0, 0, 0, //           Y (32)
        1, 0, 0, 0, //            Width (24)
        2, 0, 0, 0, //            Height (32)
        0x32, 0x00, 0x00, 0x00, //  X1
        0x64, 0x00, 0x00, 0x00, //  Y1
        0x04, 0x00, 0x00, 0x00, //  X2
        0x06, 0x00, 0x00, 0x00, //  Y2
    ];
    let result = read_modify_map(&data);
    assert!(result.is_ok(), "parse error: {:?}", result);
    assert_eq!(
        result.unwrap(),
        ModifyMap {
            pos: (24, 32),
            size: (1, 2),
            map: vec![(0x32, 0x64), (0x04, 0x06)],
        }
    )
}

#[test]
fn read_canvas_meta_trailing_bytes() {
    // Extra bytes after the platform string are rejected.
    let data = [
        32, 0, 0, 0, //            Width
        64, 0, 0, 0, //            Height
        96, 0, 0, 0, 0, 0, 0, 0, //Time Start
        0, 0, 0, 0, 0, 0, 0, 0, // Time End
        1, 0, //                   Name Len
        b'a', //                   Name
        0, 0, //                   Platform Name Len
        9, //                      Trailing garbage
    ];
    assert_eq!(
        read_canvas_meta(&data),
        Err(PError::InvalidLength(30, 29))
    );
}

#[test]
fn read_canvas_meta_end_time() {
    // A positive end time on the wire decodes as present.
    let data = [
        1, 0, 0, 0, //             Width
        1, 0, 0, 0, //             Height
        5, 0, 0, 0, 0, 0, 0, 0, // Time Start
        9, 0, 0, 0, 0, 0, 0, 0, // Time End (Some(9))
        0, 0, //                   Name Len
        0, 0, //                   Platform Name Len
    ];
    let result = read_canvas_meta(&data).unwrap();
    assert_eq!(result.time_end, Some(9));
}

#[test]
fn read_short_payload() {
    assert_eq!(read_canvas_modify(&[1, 2, 3]), Err(PError::InvalidLength(3, 8)));
    assert_eq!(read_palette_chunk(&[1, 2, 3]), Err(PError::Io));
}

#[test]
fn read_palette_chunk_partial_color() {
    // A partial trailing colour entry is rejected, not dropped.
    let data = [
        96, 0, 0, 0, 0, 0, 0, 0, // Offset
        255, 255, 255, //           Partial colour
    ];
    assert_eq!(read_palette_chunk(&data), Err(PError::InvalidLength(11, 8)));
}

#[test]
fn read_placement_chunk_indexes() {
    let data = [
        24, 0, 0, 0, //             X
        32, 0, 0, 0, //             Y
        64, 0, 0, 0, 0, 0, 0, 0, // Time
        8, 0, //                    Color (8)
        15, 0, //                   Color (15)
    ];
    let result = read_placement_chunk(&data).unwrap();
    assert_eq!(result.pos, (24, 32));
    assert_eq!(result.time, 64);
    assert_eq!(result.color_indexes, vec![8, 15]);
    // An odd remainder leaves a partial index: rejected.
    let odd = [
        24, 0, 0, 0, 32, 0, 0, 0, 64, 0, 0, 0, 0, 0, 0, 0, 8,
    ];
    assert_eq!(
        read_placement_chunk(&odd),
        Err(PError::InvalidLength(17, 16))
    );
}

#[test]
fn read_meta_id_layouts() {
    // Layout 1 is a UTF-8 user name.
    let data = [1, b'E', b't', b'o', b's'];
    assert_eq!(
        read_meta_id(&data),
        Ok(MetaId::Username(String::from("Etos")))
    );
    // Any other layout is rejected.
    assert_eq!(read_meta_id(&[2, 0]), Err(PError::InvalidValue(2)));
    // A user name must be valid UTF-8.
    assert_eq!(
        read_meta_id(&[1, 0xFF]),
        Err(PError::InvalidString(
            canvas_base::error::StringEncoding::Utf8
        ))
    );
}

#[test]
fn read_modify_map_wrong_region() {
    // Fewer pairs than the region needs: the source ran out.
    let data = [
        0, 0, 0, 0, //  X
        0, 0, 0, 0, //  Y
        2, 0, 0, 0, //  Width
        1, 0, 0, 0, //  Height
        1, 0, 0, 0, 2, 0, 0, 0, // only one pair of the two needed
    ];
    assert_eq!(read_modify_map(&data), Err(PError::Io));
    // More pairs than the region needs: the length does not fit.
    let data = [
        0, 0, 0, 0, 0, 0, 0, 0, 1, 0, 0, 0, 1, 0, 0, 0, //
        1, 0, 0, 0, 2, 0, 0, 0, //
        3, 0, 0, 0, 4, 0, 0, 0, //
    ];
    assert_eq!(read_modify_map(&data), Err(PError::InvalidLength(32, 24)));
}

#[test]
fn read_event_dispatch() {
    // A placement payload under the quiet tag decodes to the quiet variant.
    let data = [
        24, 0, 0, 0, //             X
        32, 0, 0, 0, //             Y
        8, 0, //                    Color
        64, 0, 0, 0, 0, 0, 0, 0, // Time
    ];
    let expected = Placement {
        pos: (24, 32),
        color_index: 8,
        time: 64,
    };
    let plain = read_event(0x20, &data).unwrap();
    let quiet = read_event(0x21, &data).unwrap();
    assert_eq!(
        plain,
        canvas_base::events::CanvasEvent::Placement(expected.clone())
    );
    assert_eq!(
        quiet,
        canvas_base::events::CanvasEvent::PlacementQuiet(expected)
    );
    assert!(!plain.is_silent());
    assert!(quiet.is_silent());
    // An unknown tag is rejected.
    assert_eq!(read_event(0x99, &[]), Err(PError::InvalidTypeId(0x99)));
}
