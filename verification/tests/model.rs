use canvas_base::records::{
    CanvasRecord, MetaIdIndex, PlacementInsert, PlacementRemove, CURRENT_VERSION,
};

#[test]
fn meta_id_index() {
    let id = MetaIdIndex::new(0x00000012);
    assert!(!id.is_unique());
    assert!(!id.is_none());
    let id = MetaIdIndex::new(0x80000012);
    assert!(id.is_unique());
    assert!(!id.is_none());
    let id = MetaIdIndex::new(0xFFFFFFFF);
    assert!(id.is_unique());
    assert!(id.is_none());
}

#[test]
fn meta_id_index_sentinels() {
    // The non-unique "no identifier" sentinel.
    let id = MetaIdIndex::new(0x7FFFFFFF);
    assert!(!id.is_unique());
    assert!(id.is_none());
    assert_eq!(id.into_index(), 0x7FFFFFFF);
    // The unique flag is masked off the table index.
    let id = MetaIdIndex::new(0x80000012);
    assert_eq!(id.into_index(), 0x12);
}

#[test]
fn record_tags_and_silence() {
    assert_eq!(CURRENT_VERSION, 0);
    let plain = CanvasRecord::PlacementInsert(PlacementInsert {
        time: 1,
        pos: 2,
        col: 3,
    });
    let quiet = CanvasRecord::PlacementInsertQuiet(PlacementInsert {
        time: 1,
        pos: 2,
        col: 3,
    });
    assert_eq!(plain.raw_id(), 0x0020);
    assert_eq!(quiet.raw_id(), 0x0021);
    assert!(!plain.is_silent());
    assert!(quiet.is_silent());
    let remove = CanvasRecord::PlacementRemoveQuiet(PlacementRemove { time: 1, pos: 2 });
    assert_eq!(remove.raw_id(), 0x0025);
    assert!(remove.is_silent());
    assert_eq!(
        CanvasRecord::IdentifierSecret(vec![1, 2, 3]).raw_id(),
        0x0032
    );
}
