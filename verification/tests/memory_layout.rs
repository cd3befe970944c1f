use pjrt::error::{Error, ErrorKind};
use pjrt::memory_layout::{
    MemoryLayout, MemoryLayoutStrides, MemoryLayoutTiled, MemoryLayoutType, RawMemoryLayout,
    STRIDES_TAG, TILED_TAG,
};

fn raw(type_: u32) -> RawMemoryLayout {
    RawMemoryLayout {
        type_,
        minor_to_major: vec![],
        tile_dims: vec![],
        tile_dim_sizes: vec![],
        num_tiles: 0,
        byte_strides: vec![],
    }
}

#[test]
fn from_tiled_keeps_its_parts() {
    let layout = MemoryLayout::from_tiled(vec![1, 0], Some(vec![8, 128]), Some(vec![2]));
    assert_eq!(
        layout,
        MemoryLayout::Tiled(MemoryLayoutTiled {
            minor_to_major: vec![1, 0],
            tile_dims: Some(vec![8, 128]),
            tile_dim_sizes: Some(vec![2]),
        })
    );
    assert_eq!(layout.layout_type(), MemoryLayoutType::Tiled);
    assert!(layout.is_well_formed());
}

#[test]
fn from_strides_keeps_the_strides() {
    let layout = MemoryLayout::from_strides(vec![16, -4]);
    assert_eq!(
        layout,
        MemoryLayout::Strides(MemoryLayoutStrides { byte_strides: vec![16, -4] })
    );
    assert_eq!(layout.layout_type(), MemoryLayoutType::Strides);
    assert!(layout.is_well_formed());
}

#[test]
fn tags_are_zero_and_one() {
    assert_eq!(TILED_TAG, 0);
    assert_eq!(STRIDES_TAG, 1);
    assert_eq!(MemoryLayoutType::Tiled.tag(), 0);
    assert_eq!(MemoryLayoutType::Strides.tag(), 1);
    assert_eq!(MemoryLayoutType::from_tag(0), Ok(MemoryLayoutType::Tiled));
    assert_eq!(MemoryLayoutType::from_tag(1), Ok(MemoryLayoutType::Strides));
}

#[test]
fn unknown_tag_is_reported_with_the_tag() {
    assert_eq!(MemoryLayoutType::from_tag(2), Err(Error::InvalidMemoryLayoutType(2)));
    let err = MemoryLayout::from_raw(&raw(7)).unwrap_err();
    assert_eq!(err, Error::InvalidMemoryLayoutType(7));
    assert_eq!(err.kind(), ErrorKind::UnrecognizedVariant);
    assert!(err.is_recoverable());
}

#[test]
fn tiled_record_without_tiles_decodes_to_absent_tiling() {
    let mut record = raw(TILED_TAG);
    record.minor_to_major = vec![2, 1, 0];
    let layout = MemoryLayout::from_raw(&record).unwrap();
    assert_eq!(layout, MemoryLayout::from_tiled(vec![2, 1, 0], None, None));
    assert!(layout.is_well_formed());
}

#[test]
fn tiled_record_with_empty_dimension_order_decodes() {
    let layout = MemoryLayout::from_raw(&raw(TILED_TAG)).unwrap();
    assert_eq!(layout, MemoryLayout::from_tiled(vec![], None, None));
}

#[test]
fn tiled_record_with_tiles_decodes_to_both_fields() {
    let mut record = raw(TILED_TAG);
    record.minor_to_major = vec![1, 0];
    record.tile_dims = vec![8, 128];
    record.tile_dim_sizes = vec![1, 1];
    record.num_tiles = 2;
    let layout = MemoryLayout::from_raw(&record).unwrap();
    assert_eq!(
        layout,
        MemoryLayout::from_tiled(vec![1, 0], Some(vec![8, 128]), Some(vec![1, 1]))
    );
}

#[test]
fn strided_record_decodes() {
    let mut record = raw(STRIDES_TAG);
    record.byte_strides = vec![32, 8];
    // Fields of the other variant carry no meaning.
    record.minor_to_major = vec![9, 9];
    let layout = MemoryLayout::from_raw(&record).unwrap();
    assert_eq!(layout, MemoryLayout::from_strides(vec![32, 8]));
}

#[test]
fn tiled_layout_encodes() {
    let layout = MemoryLayout::from_tiled(vec![1, 0], Some(vec![8, 128]), Some(vec![1, 1]));
    let record = layout.to_raw().unwrap();
    assert_eq!(
        record,
        RawMemoryLayout {
            type_: 0,
            minor_to_major: vec![1, 0],
            tile_dims: vec![8, 128],
            tile_dim_sizes: vec![1, 1],
            num_tiles: 2,
            byte_strides: vec![],
        }
    );
}

#[test]
fn strided_layout_encodes() {
    let record = MemoryLayout::from_strides(vec![4, 1]).to_raw().unwrap();
    assert_eq!(
        record,
        RawMemoryLayout {
            type_: 1,
            minor_to_major: vec![],
            tile_dims: vec![],
            tile_dim_sizes: vec![],
            num_tiles: 0,
            byte_strides: vec![4, 1],
        }
    );
    assert_eq!(MemoryLayoutStrides { byte_strides: vec![4, 1] }.to_raw(), record);
}

#[test]
fn partial_tiling_is_refused() {
    let only_dims = MemoryLayout::from_tiled(vec![0], Some(vec![8]), None);
    assert!(!only_dims.is_well_formed());
    let err = only_dims.to_raw().unwrap_err();
    assert_eq!(err, Error::PartialTiling);
    assert_eq!(err.kind(), ErrorKind::CallerPrecondition);

    let only_sizes = MemoryLayout::from_tiled(vec![0], None, Some(vec![1]));
    assert!(!only_sizes.is_well_formed());
    assert_eq!(only_sizes.to_raw(), Err(Error::PartialTiling));
    let tiled = MemoryLayoutTiled {
        minor_to_major: vec![0],
        tile_dims: None,
        tile_dim_sizes: Some(vec![1]),
    };
    assert_eq!(tiled.to_raw(), Err(Error::PartialTiling));
}

#[test]
fn layouts_round_trip_through_their_records() {
    let layouts = vec![
        MemoryLayout::from_tiled(vec![], None, None),
        MemoryLayout::from_tiled(vec![1, 0], None, None),
        MemoryLayout::from_tiled(vec![2, 1, 0], Some(vec![8, 128, 2]), Some(vec![2, 1, 0])),
        MemoryLayout::from_strides(vec![]),
        MemoryLayout::from_strides(vec![-8, 64, i64::MAX, i64::MIN]),
    ];
    for layout in layouts {
        let record = layout.to_raw().unwrap();
        assert_eq!(MemoryLayout::from_raw(&record), Ok(layout));
    }
}

#[test]
fn empty_tiling_comes_back_absent() {
    let layout = MemoryLayout::from_tiled(vec![0], Some(vec![]), Some(vec![]));
    let record = layout.to_raw().unwrap();
    assert_eq!(record.num_tiles, 0);
    assert_eq!(
        MemoryLayout::from_raw(&record),
        Ok(MemoryLayout::from_tiled(vec![0], None, None))
    );
}
