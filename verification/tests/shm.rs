use screencast::geometry::{FrameSize, Rect, Size};
use screencast::screencasting::shm_buffer::{allocate_shmbuf, clear_shmbuf};
use screencast::screencasting::shm_layout::{ShmLayout, ShmLayoutError};
use screencast::screencasting::shm_mapping::{
    check_mapping_len, clear, copy_frame, copy_region, MappingError,
};
use screencast::screencasting::spa::{
    mark_shm_chunk_rendered, Chunk, CHUNK_FLAG_CORRUPTED, CHUNK_FLAG_NONE,
};

fn frame(w: u32, h: u32) -> FrameSize {
    FrameSize { w, h }
}

#[test]
fn shm_mapping_survives_buffer_clone_and_reuses_storage() {
    let buffer = allocate_shmbuf(frame(2, 2)).ok().unwrap();
    let mut memory = vec![0u8; buffer.layout.size_usize()];
    assert!(copy_frame(&mut memory, &[1; 15]).is_err());
    copy_frame(&mut memory, &[42; 16]).unwrap();
    assert_eq!(memory, vec![42; 16]);
    clear(&mut memory);
    assert_eq!(memory, vec![0; 16]);
    copy_frame(&mut memory, &[7; 16]).unwrap();
    assert_eq!(memory, vec![7; 16]);
}

#[test]
fn shm_layout_uses_spa_representable_dimensions() {
    let layout = ShmLayout::new(frame(3840, 2160)).unwrap();
    assert_eq!(layout.stride, 15360);
    assert_eq!(layout.size, 33_177_600);

    assert!(ShmLayout::new(frame(536_870_912, 1)).is_err());
    assert!(ShmLayout::new(frame(500_000_000, 3)).is_err());
    assert!(ShmLayout::new(frame(0, 1)).is_err());
    assert!(ShmLayout::new(frame(1, 0)).is_err());
    assert!(layout.matches(Size { w: 3840, h: 2160 }));
    assert!(!layout.matches(Size { w: 1920, h: 4320 }));
    let mut invalid_size = Size { w: 1, h: 2160 };
    invalid_size.w = -1;
    assert!(!layout.matches(invalid_size));
    assert!(!layout.matches(Size {
        w: i32::MAX,
        h: i32::MAX
    }));
}

#[test]
fn rendered_shm_chunk_covers_the_full_buffer() {
    let layout = ShmLayout::new(frame(3840, 2160)).unwrap();
    let mut chunk = Chunk {
        offset: 42,
        size: 1,
        stride: -1,
        flags: CHUNK_FLAG_CORRUPTED,
    };

    mark_shm_chunk_rendered(&mut chunk, layout);

    assert_eq!(chunk.offset, 0);
    assert_eq!(chunk.size, 33_177_600);
    assert_eq!(chunk.stride, 15360);
    assert_eq!(chunk.flags, CHUNK_FLAG_NONE);
}

#[test]
fn each_layout_error_has_its_cause() {
    assert_eq!(
        ShmLayout::new(frame(0, 5)),
        Err(ShmLayoutError::EmptyFrame)
    );
    assert_eq!(
        ShmLayout::new(frame(1_073_741_824, 1)),
        Err(ShmLayoutError::StrideOverflow)
    );
    assert_eq!(
        ShmLayout::new(frame(500_000_000, 3)),
        Err(ShmLayoutError::BufferSizeOverflow)
    );
    assert_eq!(
        ShmLayout::new(frame(536_870_912, 1)),
        Err(ShmLayoutError::ReadbackLimit)
    );
    assert_eq!(
        ShmLayout::new(frame(536_870_911, 1)),
        Ok(ShmLayout {
            stride: 2_147_483_644,
            size: 2_147_483_644
        })
    );
}

#[test]
fn mapping_lengths_are_checked() {
    assert_eq!(check_mapping_len(0), Err(MappingError::InvalidLength));
    assert_eq!(
        check_mapping_len(usize::MAX),
        Err(MappingError::InvalidLength)
    );
    assert_eq!(check_mapping_len(1), Ok(()));
    assert_eq!(check_mapping_len(isize::MAX as usize), Ok(()));
}

#[test]
fn regions_replace_only_their_own_pixels() {
    // Four pixels by three.
    let mut memory: Vec<u8> = (0..48).collect();
    let region = Rect { x: 1, y: 1, w: 2, h: 2 };
    copy_region(&mut memory, &[200; 16], 16, region).unwrap();
    for i in 0..48usize {
        let (column, row) = (i % 16 / 4, i / 16);
        let inside = (1..3).contains(&column) && (1..3).contains(&row);
        assert_eq!(memory[i], if inside { 200 } else { i as u8 });
    }
}

#[test]
fn region_rows_follow_each_other_in_the_source() {
    let mut memory = vec![0u8; 3 * 8];
    let bytes: Vec<u8> = (1..=8).collect();
    copy_region(&mut memory, &bytes, 8, Rect { x: 1, y: 0, w: 1, h: 2 }).unwrap();
    assert_eq!(&memory[4..8], &[1, 2, 3, 4]);
    assert_eq!(&memory[12..16], &[5, 6, 7, 8]);
    assert_eq!(memory.iter().filter(|b| **b != 0).count(), 8);
}

#[test]
fn regions_outside_the_frame_are_refused() {
    let mut memory = vec![9u8; 48];
    for region in [
        Rect { x: 3, y: 0, w: 2, h: 1 },
        Rect { x: 0, y: 2, w: 1, h: 2 },
        Rect { x: -1, y: 0, w: 1, h: 1 },
        Rect { x: 0, y: 0, w: i32::MAX, h: i32::MAX },
    ] {
        assert_eq!(
            copy_region(&mut memory, &[0; 8], 16, region),
            Err(MappingError::InvalidRegion)
        );
    }
    assert_eq!(
        copy_region(&mut memory, &[0; 5], 16, Rect { x: 0, y: 0, w: 1, h: 1 }),
        Err(MappingError::InvalidRegionLength)
    );
    assert_eq!(
        copy_frame(&mut memory, &[0; 49]),
        Err(MappingError::InvalidFrameLength)
    );
    assert_eq!(memory, vec![9u8; 48]);
}

#[test]
fn cleared_buffers_hold_no_frame() {
    let mut buffer = allocate_shmbuf(frame(4, 3)).ok().unwrap();
    let mut memory = vec![5u8; 48];
    clear_shmbuf(&mut buffer, &mut memory);
    assert!(buffer.content.is_none());
    assert_eq!(memory, vec![0u8; 48]);
    assert!(allocate_shmbuf(frame(0, 3)).is_err());
}
