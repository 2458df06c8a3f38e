use screencast::geometry::{Point, Rect, Size};
use screencast::screencasting::cursor::{
    add_cursor_metadata, add_invisible_cursor, set_cursor_bitmap, BitmapMeta, CursorData,
    CursorMeta, CursorMode, CURSOR_BITMAP_SIZE, CURSOR_META_SIZE,
};
use screencast::screencasting::params::VideoFormat;

fn stale() -> CursorMeta {
    CursorMeta {
        id: 9,
        position: Point { x: 9, y: 9 },
        hotspot: Point { x: 9, y: 9 },
        bitmap_offset: 9,
        bitmap: BitmapMeta {
            format: VideoFormat::Other(1),
            width: 9,
            height: 9,
            stride: 9,
            offset: 9,
        },
    }
}

fn one_pixel() -> BitmapMeta {
    BitmapMeta {
        format: VideoFormat::Bgra,
        width: 1,
        height: 1,
        stride: 4,
        offset: 20,
    }
}

#[test]
fn cursor_data_is_relative_to_its_elements() {
    let cursor = CursorData::compute(
        2,
        Point { x: 100, y: 50 },
        Rect {
            x: 96,
            y: 44,
            w: 24,
            h: 32,
        },
    );
    assert_eq!(cursor.hotspot, Point { x: 4, y: 6 });
    assert_eq!(cursor.relocation, Point { x: -96, y: -44 });
    assert_eq!(cursor.location, Point { x: 100, y: 50 });
    assert_eq!(cursor.size, Size { w: 24, h: 32 });
    assert_eq!(cursor.elem_count, 2);
}

#[test]
fn old_media_servers_get_an_embedded_cursor() {
    assert_eq!(
        CursorMode::Metadata.or_embedded(false),
        CursorMode::Embedded
    );
    assert_eq!(CursorMode::Metadata.or_embedded(true), CursorMode::Metadata);
    assert_eq!(CursorMode::Hidden.or_embedded(false), CursorMode::Hidden);
    assert_eq!(CursorMode::Embedded.or_embedded(false), CursorMode::Embedded);
}

#[test]
fn only_an_embedded_cursor_is_part_of_the_frame() {
    assert_eq!(CursorMode::Embedded.skipped_elements(3), 0);
    assert_eq!(CursorMode::Metadata.skipped_elements(3), 3);
    assert_eq!(CursorMode::Hidden.skipped_elements(3), 3);
}

#[test]
fn invisible_cursors_are_one_transparent_pixel() {
    let mut meta = stale();
    let mut pixels = vec![7u8; 16];
    add_invisible_cursor(&mut meta, &mut pixels);
    assert_eq!(
        meta,
        CursorMeta {
            id: 1,
            position: Point { x: 0, y: 0 },
            hotspot: Point { x: 0, y: 0 },
            bitmap_offset: 28,
            bitmap: one_pixel(),
        }
    );
    assert_eq!(&pixels[..5], &[0, 0, 0, 0, 7]);
}

#[test]
fn unchanged_cursors_keep_their_bitmap() {
    let mut meta = stale();
    let mut pixels = vec![7u8; 16];
    let cursor = CursorData::compute(
        1,
        Point { x: 5, y: 6 },
        Rect {
            x: 4,
            y: 4,
            w: 8,
            h: 8,
        },
    );
    assert_eq!(
        add_cursor_metadata(&mut meta, &mut pixels, &cursor, false),
        None
    );
    assert_eq!(meta.id, 1);
    assert_eq!(meta.position, Point { x: 5, y: 6 });
    assert_eq!(meta.hotspot, Point { x: 1, y: 2 });
    assert_eq!(meta.bitmap_offset, 0);
    assert_eq!(meta.bitmap, stale().bitmap);
    assert_eq!(pixels, vec![7u8; 16]);
}

#[test]
fn redrawn_cursors_are_cut_to_the_largest_bitmap() {
    let mut meta = stale();
    let mut pixels = vec![7u8; CURSOR_BITMAP_SIZE];
    let cursor = CursorData::compute(
        1,
        Point { x: 5, y: 6 },
        Rect {
            x: 4,
            y: 4,
            w: 500,
            h: 2,
        },
    );
    let size = add_cursor_metadata(&mut meta, &mut pixels, &cursor, true).unwrap();
    assert_eq!(size, Size { w: 384, h: 2 });
    assert_eq!(meta.bitmap, one_pixel());
    assert_eq!(meta.bitmap_offset, 28);
    let drawn: Vec<u8> = (0..384 * 2 * 4).map(|i| (i % 251) as u8).collect();
    set_cursor_bitmap(&mut meta, &mut pixels, size, &drawn);
    assert_eq!(&pixels[..drawn.len()], &drawn[..]);
    assert_eq!(pixels[drawn.len()], 7);
    assert_eq!(
        meta.bitmap,
        BitmapMeta {
            width: 384,
            height: 2,
            stride: 1536,
            ..one_pixel()
        }
    );
    assert_eq!(CURSOR_META_SIZE as usize, 28 + 20 + CURSOR_BITMAP_SIZE);
    assert_eq!(CURSOR_BITMAP_SIZE, 384 * 384 * 4);
}

#[test]
fn empty_cursors_are_not_drawn() {
    let mut meta = stale();
    let mut pixels = vec![7u8; 16];
    let cursor = CursorData::compute(
        0,
        Point { x: 5, y: 6 },
        Rect {
            x: 0,
            y: 0,
            w: 0,
            h: 4,
        },
    );
    assert_eq!(
        add_cursor_metadata(&mut meta, &mut pixels, &cursor, true),
        None
    );
    assert_eq!(meta.bitmap, one_pixel());
    assert_eq!(&pixels[..4], &[0, 0, 0, 0]);
}
