//! The pointer in a stream: drawn into the frame, or described beside it.

use crate::geometry::{Point, Rect, Size};
use crate::screencasting::params::VideoFormat;
use vstd::prelude::*;

verus! {

pub const CURSOR_BPP: u32 = 4;

pub const CURSOR_WIDTH: u32 = 384;

pub const CURSOR_HEIGHT: u32 = 384;

/// The number of bytes of the largest bitmap.
pub const CURSOR_BITMAP_SIZE: usize = 589_824;

/// Where the bitmap's description begins, behind that of the cursor.
pub const BITMAP_META_OFFSET: u32 = 28;

/// Where the bitmap begins, behind its description.
pub const BITMAP_DATA_OFFSET: u32 = 20;

/// The number of bytes of a cursor's metadata.
pub const CURSOR_META_SIZE: i32 = 589_872;

/// How the pointer is shown.
#[derive(Clone, Copy, Debug, PartialEq, Eq, Structural)]
pub enum CursorMode {
    Hidden,
    Embedded,
    Metadata,
}

impl CursorMode {
    /// The mode that is used where the media server does not handle cursor metadata well.
    pub open spec fn supported(self, metadata: bool) -> CursorMode {
        if self is Metadata && !metadata {
            CursorMode::Embedded
        } else {
            self
        }
    }

    /// The mode that is used, given whether the media server handles cursor metadata.
    pub fn or_embedded(self, metadata: bool) -> (mode: CursorMode)
        ensures
            mode == self.supported(metadata),
    {
        if self == CursorMode::Metadata && !metadata {
            CursorMode::Embedded
        } else {
            self
        }
    }

    /// How many of a frame's first elements, which are those of the pointer, are left out.
    pub fn skipped_elements(self, elem_count: usize) -> (skipped: usize)
        ensures
            skipped == if self is Embedded {
                0
            } else {
                elem_count
            },
    {
        if self == CursorMode::Metadata || self == CursorMode::Hidden {
            elem_count
        } else {
            0
        }
    }
}

/// Data for drawing a cursor either as metadata or embedded.
#[derive(Clone, Copy, Debug, PartialEq, Eq, Structural)]
pub struct CursorData {
    /// Count of the pointer elements, which are the first ones of the frame.
    pub elem_count: usize,
    /// How far the pointer elements are moved so that they begin at the origin.
    pub relocation: Point,
    /// Location of the cursor's hotspot in the video buffer.
    pub location: Point,
    /// Location of the cursor's hotspot on the cursor bitmap.
    pub hotspot: Point,
    /// Size of the elements' encompassing geometry.
    pub size: Size,
}

impl CursorData {
    /// The data of a pointer whose elements fill the given geometry.
    pub open spec fn of(elem_count: usize, location: Point, geo: Rect) -> CursorData {
        CursorData {
            elem_count,
            relocation: Point {
                x: crate::geometry::clamp(-geo.x) as i32,
                y: crate::geometry::clamp(-geo.y) as i32,
            },
            location,
            hotspot: Point {
                x: crate::geometry::clamp(location.x - geo.x) as i32,
                y: crate::geometry::clamp(location.y - geo.y) as i32,
            },
            size: Size { w: geo.w, h: geo.h },
        }
    }

    /// The data of a pointer whose elements fill the given geometry.
    pub fn compute(elem_count: usize, location: Point, geo: Rect) -> (cursor: CursorData)
        ensures
            cursor == CursorData::of(elem_count, location, geo),
    {
        let origin = Point { x: geo.x, y: geo.y };
        CursorData {
            elem_count,
            relocation: origin.opposite(),
            location,
            hotspot: location.offset_from(origin),
            size: Size { w: geo.w, h: geo.h },
        }
    }
}

/// The description of a bitmap.
#[derive(Clone, Copy, Debug, PartialEq, Eq, Structural)]
pub struct BitmapMeta {
    pub format: VideoFormat,
    pub width: u32,
    pub height: u32,
    pub stride: i32,
    pub offset: u32,
}

/// The description of a cursor. A zero `bitmap_offset` leaves the bitmap as it was.
#[derive(Clone, Copy, Debug, PartialEq, Eq, Structural)]
pub struct CursorMeta {
    pub id: u32,
    pub position: Point,
    pub hotspot: Point,
    pub bitmap_offset: u32,
    pub bitmap: BitmapMeta,
}

impl BitmapMeta {
    /// One transparent pixel. Neither a zero offset nor a zero size hides the cursor everywhere.
    pub open spec fn one_pixel() -> BitmapMeta {
        BitmapMeta {
            format: VideoFormat::Bgra,
            width: 1,
            height: 1,
            stride: 4,
            offset: BITMAP_DATA_OFFSET,
        }
    }
}

/// The bytes with the first pixel transparent.
pub open spec fn first_pixel_cleared(pixels: Seq<u8>) -> Seq<u8> {
    Seq::new(
        pixels.len(),
        |i: int|
            if i < 4 {
                0u8
            } else {
                pixels[i]
            },
    )
}

/// The bytes with the first ones replaced.
pub open spec fn overwritten(pixels: Seq<u8>, bytes: Seq<u8>) -> Seq<u8> {
    Seq::new(
        pixels.len(),
        |i: int|
            if i < bytes.len() {
                bytes[i]
            } else {
                pixels[i]
            },
    )
}

fn clear_bitmap(meta: &mut CursorMeta, pixels: &mut [u8])
    requires
        old(pixels)@.len() >= 4,
    ensures
        *final(meta) == (CursorMeta {
            bitmap_offset: BITMAP_META_OFFSET,
            bitmap: BitmapMeta::one_pixel(),
            ..*old(meta)
        }),
        final(pixels)@ == first_pixel_cleared(old(pixels)@),
{
    let ghost before = pixels@;
    meta.bitmap_offset = BITMAP_META_OFFSET;
    meta.bitmap = BitmapMeta {
        format: VideoFormat::Bgra,
        width: 1,
        height: 1,
        stride: 4,
        offset: BITMAP_DATA_OFFSET,
    };
    pixels[0] = 0;
    pixels[1] = 0;
    pixels[2] = 0;
    pixels[3] = 0;
    assert(pixels@ =~= first_pixel_cleared(before));
}

/// Says that the cursor is present but invisible.
pub fn add_invisible_cursor(meta: &mut CursorMeta, pixels: &mut [u8])
    requires
        old(pixels)@.len() >= 4,
    ensures
        *final(meta) == (CursorMeta {
            id: 1,
            position: Point { x: 0, y: 0 },
            hotspot: Point { x: 0, y: 0 },
            bitmap_offset: BITMAP_META_OFFSET,
            bitmap: BitmapMeta::one_pixel(),
        }),
        final(pixels)@ == first_pixel_cleared(old(pixels)@),
{
    meta.id = 1;
    meta.position = Point { x: 0, y: 0 };
    meta.hotspot = Point { x: 0, y: 0 };
    clear_bitmap(meta, pixels);
}

/// The part of a cursor that fits into a bitmap.
pub open spec fn bitmap_size(size: Size) -> Size {
    Size {
        w: if size.w < CURSOR_WIDTH {
            size.w
        } else {
            CURSOR_WIDTH as i32
        },
        h: if size.h < CURSOR_HEIGHT {
            size.h
        } else {
            CURSOR_HEIGHT as i32
        },
    }
}

/// Says where the cursor is. If it has to be drawn anew, its bitmap becomes a transparent pixel
/// for now, and the size is returned in which it has to be drawn, unless it is empty.
pub fn add_cursor_metadata(
    meta: &mut CursorMeta,
    pixels: &mut [u8],
    cursor: &CursorData,
    redraw: bool,
) -> (draw: Option<Size>)
    requires
        old(pixels)@.len() >= 4,
    ensures
        *final(meta) == (CursorMeta {
            id: 1,
            position: cursor.location,
            hotspot: cursor.hotspot,
            bitmap_offset: if redraw {
                BITMAP_META_OFFSET
            } else {
                0
            },
            bitmap: if redraw {
                BitmapMeta::one_pixel()
            } else {
                old(meta).bitmap
            },
        }),
        final(pixels)@ == if redraw {
            first_pixel_cleared(old(pixels)@)
        } else {
            old(pixels)@
        },
        draw == if redraw && cursor.size.w != 0 && cursor.size.h != 0 {
            Some(bitmap_size(cursor.size))
        } else {
            None
        },
{
    meta.id = 1;
    meta.position = cursor.location;
    meta.hotspot = cursor.hotspot;
    if !redraw {
        meta.bitmap_offset = 0;
        return None;
    }
    clear_bitmap(meta, pixels);
    let w: i32 = if cursor.size.w < CURSOR_WIDTH as i32 {
        cursor.size.w
    } else {
        CURSOR_WIDTH as i32
    };
    let h: i32 = if cursor.size.h < CURSOR_HEIGHT as i32 {
        cursor.size.h
    } else {
        CURSOR_HEIGHT as i32
    };
    if w == 0 || h == 0 {
        return None;
    }
    Some(Size { w, h })
}

/// Gives the cursor the bitmap that was drawn for it.
pub fn set_cursor_bitmap(meta: &mut CursorMeta, pixels: &mut [u8], size: Size, drawn: &[u8])
    requires
        drawn@.len() <= old(pixels)@.len(),
        0 <= size.w <= CURSOR_WIDTH,
        0 <= size.h <= CURSOR_HEIGHT,
    ensures
        *final(meta) == (CursorMeta {
            bitmap: BitmapMeta {
                width: size.w as u32,
                height: size.h as u32,
                stride: (size.w * 4) as i32,
                ..old(meta).bitmap
            },
            ..*old(meta)
        }),
        final(pixels)@ == overwritten(old(pixels)@, drawn@),
{
    let ghost before = pixels@;
    let len: usize = drawn.len();
    let mut i: usize = 0;
    while i < len
        invariant
            i <= len == drawn@.len(),
            len <= before.len(),
            pixels@.len() == before.len(),
            forall|j: int| 0 <= j < i ==> #[trigger] pixels@[j] == drawn@[j],
            forall|j: int| i <= j < before.len() ==> #[trigger] pixels@[j] == before[j],
        decreases len - i,
    {
        pixels[i] = drawn[i];
        i = i + 1;
    }
    assert(pixels@ =~= overwritten(before, drawn@));
    meta.bitmap.width = size.w as u32;
    meta.bitmap.height = size.h as u32;
    meta.bitmap.stride = size.w * CURSOR_BPP as i32;
}

/// A cursor of any size is drawn into a bitmap that fits behind its description.
pub proof fn bitmap_fits(size: Size)
    requires
        0 <= size.w,
        0 <= size.h,
    ensures
        bitmap_size(size).w * bitmap_size(size).h * CURSOR_BPP <= CURSOR_BITMAP_SIZE,
        BITMAP_META_OFFSET + BITMAP_DATA_OFFSET + CURSOR_BITMAP_SIZE == CURSOR_META_SIZE,
{
    let (w, h) = (bitmap_size(size).w as int, bitmap_size(size).h as int);
    assert(w * h * 4 <= 384 * 384 * 4) by (nonlinear_arith)
        requires
            0 <= w <= 384,
            0 <= h <= 384,
    ;
}

/// The pointer's elements begin at the origin once they are moved, and its hotspot is then where
/// it was on them before, as long as no coordinate leaves the range.
pub proof fn relocated_cursor_begins_at_the_origin(elem_count: usize, location: Point, geo: Rect)
    requires
        geo.x != i32::MIN,
        geo.y != i32::MIN,
        i32::MIN <= location.x - geo.x <= i32::MAX,
        i32::MIN <= location.y - geo.y <= i32::MAX,
    ensures
        ({
            let cursor = CursorData::of(elem_count, location, geo);
            &&& geo.x + cursor.relocation.x == 0
            &&& geo.y + cursor.relocation.y == 0
            &&& cursor.hotspot.x == location.x + cursor.relocation.x
            &&& cursor.hotspot.y == location.y + cursor.relocation.y
        }),
{
}

/// A pointer that fits into a bitmap is drawn in its own size. A larger one is cut, in each
/// dimension on its own.
pub proof fn pointer_is_cut_in_each_dimension(size: Size)
    ensures
        size.w <= 384 ==> bitmap_size(size).w == size.w,
        size.w > 384 ==> bitmap_size(size).w == 384,
        size.h <= 384 ==> bitmap_size(size).h == size.h,
        size.h > 384 ==> bitmap_size(size).h == 384,
{
}

/// The numbers of the metadata fit together: a pixel has four bytes, and a bitmap begins behind its
/// description, which begins behind that of the cursor.
pub proof fn cursor_metadata_is_laid_out_without_gaps()
    ensures
        CURSOR_BPP == 4,
        CURSOR_WIDTH == 384,
        CURSOR_HEIGHT == 384,
        CURSOR_BITMAP_SIZE == CURSOR_WIDTH * CURSOR_HEIGHT * CURSOR_BPP,
        BITMAP_META_OFFSET == 28,
        BITMAP_DATA_OFFSET == 20,
        CURSOR_META_SIZE == BITMAP_META_OFFSET + BITMAP_DATA_OFFSET + CURSOR_BITMAP_SIZE,
{
}

/// A pointer that is described is drawn into the frame instead where the media server does not
/// handle descriptions. No other mode changes.
pub proof fn only_descriptions_need_support(mode: CursorMode, metadata: bool, used: CursorMode)
    requires
        call_ensures(CursorMode::or_embedded, (mode, metadata), used),
    ensures
        used is Hidden <==> mode is Hidden,
        used is Metadata <==> mode is Metadata && metadata,
        used is Embedded <==> mode is Embedded || mode is Metadata && !metadata,
        mode.supported(metadata) == used,
{
}

/// The pointer's elements are left out of a frame unless the pointer is drawn into it.
pub proof fn embedded_pointers_are_not_left_out(mode: CursorMode, elem_count: usize, skipped: usize)
    requires
        call_ensures(CursorMode::skipped_elements, (mode, elem_count), skipped),
    ensures
        mode is Embedded ==> skipped == 0,
        mode is Hidden || mode is Metadata ==> skipped == elem_count,
{
}

/// A pointer is described where it is, in its own size. Moving its elements takes their corner to
/// the origin, and the hotspot lies from that corner as far as the pointer's location does, where
/// the coordinates have room for that, and else as far as they have.
pub proof fn pointer_is_described_where_it_is(
    elem_count: usize,
    location: Point,
    geo: Rect,
    cursor: CursorData,
)
    requires
        call_ensures(CursorData::compute, (elem_count, location, geo), cursor),
    ensures
        cursor.elem_count == elem_count,
        cursor.location == location,
        cursor.size.w == geo.w && cursor.size.h == geo.h,
        geo.x != i32::MIN ==> cursor.relocation.x == -geo.x,
        geo.x == i32::MIN ==> cursor.relocation.x == i32::MAX,
        geo.y != i32::MIN ==> cursor.relocation.y == -geo.y,
        geo.y == i32::MIN ==> cursor.relocation.y == i32::MAX,
        ({
            let d = location.x - geo.x;
            &&& i32::MIN <= d <= i32::MAX ==> geo.x + cursor.hotspot.x == location.x
            &&& d > i32::MAX ==> cursor.hotspot.x == i32::MAX
            &&& d < i32::MIN ==> cursor.hotspot.x == i32::MIN
        }),
        ({
            let d = location.y - geo.y;
            &&& i32::MIN <= d <= i32::MAX ==> geo.y + cursor.hotspot.y == location.y
            &&& d > i32::MAX ==> cursor.hotspot.y == i32::MAX
            &&& d < i32::MIN ==> cursor.hotspot.y == i32::MIN
        }),
{
}

/// A cursor without a bitmap yet has one transparent pixel, and the bytes behind it stay.
pub proof fn transparent_pixel_leaves_the_rest(pixels: Seq<u8>, i: int)
    requires
        0 <= i < pixels.len(),
    ensures
        first_pixel_cleared(pixels).len() == pixels.len(),
        i < 4 ==> first_pixel_cleared(pixels)[i] == 0,
        i >= 4 ==> first_pixel_cleared(pixels)[i] == pixels[i],
        BitmapMeta::one_pixel().width == 1 && BitmapMeta::one_pixel().height == 1,
        BitmapMeta::one_pixel().stride == 4,
        BitmapMeta::one_pixel().format is Bgra,
        BitmapMeta::one_pixel().offset == 20,
{
}

/// A bitmap that was drawn is put where the bitmap begins, and the bytes behind it stay.
pub proof fn drawn_bitmap_leaves_the_rest(pixels: Seq<u8>, drawn: Seq<u8>, i: int)
    requires
        0 <= i < pixels.len(),
    ensures
        overwritten(pixels, drawn).len() == pixels.len(),
        i < drawn.len() ==> overwritten(pixels, drawn)[i] == drawn[i],
        i >= drawn.len() ==> overwritten(pixels, drawn)[i] == pixels[i],
{
}

/// A pointer is described at its location, with its hotspot. One that is drawn anew has a
/// transparent pixel meanwhile, and is to be drawn in its own size as far as a bitmap has room, in
/// each dimension on its own, unless it has no extent. One that is not drawn anew keeps its bitmap.
pub proof fn pointer_is_described_and_drawn(
    meta: &mut CursorMeta,
    pixels: &mut [u8],
    cursor: &CursorData,
    redraw: bool,
    draw: Option<Size>,
    i: int,
)
    requires
        call_ensures(add_cursor_metadata, (meta, pixels, cursor, redraw), draw),
        0 <= i < old(pixels)@.len(),
    ensures
        final(meta).id == 1,
        final(meta).position == cursor.location,
        final(meta).hotspot == cursor.hotspot,
        draw is Some <==> redraw && cursor.size.w != 0 && cursor.size.h != 0,
        draw matches Some(size) ==> {
            &&& cursor.size.w <= 384 ==> size.w == cursor.size.w
            &&& cursor.size.w > 384 ==> size.w == 384
            &&& cursor.size.h <= 384 ==> size.h == cursor.size.h
            &&& cursor.size.h > 384 ==> size.h == 384
        },
        redraw ==> {
            &&& final(meta).bitmap_offset == 28
            &&& final(meta).bitmap == (BitmapMeta {
                format: VideoFormat::Bgra,
                width: 1,
                height: 1,
                stride: 4,
                offset: 20,
            })
        },
        !redraw ==> final(meta).bitmap_offset == 0 && final(meta).bitmap == old(meta).bitmap,
        final(pixels)@.len() == old(pixels)@.len(),
        redraw && i < 4 ==> final(pixels)@[i] == 0,
        !redraw || i >= 4 ==> final(pixels)@[i] == old(pixels)@[i],
{
}

/// A pointer that is not to be seen is described as one transparent pixel at the origin.
pub proof fn invisible_pointer_is_one_transparent_pixel(
    meta: &mut CursorMeta,
    pixels: &mut [u8],
    i: int,
)
    requires
        call_ensures(add_invisible_cursor, (meta, pixels), ()),
        0 <= i < old(pixels)@.len(),
    ensures
        *final(meta) == (CursorMeta {
            id: 1,
            position: Point { x: 0, y: 0 },
            hotspot: Point { x: 0, y: 0 },
            bitmap_offset: 28,
            bitmap: BitmapMeta {
                format: VideoFormat::Bgra,
                width: 1,
                height: 1,
                stride: 4,
                offset: 20,
            },
        }),
        final(pixels)@.len() == old(pixels)@.len(),
        i < 4 ==> final(pixels)@[i] == 0,
        i >= 4 ==> final(pixels)@[i] == old(pixels)@[i],
{
}

/// A bitmap that was drawn is described with its size and rows of four bytes per pixel, and its
/// bytes stand where the bitmap begins. Nothing else changes.
pub proof fn drawn_pointer_has_its_bitmap(
    meta: &mut CursorMeta,
    pixels: &mut [u8],
    size: Size,
    drawn: &[u8],
    i: int,
)
    requires
        0 <= size.w <= 384,
        0 <= size.h <= 384,
        call_ensures(set_cursor_bitmap, (meta, pixels, size, drawn), ()),
        0 <= i < old(pixels)@.len(),
    ensures
        final(meta).bitmap.width == size.w,
        final(meta).bitmap.height == size.h,
        final(meta).bitmap.stride == 4 * size.w,
        final(meta).bitmap.format == old(meta).bitmap.format,
        final(meta).bitmap.offset == old(meta).bitmap.offset,
        final(meta).bitmap_offset == old(meta).bitmap_offset,
        final(meta).id == old(meta).id,
        final(meta).position == old(meta).position,
        final(meta).hotspot == old(meta).hotspot,
        final(pixels)@.len() == old(pixels)@.len(),
        i < drawn@.len() ==> final(pixels)@[i] == drawn@[i],
        i >= drawn@.len() ==> final(pixels)@[i] == old(pixels)@[i],
{
}

} // verus!
