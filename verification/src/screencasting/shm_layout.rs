//! Row and buffer sizes of shared-memory frames.

use crate::geometry::{FrameSize, Size};
use vstd::prelude::*;

verus! {

pub const SHM_BYTES_PER_PIXEL: u32 = 4;

/// How the rows of a frame lie in its buffer.
#[derive(Clone, Copy, Debug, PartialEq, Eq, Structural)]
pub struct ShmLayout {
    pub stride: i32,
    pub size: u32,
}

/// Why a frame size has no layout.
#[derive(Clone, Copy, Debug, PartialEq, Eq, Structural)]
pub enum ShmLayoutError {
    EmptyFrame,
    StrideOverflow,
    BufferSizeOverflow,
    ReadbackLimit,
}

/// The number of bytes in a row.
pub open spec fn row_bytes(size: FrameSize) -> int {
    size.w * 4
}

/// The number of bytes in a frame.
pub open spec fn frame_bytes(size: FrameSize) -> int {
    size.w * 4 * size.h
}

impl ShmLayout {
    /// The layout of a frame: rows follow each other without padding. Neither the stream's stride
    /// nor the driver's readback, which computes lengths in `i32`, may overflow.
    pub open spec fn of(size: FrameSize) -> Result<ShmLayout, ShmLayoutError> {
        if size.w == 0 || size.h == 0 {
            Err(ShmLayoutError::EmptyFrame)
        } else if row_bytes(size) > u32::MAX {
            Err(ShmLayoutError::StrideOverflow)
        } else if frame_bytes(size) > u32::MAX {
            Err(ShmLayoutError::BufferSizeOverflow)
        } else if frame_bytes(size) > i32::MAX {
            Err(ShmLayoutError::ReadbackLimit)
        } else {
            Ok(ShmLayout { stride: row_bytes(size) as i32, size: frame_bytes(size) as u32 })
        }
    }

    pub fn new(size: FrameSize) -> (layout: Result<ShmLayout, ShmLayoutError>)
        ensures
            layout == ShmLayout::of(size),
    {
        if size.w == 0 || size.h == 0 {
            return Err(ShmLayoutError::EmptyFrame);
        }
        let stride: u32 = match size.w.checked_mul(SHM_BYTES_PER_PIXEL) {
            Some(stride) => stride,
            None => {
                return Err(ShmLayoutError::StrideOverflow);
            },
        };
        let buffer_size: u32 = match stride.checked_mul(size.h) {
            Some(buffer_size) => buffer_size,
            None => {
                return Err(ShmLayoutError::BufferSizeOverflow);
            },
        };
        if buffer_size > i32::MAX as u32 {
            return Err(ShmLayoutError::ReadbackLimit);
        }
        proof {
            let (s, h) = (stride as int, size.h as int);
            assert(s <= s * h) by (nonlinear_arith)
                requires
                    s >= 0,
                    h >= 1,
            ;
        }
        Ok(ShmLayout { stride: stride as i32, size: buffer_size })
    }

    /// The number of bytes in the buffer.
    pub fn size_usize(self) -> (len: usize)
        ensures
            len == self.size,
    {
        self.size as usize
    }

    /// Whether frames of the given size have this layout.
    pub fn matches(self, size: Size) -> (matches: bool)
        ensures
            matches == (size.w >= 0 && size.h >= 0 && ShmLayout::of(
                FrameSize { w: size.w as u32, h: size.h as u32 },
            ) == Ok::<ShmLayout, ShmLayoutError>(self)),
    {
        if size.w < 0 || size.h < 0 {
            return false;
        }
        match ShmLayout::new(FrameSize { w: size.w as u32, h: size.h as u32 }) {
            Ok(layout) => layout == self,
            Err(_) => false,
        }
    }
}

/// A layout belongs to one frame size only.
pub proof fn layout_determines_size(a: FrameSize, b: FrameSize)
    requires
        ShmLayout::of(a) is Ok,
        ShmLayout::of(a) == ShmLayout::of(b),
    ensures
        a == b,
{
    let layout = ShmLayout::of(a)->Ok_0;
    row_fits_in_frame(a);
    row_fits_in_frame(b);
    assert(a.w == b.w);
    let (s, x, y) = (row_bytes(a), a.h as int, b.h as int);
    assert(x == y) by (nonlinear_arith)
        requires
            s > 0,
            s * x == s * y,
    ;
}

/// A row of a frame is no longer than the frame.
pub proof fn row_fits_in_frame(size: FrameSize)
    requires
        size.h > 0,
    ensures
        row_bytes(size) <= frame_bytes(size),
{
    let (s, h) = (row_bytes(size), size.h as int);
    assert(s <= s * h) by (nonlinear_arith)
        requires
            s >= 0,
            h >= 1,
    ;
}

/// A frame in shared memory has four bytes per pixel, and rows that follow each other without gaps.
/// It has a layout exactly if it has pixels and its bytes can be counted with 31 bits.
pub proof fn frames_have_four_bytes_per_pixel(
    size: FrameSize,
    layout: Result<ShmLayout, ShmLayoutError>,
)
    requires
        call_ensures(ShmLayout::new, (size,), layout),
    ensures
        ({
            let row = 4 * size.w;
            let bytes = size.w * 4 * size.h;
            let empty = size.w == 0 || size.h == 0;
            &&& layout is Ok <==> !empty && bytes <= 0x7fff_ffff
            &&& layout matches Ok(layout) ==> layout.stride == row && layout.size == bytes
            &&& layout == Err::<ShmLayout, _>(ShmLayoutError::EmptyFrame) <==> empty
            &&& layout == Err::<ShmLayout, _>(ShmLayoutError::StrideOverflow) <==> !empty && row
                > 0xffff_ffff
            &&& layout == Err::<ShmLayout, _>(ShmLayoutError::BufferSizeOverflow) <==> !empty && row
                <= 0xffff_ffff && bytes > 0xffff_ffff
            &&& layout == Err::<ShmLayout, _>(ShmLayoutError::ReadbackLimit) <==> !empty
                && 0x7fff_ffff < bytes <= 0xffff_ffff
        }),
{
    if size.h > 0 {
        row_fits_in_frame(size);
    }
}

/// A layout matches frames with pixels that have rows and bytes as it says, and no others.
pub proof fn layouts_match_their_frames(layout: ShmLayout, size: Size, matches: bool, len: usize)
    requires
        call_ensures(ShmLayout::matches, (layout, size), matches),
        call_ensures(ShmLayout::size_usize, (layout,), len),
    ensures
        matches <==> size.w > 0 && size.h > 0 && layout.stride == 4 * size.w && layout.size == size.w
            * 4 * size.h && layout.size <= 0x7fff_ffff,
        len == layout.size,
{
    if size.w >= 0 && size.h > 0 {
        row_fits_in_frame(FrameSize { w: size.w as u32, h: size.h as u32 });
    }
}

/// A pixel is four bytes.
pub proof fn pixels_are_four_bytes()
    ensures
        SHM_BYTES_PER_PIXEL == 4,
{
}

} // verus!
