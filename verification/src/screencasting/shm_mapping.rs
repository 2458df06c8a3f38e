//! Writing frames into mapped shared memory.

use crate::geometry::Rect;
use vstd::prelude::*;

verus! {

/// Why bytes were not written to a mapping.
#[derive(Clone, Copy, Debug, PartialEq, Eq, Structural)]
pub enum MappingError {
    /// Nothing, or more than the address space holds, was to be mapped.
    InvalidLength,
    /// The bytes are not exactly one frame.
    InvalidFrameLength,
    /// The region leaves the frame.
    InvalidRegion,
    /// The bytes are not exactly one region.
    InvalidRegionLength,
}

/// The number of bytes in each pixel.
pub const PIXEL_BYTES: usize = 4;

/// Checks the length of a buffer before it is mapped.
pub fn check_mapping_len(len: usize) -> (checked: Result<(), MappingError>)
    ensures
        checked == if 0 < len <= isize::MAX {
            Ok::<(), MappingError>(())
        } else {
            Err(MappingError::InvalidLength)
        },
{
    if len > 0 && len <= isize::MAX as usize {
        Ok(())
    } else {
        Err(MappingError::InvalidLength)
    }
}

/// Replaces the whole mapping. Only call while the producer owns the buffer.
pub fn copy_frame(mapping: &mut [u8], bytes: &[u8]) -> (copied: Result<(), MappingError>)
    ensures
        final(mapping)@ == if bytes@.len() == old(mapping)@.len() {
            bytes@
        } else {
            old(mapping)@
        },
        copied == if bytes@.len() == old(mapping)@.len() {
            Ok::<(), MappingError>(())
        } else {
            Err(MappingError::InvalidFrameLength)
        },
{
    if bytes.len() != mapping.len() {
        return Err(MappingError::InvalidFrameLength);
    }
    let mut i: usize = 0;
    while i < bytes.len()
        invariant
            i <= bytes@.len(),
            mapping@.len() == bytes@.len(),
            forall|j: int| 0 <= j < i ==> #[trigger] mapping@[j] == bytes@[j],
        decreases bytes@.len() - i,
    {
        mapping[i] = bytes[i];
        i = i + 1;
    }
    assert(mapping@ =~= bytes@);
    Ok(())
}

/// Sets every byte of the mapping to zero.
pub fn clear(mapping: &mut [u8])
    ensures
        final(mapping)@ == Seq::new(old(mapping)@.len(), |i: int| 0u8),
{
    let ghost len = mapping@.len();
    let mut i: usize = 0;
    while i < mapping.len()
        invariant
            i <= mapping@.len(),
            mapping@.len() == len,
            forall|j: int| 0 <= j < i ==> #[trigger] mapping@[j] == 0u8,
        decreases mapping@.len() - i,
    {
        mapping[i] = 0;
        i = i + 1;
    }
    assert(mapping@ =~= Seq::new(len, |i: int| 0u8));
}

/// Whether byte `i` of a frame with the given stride belongs to the region.
pub open spec fn in_region(region: Rect, stride: int, i: int) -> bool {
    &&& region.y <= i / stride < region.y + region.h
    &&& 4 * region.x <= i % stride < 4 * (region.x + region.w)
}

/// Where byte `i` of a frame lies among the bytes of the region alone.
pub open spec fn region_index(region: Rect, stride: int, i: int) -> int {
    (i / stride - region.y) * (4 * region.w) + (i % stride - 4 * region.x)
}

/// A frame in which the region is replaced by `bytes`.
pub open spec fn with_region(
    frame: Seq<u8>,
    bytes: Seq<u8>,
    stride: int,
    region: Rect,
) -> Seq<u8> {
    Seq::new(
        frame.len(),
        |i: int|
            if in_region(region, stride, i) {
                bytes[region_index(region, stride, i)]
            } else {
                frame[i]
            },
    )
}

/// Whether the region lies inside a frame of `len` bytes with the given stride.
pub open spec fn region_fits(len: int, stride: int, region: Rect) -> bool {
    &&& region.x >= 0
    &&& region.y >= 0
    &&& region.w >= 0
    &&& region.h >= 0
    &&& 4 * (region.x + region.w) <= stride
    &&& (region.y + region.h) * stride <= len
}

/// The number of bytes of a region alone.
pub open spec fn region_bytes(region: Rect) -> int {
    region.w * 4 * region.h
}

/// The byte in the given row and column.
proof fn byte_at(stride: int, row: int, column: int)
    requires
        0 <= column < stride,
        0 <= row,
    ensures
        (row * stride + column) / stride == row,
        (row * stride + column) % stride == column,
{
    vstd::arithmetic::div_mod::lemma_fundamental_div_mod_converse(
        row * stride + column,
        stride,
        row,
        column,
    );
}

/// Row and column determine a byte.
proof fn row_and_column_determine_byte(stride: int, i: int)
    requires
        stride > 0,
        i >= 0,
    ensures
        i == (i / stride) * stride + i % stride,
        0 <= i % stride < stride,
        i / stride >= 0,
{
    vstd::arithmetic::div_mod::lemma_fundamental_div_mod(i, stride);
    vstd::arithmetic::mul::lemma_mul_is_commutative(stride, i / stride);
    vstd::arithmetic::div_mod::lemma_div_pos_is_pos(i, stride);
}

/// Replaces a region of the mapping by rows of pixels that follow each other without padding.
/// Only call while the producer owns the buffer.
pub fn copy_region(mapping: &mut [u8], bytes: &[u8], stride: usize, region: Rect) -> (copied: Result<
    (),
    MappingError,
>)
    ensures
        copied == if !region_fits(old(mapping)@.len() as int, stride as int, region) {
            Err::<(), MappingError>(MappingError::InvalidRegion)
        } else if bytes@.len() != region_bytes(region) {
            Err(MappingError::InvalidRegionLength)
        } else {
            Ok(())
        },
        final(mapping)@ == if copied is Ok {
            with_region(old(mapping)@, bytes@, stride as int, region)
        } else {
            old(mapping)@
        },
{
    if region.x < 0 || region.y < 0 || region.w < 0 || region.h < 0 {
        return Err(MappingError::InvalidRegion);
    }
    let len: u128 = mapping.len() as u128;
    let columns_end: u128 = 4 * (region.x as u128 + region.w as u128);
    let rows_end: u128 = region.y as u128 + region.h as u128;
    proof {
        let (r, s) = (rows_end as int, stride as int);
        assert(0 <= r * s <= 0xffff_ffff * 0xffff_ffff_ffff_ffff) by (nonlinear_arith)
            requires
                0 <= r <= 0xffff_ffff,
                0 <= s <= 0xffff_ffff_ffff_ffff,
        ;
    }
    if columns_end > stride as u128 || rows_end * stride as u128 > len {
        return Err(MappingError::InvalidRegion);
    }
    let row_len: u128 = region.w as u128 * 4;
    proof {
        let (w, h) = (row_len as int, region.h as int);
        assert(0 <= w * h <= 0x2_0000_0000 * 0x8000_0000) by (nonlinear_arith)
            requires
                0 <= w <= 0x2_0000_0000,
                0 <= h <= 0x8000_0000,
        ;
    }
    if bytes.len() as u128 != row_len * region.h as u128 {
        return Err(MappingError::InvalidRegionLength);
    }
    copy_rows(mapping, bytes, stride, region);
    Ok(())
}

/// Whether the loop that copies rows has passed byte `i`.
spec fn passed(region: Rect, stride: int, row: int, column: int, i: int) -> bool {
    ||| i / stride - region.y < row
    ||| i / stride - region.y == row && i % stride - 4 * region.x < column
}

fn copy_rows(mapping: &mut [u8], bytes: &[u8], stride: usize, region: Rect)
    requires
        region_fits(old(mapping)@.len() as int, stride as int, region),
        bytes@.len() == region_bytes(region),
    ensures
        final(mapping)@ == with_region(old(mapping)@, bytes@, stride as int, region),
{
    let ghost frame = mapping@;
    let ghost full = with_region(frame, bytes@, stride as int, region);
    if region.w == 0 || region.h == 0 {
        assert(mapping@ =~= full);
        return;
    }
    let (x, y, w, h) = (
        region.x as usize,
        region.y as usize,
        region.w as usize,
        region.h as usize,
    );
    assert(4 * (x + w) <= stride);
    let row_len: usize = 4 * w;
    let len: usize = mapping.len();
    let mut row: usize = 0;
    proof {
        assert forall|i: int| 0 <= i < frame.len() && in_region(region, stride as int, i) implies
            !#[trigger] passed(region, stride as int, 0, 0, i) by {}
    }
    while row < h
        invariant
            row <= h,
            x == region.x,
            y == region.y,
            w == region.w,
            h == region.h,
            w > 0,
            row_len == 4 * w,
            4 * (x + w) <= stride,
            region_fits(frame.len() as int, stride as int, region),
            bytes@.len() == region_bytes(region),
            mapping@.len() == frame.len(),
            len == frame.len(),
            full == with_region(frame, bytes@, stride as int, region),
            forall|i: int|
                0 <= i < frame.len() ==> #[trigger] mapping@[i] == if in_region(
                    region,
                    stride as int,
                    i,
                ) && passed(region, stride as int, row as int, 0, i) {
                    full[i]
                } else {
                    frame[i]
                },
        decreases h - row,
    {
        let mut column: usize = 0;
        while column < row_len
            invariant
                row < h,
                column <= row_len,
                x == region.x,
                y == region.y,
                w == region.w,
                h == region.h,
                w > 0,
                row_len == 4 * w,
                4 * (x + w) <= stride,
                region_fits(frame.len() as int, stride as int, region),
                bytes@.len() == region_bytes(region),
                mapping@.len() == frame.len(),
                len == frame.len(),
                full == with_region(frame, bytes@, stride as int, region),
                forall|i: int|
                    0 <= i < frame.len() ==> #[trigger] mapping@[i] == if in_region(
                        region,
                        stride as int,
                        i,
                    ) && passed(region, stride as int, row as int, column as int, i) {
                        full[i]
                    } else {
                        frame[i]
                    },
            decreases row_len - column,
        {
            let ghost target = (y + row) * stride + 4 * x + column;
            let ghost source = row * row_len + column;
            proof {
                assert(bytes.len() == region_bytes(region));
                byte_at(stride as int, y + row, 4 * x + column);
                let (a, b, s) = ((y + row) as int, (y + h) as int, stride as int);
                assert(0 <= a * s && a * s + s <= b * s) by (nonlinear_arith)
                    requires
                        0 <= a < b,
                        s >= 0,
                ;
                let (r, hh, l) = (row as int, h as int, row_len as int);
                assert(0 <= r * l && r * l + l <= hh * l) by (nonlinear_arith)
                    requires
                        0 <= r < hh,
                        l >= 0,
                ;
                assert(hh * l == region_bytes(region)) by (nonlinear_arith)
                    requires
                        hh == region.h,
                        l == 4 * region.w,
                ;
            }
            let at: usize = (y + row) * stride + 4 * x + column;
            let from: usize = row * row_len + column;
            mapping[at] = bytes[from];
            proof {
                assert(region_index(region, stride as int, target) == source);
                assert forall|i: int| 0 <= i < frame.len() implies #[trigger] mapping@[i]
                    == if in_region(region, stride as int, i) && passed(
                    region,
                    stride as int,
                    row as int,
                    column + 1,
                    i,
                ) {
                    full[i]
                } else {
                    frame[i]
                } by {
                    if i != target {
                        row_and_column_determine_byte(stride as int, i);
                        if i / (stride as int) == y + row {
                            assert(i % (stride as int) != 4 * x + column);
                        }
                    }
                }
            }
            column = column + 1;
        }
        row = row + 1;
    }
    assert(mapping@ =~= full);
}

/// The bytes of a region of a frame, row after row without padding.
pub open spec fn region_pixels(frame: Seq<u8>, stride: int, region: Rect) -> Seq<u8> {
    let row_len = 4 * region.w as int;
    Seq::new(
        region_bytes(region) as nat,
        |k: int| frame[(region.y + k / row_len) * stride + 4 * region.x + k % row_len],
    )
}

/// The pixel that byte `i` of a frame belongs to: its column and its row.
pub open spec fn pixel_of(stride: int, i: int) -> (int, int) {
    ((i % stride) / 4, i / stride)
}

/// Every byte of a frame lies in one of its rows and columns.
pub proof fn byte_lies_in_frame(stride: int, rows: int, i: int)
    requires
        stride > 0,
        0 <= i < stride * rows,
    ensures
        0 <= i % stride < stride,
        0 <= i / stride < rows,
{
    row_and_column_determine_byte(stride, i);
    let row = i / stride;
    assert(row < rows) by (nonlinear_arith)
        requires
            row * stride <= i < stride * rows,
            stride > 0,
    ;
}

/// A destination that differs from a frame inside a region only becomes that frame when the region
/// is copied to it.
pub proof fn copying_the_difference_gives_the_frame(
    destination: Seq<u8>,
    frame: Seq<u8>,
    stride: int,
    region: Rect,
)
    requires
        destination.len() == frame.len(),
        region_fits(frame.len() as int, stride, region),
        forall|i: int|
            0 <= i < frame.len() && !in_region(region, stride, i) ==> destination[i]
                == #[trigger] frame[i],
    ensures
        with_region(destination, region_pixels(frame, stride, region), stride, region) == frame,
{
    let pixels = region_pixels(frame, stride, region);
    let updated = with_region(destination, pixels, stride, region);
    assert forall|i: int| 0 <= i < frame.len() implies #[trigger] updated[i] == frame[i] by {
        if in_region(region, stride, i) {
            row_and_column_determine_byte(stride, i);
            let row_len = 4 * region.w as int;
            let (row, column) = (i / stride - region.y, i % stride - 4 * region.x);
            let k = region_index(region, stride, i);
            byte_at(row_len, row, column);
            assert(k == row * row_len + column);
            assert(k < region_bytes(region)) by (nonlinear_arith)
                requires
                    k == row * row_len + column,
                    0 <= row < region.h,
                    0 <= column < row_len,
                    row_len == 4 * region.w as int,
            ;
            assert(0 <= row * row_len) by (nonlinear_arith)
                requires
                    0 <= row,
                    0 <= row_len,
            ;
            assert((region.y + k / row_len) * stride + 4 * region.x + k % row_len == i);
        }
    }
    assert(updated =~= frame);
}

/// What the region of an unchanged frame holds never has to be copied: writing a frame's own
/// pixels back changes nothing.
pub proof fn copying_own_pixels_changes_nothing(frame: Seq<u8>, stride: int, region: Rect)
    requires
        region_fits(frame.len() as int, stride, region),
    ensures
        with_region(frame, region_pixels(frame, stride, region), stride, region) == frame,
{
    copying_the_difference_gives_the_frame(frame, frame, stride, region);
}

/// A region is copied exactly if it lies in the frame and the bytes are those of its pixels. A
/// region that does not lie in the frame is told first, and nothing is written in either case.
pub proof fn only_whole_regions_are_copied(
    mapping: &mut [u8],
    bytes: &[u8],
    stride: usize,
    region: Rect,
    copied: Result<(), MappingError>,
)
    requires
        call_ensures(copy_region, (mapping, bytes, stride, region), copied),
    ensures
        ({
            let inside = region.x >= 0 && region.y >= 0 && region.w >= 0 && region.h >= 0 && 4
                * region.x + 4 * region.w <= stride && (region.y + region.h) * stride <= old(
                mapping,
            )@.len();
            &&& copied == Err::<(), _>(MappingError::InvalidRegion) <==> !inside
            &&& copied == Err::<(), _>(MappingError::InvalidRegionLength) <==> inside && bytes@.len()
                != region.w * 4 * region.h
            &&& copied is Ok <==> inside && bytes@.len() == region.w * 4 * region.h
            &&& copied is Err ==> final(mapping)@ == old(mapping)@
            &&& final(mapping)@.len() == old(mapping)@.len()
        }),
{
}

/// Where the bytes of a pixel of a region lie, in the frame and in the region alone.
pub proof fn pixel_lies_in_its_row(region: Rect, stride: int, row: int, column: int, channel: int)
    requires
        0 <= row < region.h,
        0 <= column < region.w,
        0 <= channel < 4,
        region.x >= 0,
        region.y >= 0,
        4 * (region.x + region.w) <= stride,
    ensures
        ({
            let i = (region.y + row) * stride + 4 * (region.x + column) + channel;
            let k = (row * region.w + column) * 4 + channel;
            let row_len = 4 * region.w as int;
            &&& in_region(region, stride, i)
            &&& region_index(region, stride, i) == k
            &&& 0 <= i < (region.y + region.h) * stride
            &&& 0 <= k < region_bytes(region)
            &&& k / row_len == row
            &&& k % row_len == 4 * column + channel
        }),
{
    let (y, h, w) = (region.y as int, region.h as int, region.w as int);
    let row_len = 4 * w;
    let at = 4 * (region.x + column) + channel;
    let k = (row * w + column) * 4 + channel;
    byte_at(stride, y + row, at);
    byte_at(row_len, row, 4 * column + channel);
    assert(k == row * row_len + 4 * column + channel) by (nonlinear_arith)
        requires
            k == (row * w + column) * 4 + channel,
            row_len == 4 * w,
    ;
    assert(row * row_len + row_len <= w * 4 * h && 0 <= row * row_len) by (nonlinear_arith)
        requires
            0 <= row < h,
            row_len == 4 * w,
            w >= 0,
    ;
    assert((y + row) * stride + stride <= (y + h) * stride && 0 <= (y + row) * stride)
        by (nonlinear_arith)
        requires
            0 <= row < h,
            y >= 0,
            stride >= 0,
    ;
}

/// Every channel of every pixel of a region gets to its place: row after row, and pixel after pixel
/// in each row.
pub proof fn pixels_get_to_their_places(
    mapping: &mut [u8],
    bytes: &[u8],
    stride: usize,
    region: Rect,
    row: int,
    column: int,
    channel: int,
)
    requires
        call_ensures(copy_region, (mapping, bytes, stride, region), Ok(())),
        0 <= row < region.h,
        0 <= column < region.w,
        0 <= channel < 4,
    ensures
        final(mapping)@[(region.y + row) * stride + 4 * (region.x + column) + channel] == bytes@[(row
            * region.w + column) * 4 + channel],
{
    pixel_lies_in_its_row(region, stride as int, row, column, channel);
    assert(region_fits(old(mapping)@.len() as int, stride as int, region));
}

/// Whatever lies outside of the region stays: in other rows, and before or after it in its own
/// rows.
pub proof fn pixels_outside_stay(
    mapping: &mut [u8],
    bytes: &[u8],
    stride: usize,
    region: Rect,
    row: int,
    at: int,
)
    requires
        call_ensures(copy_region, (mapping, bytes, stride, region), Ok(())),
        0 <= row,
        0 <= at < stride,
        row * stride + at < old(mapping)@.len(),
        row < region.y || row >= region.y + region.h || at < 4 * region.x || at >= 4 * region.x + 4
            * region.w,
    ensures
        final(mapping)@[row * stride + at] == old(mapping)@[row * stride + at],
{
    let s = stride as int;
    byte_at(s, row, at);
    assert(0 <= row * s) by (nonlinear_arith)
        requires
            0 <= row,
            0 <= s,
    ;
}

/// The pixels of a region are those of the frame, row after row.
pub proof fn region_has_the_pixels_of_the_frame(
    frame: Seq<u8>,
    stride: int,
    region: Rect,
    row: int,
    column: int,
    channel: int,
)
    requires
        0 <= row < region.h,
        0 <= column < region.w,
        0 <= channel < 4,
        region.x >= 0,
        region.y >= 0,
        4 * (region.x + region.w) <= stride,
    ensures
        region_pixels(frame, stride, region).len() == region.w * 4 * region.h,
        region_pixels(frame, stride, region)[(row * region.w + column) * 4 + channel] == frame[(
        region.y + row) * stride + 4 * (region.x + column) + channel],
{
    pixel_lies_in_its_row(region, stride, row, column, channel);
}

/// A pixel's four bytes follow each other, and so do the pixels of a row and the rows of a frame.
pub proof fn bytes_belong_to_their_pixel(stride: int, row: int, column: int, channel: int)
    requires
        0 <= row,
        0 <= column,
        0 <= channel < 4,
        4 * column + 4 <= stride,
    ensures
        pixel_of(stride, row * stride + 4 * column + channel) == (column, row),
{
    byte_at(stride, row, 4 * column + channel);
}

/// A whole frame replaces the mapping if it is as long, and nothing else does. A cleared mapping is
/// as long as before, with all bytes zero. Mappings have at least one byte.
pub proof fn whole_frames_replace_the_mapping(
    mapping: &mut [u8],
    bytes: &[u8],
    copied: Result<(), MappingError>,
    cleared: &mut [u8],
    len: usize,
    checked: Result<(), MappingError>,
    i: int,
)
    requires
        call_ensures(copy_frame, (mapping, bytes), copied),
        call_ensures(clear, (cleared,), ()),
        call_ensures(check_mapping_len, (len,), checked),
    ensures
        copied is Ok <==> bytes@.len() == old(mapping)@.len(),
        copied is Ok ==> final(mapping)@ == bytes@,
        copied is Err ==> copied == Err::<(), _>(MappingError::InvalidFrameLength),
        copied is Err ==> final(mapping)@ == old(mapping)@,
        final(cleared)@.len() == old(cleared)@.len(),
        0 <= i < old(cleared)@.len() ==> final(cleared)@[i] == 0,
        checked is Ok <==> 0 < len <= isize::MAX,
        checked is Err ==> checked == Err::<(), _>(MappingError::InvalidLength),
{
}

} // verus!
