//! The pooled buffer that pixels are read back through.
//!
//! Each rendering context has one buffer, which holds one frame. A readback that finds the buffer
//! in use, or the driver unable, goes another way.

use crate::drm::Fourcc;
use crate::geometry::{Rect, Size};
use crate::render_helpers::pixel_order::PixelOrder;
use crate::render_helpers::transfer::{Transfer, TransferError};
use std::borrow::Cow;
use vstd::prelude::*;

verus! {

/// A rendering context: the renderer's own identity, and that of the command stream it uses.
/// Renderers that share objects have the same `renderer` but not the same `stream`.
#[derive(Clone, Copy, Debug, PartialEq, Eq, Structural)]
pub struct GlContext {
    pub renderer: u64,
    pub stream: u64,
}

/// One bounded, context-owned buffer; callers with another context use the fallback.
#[derive(Clone, Copy, Debug, PartialEq, Eq, Structural)]
pub struct Slot {
    pub context: GlContext,
    /// The driver's name of the buffer, or zero if there is none yet.
    pub buffer: u32,
    /// The size of the buffer's storage, or zero if it is unknown.
    pub capacity: usize,
    pub busy: bool,
    pub disabled: bool,
}

/// Where the bytes of a frame are.
#[derive(Clone, Copy, Debug, PartialEq, Eq, Structural)]
pub enum Readback {
    /// Nowhere: there is nothing to copy.
    Unchanged,
    /// In a mapping of the renderer's, in the order of the frame.
    Smithay,
    /// In a mapping of the renderer's, with red first.
    SmithayRgba,
    /// In the pooled buffer.
    Pooled(PooledReadback),
}

/// Bytes that wait in the pooled buffer, which is busy until they are released.
#[derive(Clone, Copy, Debug, PartialEq, Eq, Structural)]
pub struct PooledReadback {
    pub len: usize,
    pub order: PixelOrder,
}

/// Why pixels cannot be read back at all.
#[derive(Clone, Copy, Debug, PartialEq, Eq, Structural)]
pub enum ReadbackError {
    EmptyReadback,
    InvalidRegion,
    SizeOverflow,
    SizeUnaddressable,
    CapacityOverflow,
    CapacityUnaddressable,
    /// The driver cannot be reached: the context could not be made current.
    ContextUnavailable,
}

/// The bytes of an area, at four per pixel.
pub open spec fn area_bytes(w: i32, h: i32) -> int {
    w * h * 4
}

/// What is wrong with reading a region of a frame.
pub open spec fn readback_error(size: Size, format: Fourcc, region: Rect) -> Option<ReadbackError> {
    if size.w <= 0 || size.h <= 0 {
        Some(ReadbackError::EmptyReadback)
    } else if region.w <= 0 || region.h <= 0 || !Rect::at_origin(size).encloses(region) {
        Some(ReadbackError::InvalidRegion)
    } else if !format.is_bgra() {
        None
    } else if area_bytes(region.w, region.h) > usize::MAX {
        Some(ReadbackError::SizeOverflow)
    } else if area_bytes(region.w, region.h) > isize::MAX {
        Some(ReadbackError::SizeUnaddressable)
    } else if area_bytes(size.w, size.h) > usize::MAX {
        Some(ReadbackError::CapacityOverflow)
    } else if area_bytes(size.w, size.h) > isize::MAX {
        Some(ReadbackError::CapacityUnaddressable)
    } else {
        None
    }
}

fn area_len(w: i32, h: i32) -> (len: Option<usize>)
    requires
        0 < w,
        0 < h,
    ensures
        len is None <==> area_bytes(w, h) > usize::MAX,
        len matches Some(len) ==> len == area_bytes(w, h),
{
    proof {
        let (a, b) = (w as int, h as int);
        assert(0 < a * b) by (nonlinear_arith)
            requires
                0 < a,
                0 < b,
        ;
    }
    match (w as usize).checked_mul(h as usize) {
        Some(pixels) => pixels.checked_mul(4),
        None => None,
    }
}

impl Slot {
    /// The slot that a context starts with.
    pub open spec fn fresh(context: GlContext) -> Slot {
        Slot { context, buffer: 0, capacity: 0, busy: false, disabled: false }
    }

    /// Whether a caller with the given context may use the slot now.
    pub open spec fn admits(self, context: GlContext) -> bool {
        !self.busy && !self.disabled && self.context == context
    }

    /// The slot that a context starts with.
    pub fn new(context: GlContext) -> (slot: Slot)
        ensures
            slot == Slot::fresh(context),
    {
        Slot { context, buffer: 0, capacity: 0, busy: false, disabled: false }
    }

    /// The slot after a transfer that has read the pixels or not.
    pub open spec fn finished(self, transfer: Transfer, read: bool) -> Slot {
        if read {
            Slot { capacity: transfer.capacity, busy: true, ..self }
        } else {
            Slot { capacity: 0, ..self }
        }
    }

    /// Takes note of how a transfer ended. If it did not succeed, the storage is not relied on
    /// again.
    pub fn finish(
        &mut self,
        transfer: &Transfer,
        len: usize,
        outcome: Result<Option<PixelOrder>, TransferError>,
    ) -> (readback: Option<Readback>)
        ensures
            *final(self) == old(self).finished(*transfer, outcome matches Ok(Some(_))),
            readback == match outcome {
                Ok(Some(order)) => Some(Readback::Pooled(PooledReadback { len, order })),
                _ => None,
            },
    {
        match outcome {
            Ok(Some(order)) => {
                self.capacity = transfer.capacity;
                self.busy = true;
                Some(Readback::Pooled(PooledReadback { len, order }))
            },
            _ => {
                self.capacity = 0;
                None
            },
        }
    }

    /// Gives the buffer back. Later reads follow in the same command stream, so this is also how
    /// a readback is cancelled.
    pub fn release(&mut self)
        ensures
            *final(self) == (Slot { busy: false, ..*old(self) }),
    {
        self.busy = false;
    }
}

/// A transfer to carry out, and the number of bytes that it yields.
#[derive(Clone, Copy, Debug)]
pub struct PlannedReadback {
    pub transfer: Transfer,
    pub len: usize,
}

/// How to read a whole frame through the pooled buffer; see `try_readback_region`.
pub fn try_readback(slot: Option<&Slot>, context: GlContext, size: Size, format: Fourcc) -> (plan:
    Result<Option<PlannedReadback>, ReadbackError>)
    ensures
        plan == planned(slot, context, size, format, Rect::at_origin(size)),
{
    try_readback_region(slot, context, size, format, Rect::from_size(size))
}

/// What `try_readback_region` returns.
pub open spec fn planned(
    slot: Option<&Slot>,
    context: GlContext,
    size: Size,
    format: Fourcc,
    region: Rect,
) -> Result<Option<PlannedReadback>, ReadbackError> {
    match readback_error(size, format, region) {
        Some(error) => Err(error),
        None => if format.is_bgra() && slot is Some && slot->0.admits(context) {
            Ok(
                Some(
                    PlannedReadback {
                        transfer: Transfer::starting(region, area_bytes(size.w, size.h) as usize),
                        len: area_bytes(region.w, region.h) as usize,
                    },
                ),
            )
        } else {
            Ok(None)
        },
    }
}

/// How to read a region of a frame through the pooled buffer. There is no way if the frame does
/// not have blue bytes first, or the slot is busy, disabled or of another context.
pub fn try_readback_region(
    slot: Option<&Slot>,
    context: GlContext,
    size: Size,
    format: Fourcc,
    region: Rect,
) -> (plan: Result<Option<PlannedReadback>, ReadbackError>)
    ensures
        plan == planned(slot, context, size, format, region),
{
    if size.w <= 0 || size.h <= 0 {
        return Err(ReadbackError::EmptyReadback);
    }
    if region.w <= 0 || region.h <= 0 || !Rect::from_size(size).contains_rect(region) {
        return Err(ReadbackError::InvalidRegion);
    }
    if !format.has_bgra_bytes() {
        return Ok(None);
    }
    let len: usize = match area_len(region.w, region.h) {
        Some(len) => len,
        None => {
            return Err(ReadbackError::SizeOverflow);
        },
    };
    if len > isize::MAX as usize {
        return Err(ReadbackError::SizeUnaddressable);
    }
    // Keep one frame of storage, so changing damage sizes never reallocates it.
    let capacity: usize = match area_len(size.w, size.h) {
        Some(capacity) => capacity,
        None => {
            return Err(ReadbackError::CapacityOverflow);
        },
    };
    if capacity > isize::MAX as usize {
        return Err(ReadbackError::CapacityUnaddressable);
    }
    match slot {
        Some(slot) => if slot.busy || slot.disabled || slot.context != context {
            Ok(None)
        } else {
            Ok(Some(PlannedReadback { transfer: Transfer::new(region, capacity), len }))
        },
        None => Ok(None),
    }
}

impl Readback {
    /// The bytes that the frame has, in its own order, where the source holds `raw`.
    pub open spec fn frame_bytes(self, raw: Seq<u8>) -> Seq<u8> {
        match self {
            Readback::Unchanged => Seq::empty(),
            Readback::Smithay => raw,
            Readback::SmithayRgba => PixelOrder::Rgba.to_bgra(raw),
            Readback::Pooled(pending) => pending.order.to_bgra(raw),
        }
    }

    /// The frame's bytes, in its own order, where the source holds `raw`.
    pub fn bytes<'a>(&self, raw: &'a [u8]) -> (bytes: Cow<'a, [u8]>)
        ensures
            bytes@ == self.frame_bytes(raw@),
    {
        let order = match self {
            Readback::Unchanged => {
                let nothing: Vec<u8> = Vec::new();
                assert(nothing@ =~= self.frame_bytes(raw@));
                return Cow::Owned(nothing);
            },
            Readback::Smithay => PixelOrder::Bgra,
            Readback::SmithayRgba => PixelOrder::Rgba,
            Readback::Pooled(pending) => pending.order,
        };
        order.bgra(raw)
    }

    /// Hands the frame's bytes to `copy`, where the source holds `raw`.
    pub fn with_bytes<T, F: FnOnce(&[u8]) -> T>(&self, raw: &[u8], copy: F) -> (result: T)
        requires
            forall|bytes: &[u8]|
                bytes@ == self.frame_bytes(raw@) ==> #[trigger] call_requires(copy, (bytes,)),
        ensures
            exists|bytes: &[u8]|
                bytes@ == self.frame_bytes(raw@) && #[trigger] call_ensures(
                    copy,
                    (bytes,),
                    result,
                ),
    {
        match self.bytes(raw) {
            Cow::Borrowed(bytes) => copy(bytes),
            Cow::Owned(bytes) => copy(bytes.as_slice()),
        }
    }
}

/// From when a readback is handed out until it is released, the slot is handed to nobody else, so
/// pixels that wait in the buffer are not overwritten.
pub proof fn pending_pixels_are_not_overwritten(
    slot: Slot,
    transfer: Transfer,
    context: GlContext,
    size: Size,
    format: Fourcc,
    region: Rect,
)
    ensures
        !(planned(Some(&slot.finished(transfer, true)), context, size, format, region) matches Ok(
            Some(_),
        )),
{
}

/// Once a readback is released, or cancelled, the next one of the same context uses the same
/// buffer. If the frame has the same size, its storage is not made anew.
pub proof fn released_buffer_is_used_again(
    slot: Slot,
    transfer: Transfer,
    size: Size,
    format: Fourcc,
    region: Rect,
)
    requires
        !slot.disabled,
        format.is_bgra(),
        readback_error(size, format, region) is None,
    ensures
        ({
            let released = Slot { busy: false, ..slot.finished(transfer, true) };
            &&& released.buffer == slot.buffer
            &&& planned(Some(&released), slot.context, size, format, region) matches Ok(Some(_))
            &&& transfer.capacity == area_bytes(size.w, size.h) ==> released.capacity
                == area_bytes(size.w, size.h)
        }),
{
}

/// A caller whose command stream is not the slot's is turned away, also if both share objects.
pub proof fn other_command_streams_are_turned_away(
    slot: Slot,
    context: GlContext,
    size: Size,
    format: Fourcc,
    region: Rect,
)
    requires
        slot.context.stream != context.stream,
    ensures
        !(planned(Some(&slot), context, size, format, region) matches Ok(Some(_))),
{
}

/// A region that is read yields at most as many bytes as the frame's storage holds.
pub proof fn region_fits_in_storage(
    slot: Option<&Slot>,
    context: GlContext,
    size: Size,
    format: Fourcc,
    region: Rect,
)
    ensures
        planned(slot, context, size, format, region) matches Ok(Some(plan)) ==> plan.len
            <= plan.transfer.capacity,
{
    if planned(slot, context, size, format, region) matches Ok(Some(_)) {
        let (a, b, c, d) = (region.w as int, region.h as int, size.w as int, size.h as int);
        assert(a * b <= c * d) by (nonlinear_arith)
            requires
                0 < a <= c,
                0 < b <= d,
        ;
    }
}

/// The storage holds a whole frame, so changing damage never makes it anew: with the storage of an
/// earlier readback of the same size, the buffer is only bound.
pub proof fn changing_damage_keeps_the_storage(
    slot: Slot,
    size: Size,
    format: Fourcc,
    earlier: Rect,
    region: Rect,
)
    ensures
        planned(Some(&slot), slot.context, size, format, earlier) matches Ok(Some(first))
            ==> planned(
            Some(&Slot { busy: false, ..slot.finished(first.transfer, true) }),
            slot.context,
            size,
            format,
            region,
        ) matches Ok(Some(second)) ==> second.transfer.binds(
            Slot { busy: false, ..slot.finished(first.transfer, true) },
        ).1 == crate::render_helpers::transfer::Step::Ask(
            crate::render_helpers::transfer::Request::Bind { buffer: slot.buffer, allocate: None },
        ),
{
}

/// What is wrong with a region is told before what is wrong with the bytes. A region is one of the
/// frame if it has pixels and none of them lies outside.
pub proof fn only_regions_of_frames_are_read(
    slot: Option<&Slot>,
    context: GlContext,
    size: Size,
    format: Fourcc,
    region: Rect,
    plan: Result<Option<PlannedReadback>, ReadbackError>,
)
    requires
        call_ensures(try_readback_region, (slot, context, size, format, region), plan),
    ensures
        ({
            let empty = size.w <= 0 || size.h <= 0;
            let inside = region.w > 0 && region.h > 0 && region.x >= 0 && region.y >= 0 && (region.x
                + region.w <= size.w || size.w == i32::MAX) && (region.y + region.h <= size.h
                || size.h == i32::MAX);
            &&& plan == Err::<Option<PlannedReadback>, _>(ReadbackError::EmptyReadback) <==> empty
            &&& plan == Err::<Option<PlannedReadback>, _>(ReadbackError::InvalidRegion) <==> !empty
                && !inside
            &&& !empty && inside && !(format is Argb8888) && !(format is Xrgb8888) ==> plan == Ok::<
                _,
                ReadbackError,
            >(None::<PlannedReadback>)
        }),
{
}

/// A region with blue first is read through a slot that is free, usable and of the same context: as
/// many bytes as the region has, into storage for the whole frame. Without such a slot there is no
/// way but no error either.
pub proof fn regions_are_read_through_free_slots(
    slot: Option<&Slot>,
    context: GlContext,
    size: Size,
    format: Fourcc,
    region: Rect,
    plan: Result<Option<PlannedReadback>, ReadbackError>,
)
    requires
        call_ensures(try_readback_region, (slot, context, size, format, region), plan),
        region.w > 0 && region.h > 0 && region.x >= 0 && region.y >= 0,
        region.x + region.w <= size.w && region.y + region.h <= size.h,
        format is Argb8888 || format is Xrgb8888,
    ensures
        ({
            let (bytes, capacity) = (region.w * region.h * 4, size.w * size.h * 4);
            let free = slot matches Some(slot) && !slot.busy && !slot.disabled
                && slot.context.renderer == context.renderer && slot.context.stream
                == context.stream;
            &&& bytes > usize::MAX <==> plan == Err::<Option<PlannedReadback>, _>(
                ReadbackError::SizeOverflow,
            )
            &&& isize::MAX < bytes <= usize::MAX <==> plan == Err::<Option<PlannedReadback>, _>(
                ReadbackError::SizeUnaddressable,
            )
            &&& bytes <= isize::MAX && capacity > usize::MAX <==> plan == Err::<
                Option<PlannedReadback>,
                _,
            >(ReadbackError::CapacityOverflow)
            &&& bytes <= isize::MAX && isize::MAX < capacity <= usize::MAX <==> plan == Err::<
                Option<PlannedReadback>,
                _,
            >(ReadbackError::CapacityUnaddressable)
            &&& bytes <= isize::MAX && capacity <= isize::MAX ==> {
                &&& plan is Ok
                &&& plan->Ok_0 is Some <==> free
                &&& plan->Ok_0 matches Some(plan) ==> {
                    &&& plan.len == bytes
                    &&& plan.transfer.capacity == capacity
                    &&& plan.transfer.region == region
                }
            }
        }),
{
    let (a, b, c, d) = (region.w as int, region.h as int, size.w as int, size.h as int);
    assert(0 < a * b <= c * d) by (nonlinear_arith)
        requires
            0 < a <= c,
            0 < b <= d,
    ;
}

/// A whole frame is read like the region that it is.
pub proof fn whole_frames_are_regions(
    slot: Option<&Slot>,
    context: GlContext,
    size: Size,
    format: Fourcc,
    whole: Result<Option<PlannedReadback>, ReadbackError>,
    region: Result<Option<PlannedReadback>, ReadbackError>,
)
    requires
        call_ensures(try_readback, (slot, context, size, format), whole),
        call_ensures(
            try_readback_region,
            (slot, context, size, format, Rect { x: 0, y: 0, w: size.w, h: size.h }),
            region,
        ),
    ensures
        whole == region,
{
}

/// A slot starts free, usable and without a buffer. A transfer that has read the pixels keeps it
/// busy and remembers the storage. Any other one leaves it free, and the storage is not relied on.
pub proof fn slots_are_busy_while_pixels_wait(
    slot: &mut Slot,
    transfer: &Transfer,
    len: usize,
    outcome: Result<Option<PixelOrder>, TransferError>,
    readback: Option<Readback>,
)
    requires
        call_ensures(Slot::finish, (slot, transfer, len, outcome), readback),
    ensures
        outcome matches Ok(Some(order)) ==> {
            &&& *final(slot) == (Slot { capacity: transfer.capacity, busy: true, ..*old(slot) })
            &&& readback == Some(Readback::Pooled(PooledReadback { len, order }))
        },
        !(outcome matches Ok(Some(_))) ==> {
            &&& *final(slot) == (Slot { capacity: 0, ..*old(slot) })
            &&& readback is None
        },
{
}

/// A new slot has nothing but its context, and a slot that is given back is free and otherwise the
/// same.
pub proof fn slots_are_free_at_first_and_after_release(
    context: GlContext,
    fresh: Slot,
    slot: &mut Slot,
)
    requires
        call_ensures(Slot::new, (context,), fresh),
        call_ensures(Slot::release, (slot,), ()),
    ensures
        fresh == (Slot { context, buffer: 0, capacity: 0, busy: false, disabled: false }),
        final(slot).context == old(slot).context,
        final(slot).buffer == old(slot).buffer,
        final(slot).capacity == old(slot).capacity,
        final(slot).disabled == old(slot).disabled,
        !final(slot).busy,
{
}

/// The frame's bytes are those of the source, unless red is first there: then the first and the
/// third byte of every pixel are exchanged. Of an unchanged frame there are none.
pub proof fn frames_have_the_bytes_of_the_source(
    readback: &Readback,
    raw: &[u8],
    bytes: Cow<'_, [u8]>,
    p: int,
)
    requires
        call_ensures(Readback::bytes, (readback, raw), bytes),
    ensures
        readback is Unchanged ==> bytes@.len() == 0,
        !(readback is Unchanged) ==> bytes@.len() == raw@.len(),
        readback is Smithay || (*readback matches Readback::Pooled(pending) && pending.order is Bgra)
            ==> bytes@ == raw@,
        (readback is SmithayRgba || (*readback matches Readback::Pooled(pending) && pending.order
            is Rgba)) && 0 <= 4 * p && 4 * p + 3 < raw@.len() ==> {
            &&& bytes@[4 * p] == raw@[4 * p + 2]
            &&& bytes@[4 * p + 1] == raw@[4 * p + 1]
            &&& bytes@[4 * p + 2] == raw@[4 * p]
            &&& bytes@[4 * p + 3] == raw@[4 * p + 3]
        },
{
    if 0 <= 4 * p && 4 * p + 3 < raw@.len() {
        crate::render_helpers::pixel_order::every_pixel_is_reordered(raw@, p);
    }
}

/// Whoever copies a frame is handed its bytes: those of the source, or none of an unchanged frame,
/// or with the first and the third byte of every pixel exchanged where red is first.
pub proof fn frames_are_handed_out_in_their_order<T, F: FnOnce(&[u8]) -> T>(
    readback: &Readback,
    raw: &[u8],
    copy: F,
    result: T,
)
    requires
        call_ensures(Readback::with_bytes::<T, F>, (readback, raw, copy), result),
    ensures
        exists|bytes: &[u8]|
            {
                &&& readback is Unchanged ==> bytes@.len() == 0
                &&& readback is Smithay ==> bytes@ == raw@
                &&& readback is SmithayRgba ==> bytes@.len() == raw@.len() && forall|p: int|
                    0 <= 4 * p && 4 * p + 3 < raw@.len() ==> #[trigger] bytes@[4 * p] == raw@[4 * p
                        + 2]
                &&& #[trigger] call_ensures(copy, (bytes,), result)
            },
{
    let bytes = choose|bytes: &[u8]|
        bytes@ == readback.frame_bytes(raw@) && #[trigger] call_ensures(copy, (bytes,), result);
    assert(call_ensures(copy, (bytes,), result));
    assert forall|p: int|
        readback is SmithayRgba && 0 <= 4 * p && 4 * p + 3
            < raw@.len() implies #[trigger] bytes@[4 * p] == raw@[4 * p + 2] by {
        crate::render_helpers::pixel_order::every_pixel_is_reordered(raw@, p);
    }
}

} // verus!
