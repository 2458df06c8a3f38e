//! Partial copies keep destinations equal to the rendered frames.

use crate::geometry::{FrameSize, Rect, Size};
use crate::render_helpers::readback_damage::History;
use crate::screencasting::shm_buffer::ShmReadback;
use crate::screencasting::shm_layout::{ShmLayout, ShmLayoutError};
use vstd::prelude::*;

verus! {

/// The number of bytes in a row of a frame.
pub open spec fn stride_of(size: Size) -> int {
    4 * size.w
}

/// Whether `contents` are the frames of a history: each has one byte per channel and pixel, and
/// differs from the frame before it inside its damage only.
pub open spec fn shows(history: History, contents: Seq<Seq<u8>>, size: Size) -> bool {
    &&& contents.len() == history.frames.len()
    &&& forall|k: int|
        0 <= k < contents.len() ==> (#[trigger] contents[k]).len() == stride_of(size) * size.h
    &&& forall|k: int, i: int|
        #![trigger contents[k][i]]
        0 < k < contents.len() && 0 <= i < contents[k].len() && contents[k][i] != contents[k
            - 1][i] ==> damages_byte(history.frames[k].bounds, size, i)
}

/// Whether damage includes the pixel that byte `i` belongs to.
pub open spec fn damages_byte(bounds: Option<Rect>, size: Size, i: int) -> bool {
    match bounds {
        None => false,
        Some(rect) => {
            let (px, py) = crate::screencasting::shm_mapping::pixel_of(stride_of(size), i);
            rect.has_pixel(px, py)
        },
    }
}

/// A byte that no frame after number `from` damaged is the same in all of them.
proof fn undamaged_byte_stays(
    history: History,
    contents: Seq<Seq<u8>>,
    size: Size,
    from: int,
    to: int,
    i: int,
)
    requires
        shows(history, contents, size),
        0 <= from <= to < contents.len(),
        0 <= i < stride_of(size) * size.h,
        forall|k: int|
            from < k <= to ==> !damages_byte((#[trigger] history.frames[k]).bounds, size, i),
    ensures
        contents[from][i] == contents[to][i],
    decreases to - from,
{
    if from < to {
        undamaged_byte_stays(history, contents, size, from, to - 1, i);
        assert(contents[to][i] == contents[to - 1][i]) by {
            assert(!damages_byte(history.frames[to].bounds, size, i));
        }
    }
}

/// A destination that holds a remembered frame shows the newest frame after the region that the
/// history names is copied to it. If the history names none, it shows the newest frame already.
pub proof fn destination_catches_up(
    history: History,
    contents: Seq<Seq<u8>>,
    size: Size,
    held: int,
)
    requires
        history.wf(),
        0 < size.w < i32::MAX,
        0 < size.h < i32::MAX,
        shows(history, contents, size),
        0 <= held < history.frames.len(),
    ensures
        match crate::render_helpers::readback_damage::region_since(
            history.frames,
            Some(history.frames[held].stamp),
            size,
        ) {
            None => contents[held] == contents.last(),
            Some(region) => crate::screencasting::shm_mapping::region_fits(
                contents.last().len() as int,
                stride_of(size),
                region,
            ) && crate::screencasting::shm_mapping::with_region(
                contents[held],
                crate::screencasting::shm_mapping::region_pixels(
                    contents.last(),
                    stride_of(size),
                    region,
                ),
                stride_of(size),
                region,
            ) == contents.last(),
        },
{
    let stride = stride_of(size);
    let frames = history.frames;
    let newest = frames.len() - 1;
    let missing = frames.skip(held + 1);
    let region = crate::render_helpers::readback_damage::region_of(missing, size);
    crate::render_helpers::readback_damage::remembered_frame_needs_later_changes(
        history,
        held,
        size,
    );
    crate::render_helpers::readback_damage::region_stays_in_frame(missing, size);
    crate::render_helpers::readback_damage::changed_is_an_area(missing);
    assert(contents[held].len() == contents[newest].len());
    assert forall|i: int|
        0 <= i < contents.last().len() && (region is Some
            ==> !crate::screencasting::shm_mapping::in_region(
            region->0,
            stride,
            i,
        )) implies contents[held][i] == #[trigger] contents.last()[i] by {
        let (px, py) = crate::screencasting::shm_mapping::pixel_of(stride, i);
        crate::screencasting::shm_mapping::byte_lies_in_frame(stride, size.h as int, i);
        assert forall|k: int| held < k <= newest implies !damages_byte(
            (#[trigger] frames[k]).bounds,
            size,
            i,
        ) by {
            if damages_byte(frames[k].bounds, size, i) {
                assert(missing[k - held - 1] == frames[k]);
                crate::render_helpers::readback_damage::region_covers_missing_changes(
                    missing,
                    size,
                    k - held - 1,
                    px,
                    py,
                );
                assert(crate::screencasting::shm_mapping::in_region(region->0, stride, i));
            }
        }
        undamaged_byte_stays(history, contents, size, held, newest, i);
    }
    match region {
        None => {
            assert(contents[held] =~= contents.last());
        },
        Some(region) => {
            let (rows, h) = (region.y + region.h, size.h as int);
            assert(rows * stride <= stride * h) by (nonlinear_arith)
                requires
                    rows <= h,
                    stride >= 0,
            ;
            crate::screencasting::shm_mapping::copying_the_difference_gives_the_frame(
                contents[held],
                contents.last(),
                stride,
                region,
            );
        },
    }
}

/// A destination that holds anything else shows the newest frame after the whole frame is copied.
pub proof fn full_copy_gives_the_frame(destination: Seq<u8>, frame: Seq<u8>, size: Size)
    requires
        size.w > 0,
        size.h > 0,
        destination.len() == frame.len(),
        frame.len() == stride_of(size) * size.h,
    ensures
        crate::screencasting::shm_mapping::with_region(
            destination,
            crate::screencasting::shm_mapping::region_pixels(
                frame,
                stride_of(size),
                Rect::at_origin(size),
            ),
            stride_of(size),
            Rect::at_origin(size),
        ) == frame,
{
    let stride = stride_of(size);
    let region = Rect::at_origin(size);
    let h = size.h as int;
    assert(h * stride <= stride * h) by (nonlinear_arith);
    assert forall|i: int|
        0 <= i < frame.len() && !crate::screencasting::shm_mapping::in_region(
            region,
            stride,
            i,
        ) implies destination[i] == #[trigger] frame[i] by {
        crate::screencasting::shm_mapping::byte_lies_in_frame(stride, h, i);
    }
    crate::screencasting::shm_mapping::copying_the_difference_gives_the_frame(
        destination,
        frame,
        stride,
        region,
    );
}

/// A buffer shows the newest frame once its readback is complete: if the region was read that the
/// history names for the buffer's stamp, and also if the whole frame was read instead.
///
/// The buffer's stamp, if it has one and the history remembers it, is that of the frame in its
/// memory.
pub proof fn completed_readback_shows_the_frame(
    history: History,
    contents: Seq<Seq<u8>>,
    size: Size,
    previous: Option<int>,
    memory: Seq<u8>,
    pending: ShmReadback,
    raw: Seq<u8>,
)
    requires
        history.wf(),
        history.frames.len() > 0,
        shows(history, contents, size),
        size.w >= 0 && size.h >= 0,
        ShmLayout::of(FrameSize { w: size.w as u32, h: size.h as u32 }) == Ok::<
            ShmLayout,
            ShmLayoutError,
        >(pending.layout),
        memory.len() == pending.layout.size,
        forall|k: int|
            0 <= k < history.frames.len() && previous == Some(
                (#[trigger] history.frames[k]).stamp,
            ) ==> memory == contents[k],
        pending.region == crate::render_helpers::readback_damage::region_since(
            history.frames,
            previous,
            size,
        ) || pending.region == Some(Rect::at_origin(size)),
        pending.region matches Some(region) ==> pending.mapping.frame_bytes(raw)
            == crate::screencasting::shm_mapping::region_pixels(
            contents.last(),
            stride_of(size),
            region,
        ),
    ensures
        pending.copy_error(raw, memory.len() as int) is None,
        pending.copied(raw, memory) == contents.last(),
{
    let stride = stride_of(size);
    let (w, h) = (size.w as int, size.h as int);
    assert(w * 4 * h == stride * h) by (nonlinear_arith)
        requires
            stride == 4 * w,
    ;
    assert(w < i32::MAX && h < i32::MAX) by {
        assert(w * 4 * h >= 4 * w && w * 4 * h >= 4 * h) by (nonlinear_arith)
            requires
                w >= 1,
                h >= 1,
        ;
    }
    assert(contents.last().len() == memory.len());
    crate::screencasting::shm_layout::row_fits_in_frame(
        FrameSize { w: size.w as u32, h: size.h as u32 },
    );
    assert(pending.layout.stride as usize as int == stride);
    if pending.region == Some(Rect::at_origin(size)) {
        full_copy_gives_the_frame(memory, contents.last(), size);
        assert(h * stride <= stride * h) by (nonlinear_arith);
    } else {
        let stamp = previous->0;
        let held = crate::render_helpers::readback_damage::position(history.frames, stamp)->0;
        assert(crate::render_helpers::readback_damage::first_at(history.frames, stamp, held));
        assert(history.frames[held].stamp == stamp);
        destination_catches_up(history, contents, size, held);
    }
    if pending.region is Some {
        let (a, b) = (pending.region->0.w as int, pending.region->0.h as int);
        assert(a * 4 * b >= 0) by (nonlinear_arith)
            requires
                a >= 0,
                b >= 0,
        ;
    }
}

/// The memory of a buffer, and the stamp that it carries.
pub struct Destination {
    pub memory: Seq<u8>,
    pub stamp: Option<int>,
}

/// A frame on its way into a buffer, where the source holds `raw`, and what the buffer is to show.
pub struct Promise {
    pub buffer: int,
    pub readback: ShmReadback,
    pub raw: Seq<u8>,
    pub frame: Seq<u8>,
}

impl Promise {
    /// The buffer once the promise is kept.
    pub open spec fn kept(self) -> Destination {
        Destination { memory: self.frame, stamp: Some(self.readback.stamp.identity()) }
    }
}

/// The frames that are remembered, with their pixels, the buffers that they are copied to, and the
/// copies that are not complete yet.
pub struct Capture {
    pub history: History,
    pub contents: Seq<Seq<u8>>,
    pub buffers: Seq<Destination>,
    pub promises: Seq<Promise>,
}

impl Capture {
    /// Whether a stamped buffer holds the frame of its stamp, as long as that is remembered.
    pub open spec fn tracks(self, buffer: Destination) -> bool {
        &&& buffer.stamp matches Some(stamp) ==> self.history.newest matches Some(newest) && stamp
            <= newest
        &&& forall|k: int|
            0 <= k < self.history.frames.len() && buffer.stamp == Some(
                (#[trigger] self.history.frames[k]).stamp,
            ) ==> buffer.memory == self.contents[k]
    }

    /// Whether the copy succeeds, shows what was promised, and leaves a buffer that is tracked.
    pub open spec fn keeps(self, promise: Promise) -> bool {
        let memory = self.buffers[promise.buffer].memory;
        &&& 0 <= promise.buffer < self.buffers.len()
        &&& promise.readback.copy_error(promise.raw, memory.len() as int) is None
        &&& promise.readback.copied(promise.raw, memory) == promise.frame
        &&& self.tracks(promise.kept())
    }

    /// Whether no frame is on its way into a buffer.
    pub open spec fn is_free(self, b: int) -> bool {
        forall|p: int| 0 <= p < self.promises.len() ==> (#[trigger] self.promises[p]).buffer != b
    }

    /// Whether the remembered frames are what was rendered, all buffers are tracked, and all
    /// promises are kept, which are made to different buffers.
    pub open spec fn wf(self, size: Size) -> bool {
        &&& self.history.wf()
        &&& shows(self.history, self.contents, size)
        &&& forall|b: int|
            0 <= b < self.buffers.len() ==> self.tracks(#[trigger] self.buffers[b])
        &&& forall|p: int|
            0 <= p < self.promises.len() ==> self.keeps(#[trigger] self.promises[p])
        &&& forall|p: int, q: int|
            0 <= p < q < self.promises.len() ==> (#[trigger] self.promises[p]).buffer != (
            #[trigger] self.promises[q]).buffer
    }

    /// Whether `after` has one more frame, which differs from the one before inside its damage
    /// only.
    pub open spec fn renders(
        self,
        size: Size,
        bounds: Option<Rect>,
        frame: Seq<u8>,
        after: Capture,
    ) -> bool {
        &&& self.history.recorded(bounds, after.history)
        &&& after.history.wf()
        &&& after.contents == self.with_frame(frame)
        &&& after.buffers == self.buffers
        &&& after.promises == self.promises
        &&& frame.len() == stride_of(size) * size.h
        &&& forall|i: int|
            0 <= i < frame.len() && self.contents.len() > 0 && #[trigger] frame[i]
                != self.contents.last()[i] ==> damages_byte(bounds, size, i)
    }

    /// The remembered frames' pixels with one more frame.
    pub open spec fn with_frame(self, frame: Seq<u8>) -> Seq<Seq<u8>> {
        if self.history.frames.len() < crate::render_helpers::readback_damage::HISTORY_LEN {
            self.contents.push(frame)
        } else {
            self.contents.drop_first().push(frame)
        }
    }

    /// No frame is remembered any more.
    pub open spec fn forgets(self) -> Capture {
        Capture {
            history: History { frames: Seq::empty(), ..self.history },
            contents: Seq::empty(),
            ..self
        }
    }

    /// There is one more buffer, which holds no frame.
    pub open spec fn adds(self, memory: Seq<u8>) -> Capture {
        Capture { buffers: self.buffers.push(Destination { memory, stamp: None }), ..self }
    }

    /// A buffer holds something that is not a frame.
    pub open spec fn clears(self, b: int, memory: Seq<u8>) -> Capture {
        Capture { buffers: self.buffers.update(b, Destination { memory, stamp: None }), ..self }
    }

    /// A frame is on its way into a buffer.
    pub open spec fn promising(self, promise: Promise) -> Capture {
        Capture { promises: self.promises.push(promise), ..self }
    }

    /// The frame on its way into a buffer has got there.
    pub open spec fn completes(self, p: int) -> Capture {
        let promise = self.promises[p];
        Capture {
            buffers: self.buffers.update(
                promise.buffer,
                Destination {
                    memory: promise.readback.copied(
                        promise.raw,
                        self.buffers[promise.buffer].memory,
                    ),
                    stamp: Some(promise.readback.stamp.identity()),
                },
            ),
            promises: self.promises.remove(p),
            ..self
        }
    }

    /// The frame on its way into a buffer does not get there. The buffer keeps what it holds.
    pub open spec fn drops(self, p: int) -> Capture {
        Capture { promises: self.promises.remove(p), ..self }
    }

    /// Whether a readback is one of the newest frame for a buffer: of the region that the buffer
    /// needs, or of the whole frame.
    pub open spec fn is_readback_for(
        self,
        size: Size,
        b: int,
        pending: ShmReadback,
        raw: Seq<u8>,
    ) -> bool {
        &&& self.history.frames.len() > 0
        &&& ShmLayout::of(FrameSize { w: size.w as u32, h: size.h as u32 }) == Ok::<
            ShmLayout,
            ShmLayoutError,
        >(pending.layout)
        &&& self.buffers[b].memory.len() == pending.layout.size
        &&& pending.stamp.identity() == self.history.frames.last().stamp
        &&& pending.region == crate::render_helpers::readback_damage::region_since(
            self.history.frames,
            self.buffers[b].stamp,
            size,
        ) || pending.region == Some(Rect::at_origin(size))
        &&& pending.region matches Some(region) ==> pending.mapping.frame_bytes(raw)
            == crate::screencasting::shm_mapping::region_pixels(
            self.contents.last(),
            stride_of(size),
            region,
        )
    }
}

/// A frame that is rendered leaves what is tracked tracked.
proof fn rendering_tracks(
    before: Capture,
    size: Size,
    bounds: Option<Rect>,
    frame: Seq<u8>,
    after: Capture,
    buffer: Destination,
)
    requires
        before.wf(size),
        before.renders(size, bounds, frame, after),
        before.tracks(buffer),
    ensures
        after.tracks(buffer),
{
    let frames = after.history.frames;
    let kept = frames.drop_last();
    let shift = if before.history.frames.len()
        < crate::render_helpers::readback_damage::HISTORY_LEN {
        0int
    } else {
        1int
    };
    assert forall|k: int|
        0 <= k < frames.len() && buffer.stamp == Some(
            (#[trigger] frames[k]).stamp,
        ) implies buffer.memory == after.contents[k] by {
        if k < frames.len() - 1 {
            assert(kept[k] == frames[k]);
            assert(frames[k] == before.history.frames[k + shift]);
        }
    }
}

/// Rendering a frame keeps track of all buffers and keeps all promises.
pub proof fn rendering_keeps_track(
    before: Capture,
    size: Size,
    bounds: Option<Rect>,
    frame: Seq<u8>,
    after: Capture,
)
    requires
        before.wf(size),
        before.renders(size, bounds, frame, after),
    ensures
        after.wf(size),
        after.contents.last() == frame,
{
    let full = before.history.frames.len() >= crate::render_helpers::readback_damage::HISTORY_LEN;
    let shift = if full {
        1int
    } else {
        0int
    };
    let frames = after.history.frames;
    let kept = frames.drop_last();
    assert(frames.len() == kept.len() + 1);
    assert forall|k: int| 0 <= k < frames.len() - 1 implies #[trigger] frames[k]
        == before.history.frames[k + shift] && after.contents[k] == before.contents[k + shift] by {
        assert(kept[k] == frames[k]);
    }
    assert forall|k: int, i: int|
        #![trigger after.contents[k][i]]
        0 < k < after.contents.len() && 0 <= i < after.contents[k].len() && after.contents[k][i]
            != after.contents[k - 1][i] implies damages_byte(frames[k].bounds, size, i) by {
        assert(frames[k - 1] == before.history.frames[k - 1 + shift]);
        if k < frames.len() - 1 {
            assert(frames[k] == before.history.frames[k + shift]);
            assert(before.contents[k + shift][i] != before.contents[k + shift - 1][i]);
        } else {
            assert(after.contents[k] == frame);
            assert(after.contents[k - 1] == before.contents.last());
        }
    }
    assert forall|k: int| 0 <= k < after.contents.len() implies (
    #[trigger] after.contents[k]).len() == stride_of(size) * size.h by {
        if k < frames.len() - 1 {
            assert(frames[k] == before.history.frames[k + shift]);
        }
    }
    assert forall|b: int| 0 <= b < after.buffers.len() implies after.tracks(
        #[trigger] after.buffers[b],
    ) by {
        rendering_tracks(before, size, bounds, frame, after, before.buffers[b]);
    }
    assert forall|p: int| 0 <= p < after.promises.len() implies after.keeps(
        #[trigger] after.promises[p],
    ) by {
        assert(before.keeps(before.promises[p]));
        rendering_tracks(before, size, bounds, frame, after, before.promises[p].kept());
    }
}

/// Forgetting all frames keeps track of all buffers and keeps all promises, also if the frames
/// that follow have another size.
pub proof fn forgetting_keeps_track(capture: Capture, size: Size, next: Size)
    requires
        capture.wf(size),
    ensures
        capture.forgets().wf(next),
{
    assert forall|b: int| 0 <= b < capture.buffers.len() implies capture.forgets().tracks(
        #[trigger] capture.forgets().buffers[b],
    ) by {
        assert(capture.tracks(capture.buffers[b]));
    }
    assert forall|p: int| 0 <= p < capture.promises.len() implies capture.forgets().keeps(
        #[trigger] capture.forgets().promises[p],
    ) by {
        assert(capture.keeps(capture.promises[p]));
    }
}

/// A new buffer is tracked.
pub proof fn adding_keeps_track(capture: Capture, size: Size, memory: Seq<u8>)
    requires
        capture.wf(size),
    ensures
        capture.adds(memory).wf(size),
{
    let after = capture.adds(memory);
    assert forall|b: int| 0 <= b < after.buffers.len() implies after.tracks(
        #[trigger] after.buffers[b],
    ) by {
        if b < capture.buffers.len() {
            assert(capture.tracks(capture.buffers[b]));
        }
    }
    assert forall|p: int| 0 <= p < after.promises.len() implies after.keeps(
        #[trigger] after.promises[p],
    ) by {
        assert(capture.keeps(capture.promises[p]));
    }
}

/// Clearing a buffer keeps track of all buffers and keeps all promises.
pub proof fn clearing_keeps_track(capture: Capture, size: Size, b: int, memory: Seq<u8>)
    requires
        capture.wf(size),
        0 <= b < capture.buffers.len(),
        capture.is_free(b),
    ensures
        capture.clears(b, memory).wf(size),
{
    let after = capture.clears(b, memory);
    assert forall|c: int| 0 <= c < after.buffers.len() implies after.tracks(
        #[trigger] after.buffers[c],
    ) by {
        assert(capture.tracks(capture.buffers[c]));
    }
    assert forall|p: int| 0 <= p < after.promises.len() implies after.keeps(
        #[trigger] after.promises[p],
    ) by {
        assert(capture.keeps(capture.promises[p]));
    }
}

/// A readback of the newest frame for a buffer promises that frame, and that promise is kept,
/// whatever was rendered, forgotten, cleared and copied before.
pub proof fn readback_promises_the_newest_frame(
    capture: Capture,
    size: Size,
    promise: Promise,
)
    requires
        capture.wf(size),
        size.w >= 0 && size.h >= 0,
        0 <= promise.buffer < capture.buffers.len(),
        capture.is_free(promise.buffer),
        capture.is_readback_for(size, promise.buffer, promise.readback, promise.raw),
        promise.frame == capture.contents.last(),
    ensures
        capture.promising(promise).wf(size),
{
    let buffer = capture.buffers[promise.buffer];
    assert(capture.tracks(buffer));
    completed_readback_shows_the_frame(
        capture.history,
        capture.contents,
        size,
        buffer.stamp,
        buffer.memory,
        promise.readback,
        promise.raw,
    );
    let frames = capture.history.frames;
    let after = capture.promising(promise);
    assert forall|k: int|
        0 <= k < frames.len() && promise.kept().stamp == Some(
            (#[trigger] frames[k]).stamp,
        ) implies promise.frame == capture.contents[k] by {
        assert(k == frames.len() - 1);
    }
    assert(capture.tracks(promise.kept()));
    assert forall|b: int| 0 <= b < after.buffers.len() implies after.tracks(
        #[trigger] after.buffers[b],
    ) by {
        assert(capture.tracks(capture.buffers[b]));
    }
    assert forall|p: int| 0 <= p < after.promises.len() implies after.keeps(
        #[trigger] after.promises[p],
    ) by {
        if p < capture.promises.len() {
            assert(capture.keeps(capture.promises[p]));
        }
    }
}

/// A buffer shows the frame that was promised to it once the copy is complete, whatever was
/// rendered, forgotten, cleared and copied since the promise, and all buffers stay tracked.
pub proof fn completed_buffer_shows_the_promised_frame(capture: Capture, size: Size, p: int)
    requires
        capture.wf(size),
        0 <= p < capture.promises.len(),
    ensures
        ({
            let promise = capture.promises[p];
            let memory = capture.buffers[promise.buffer].memory;
            &&& promise.readback.copy_error(promise.raw, memory.len() as int) is None
            &&& capture.completes(p).buffers[promise.buffer] == promise.kept()
            &&& capture.completes(p).wf(size)
        }),
{
    let promise = capture.promises[p];
    let after = capture.completes(p);
    assert(capture.keeps(promise));
    assert forall|b: int| 0 <= b < after.buffers.len() implies after.tracks(
        #[trigger] after.buffers[b],
    ) by {
        assert(capture.tracks(capture.buffers[b]));
        assert(capture.tracks(promise.kept()));
    }
    assert forall|q: int| 0 <= q < after.promises.len() implies after.keeps(
        #[trigger] after.promises[q],
    ) by {
        let r = if q < p {
            q
        } else {
            q + 1
        };
        assert(after.promises[q] == capture.promises[r]);
        assert(capture.keeps(capture.promises[r]));
        if r < p {
            assert(capture.promises[r].buffer != capture.promises[p].buffer);
        } else {
            assert(capture.promises[p].buffer != capture.promises[r].buffer);
        }
    }
    removing_keeps_promises_apart(capture, size, p);
}

proof fn removing_keeps_promises_apart(capture: Capture, size: Size, p: int)
    requires
        capture.wf(size),
        0 <= p < capture.promises.len(),
    ensures
        ({
            let promises = capture.promises.remove(p);
            forall|q: int, r: int|
                0 <= q < r < promises.len() ==> (#[trigger] promises[q]).buffer != (
                #[trigger] promises[r]).buffer
        }),
{
    let promises = capture.promises.remove(p);
    assert forall|q: int, r: int| 0 <= q < r < promises.len() implies (
    #[trigger] promises[q]).buffer != (#[trigger] promises[r]).buffer by {
        let q2 = if q < p {
            q
        } else {
            q + 1
        };
        let r2 = if r < p {
            r
        } else {
            r + 1
        };
        assert(promises[q] == capture.promises[q2] && promises[r] == capture.promises[r2]);
    }
}

/// A frame that does not get into its buffer leaves the buffer as it was, with its stamp, and
/// tracked.
pub proof fn dropped_frame_leaves_the_buffer(capture: Capture, size: Size, p: int)
    requires
        capture.wf(size),
        0 <= p < capture.promises.len(),
    ensures
        capture.drops(p).buffers == capture.buffers,
        capture.drops(p).wf(size),
{
    let after = capture.drops(p);
    assert forall|b: int| 0 <= b < after.buffers.len() implies after.tracks(
        #[trigger] after.buffers[b],
    ) by {
        assert(capture.tracks(capture.buffers[b]));
    }
    assert forall|q: int| 0 <= q < after.promises.len() implies after.keeps(
        #[trigger] after.promises[q],
    ) by {
        let r = if q < p {
            q
        } else {
            q + 1
        };
        assert(after.promises[q] == capture.promises[r]);
        assert(capture.keeps(capture.promises[r]));
    }
    removing_keeps_promises_apart(capture, size, p);
}

} // verus!
