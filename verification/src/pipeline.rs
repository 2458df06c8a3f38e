//! From scenes to buffers: whatever is rendered, read, copied and cleared, and whatever fails on the
//! way, a frame that is read whole is what rendering its scene from scratch gives, and so is what a
//! buffer shows once its frame has got there.
//!
//! The renderer is known by what is asked of it and by what it answers. Of a damage tracker this is
//! relied on: if the texture shows what the tracker drew last, or the tracker has drawn nothing yet,
//! then the texture shows the next scene after it is drawn, in the geometry that the tracker was made
//! for, and, unless it is turned, differs from before inside the reported damage only.
//!
//! Bytes that turn out to have been invalid after they were copied end the cast, and with it the use
//! of its buffers.

use crate::drm::Fourcc;
use crate::geometry::{FrameSize, Rect, Size};
use crate::incremental::{Capture, Promise};
use crate::render_helpers::staging::{
    Purpose, ReadbackFrame, Staged, StagedRead, Staging, StagingPhase, StagingReadback,
    StagingReply, StagingRequest, StagingStep, Transform,
};
use crate::screencasting::shm_buffer::{ShmCopy, ShmReadback};
use crate::screencasting::shm_layout::ShmLayout;
use vstd::prelude::*;

verus! {

/// How a scene is laid out in a frame, and the format of the frame. Scales are told apart by
/// number.
pub struct Geometry {
    pub size: Size,
    pub scale: int,
    pub transform: Transform,
    pub fourcc: Fourcc,
}

/// A damage tracker: the geometry that it was made for, and what it drew last.
pub struct Tracker {
    pub geometry: Geometry,
    pub drawn: Option<Seq<u8>>,
}

/// A frame that is being read: how its scene is to be laid out, the scene, and the buffer that it
/// is read for, if it is for one.
pub struct Reading {
    pub read: StagedRead,
    pub geometry: Geometry,
    pub scene: int,
    pub buffer: int,
}

/// The staging texture with its pixels, in the order of the frame, the renderer's damage tracker,
/// and the buffers.
pub struct Pipeline {
    pub staging: Staging,
    pub texture: Seq<u8>,
    pub tracker: Option<Tracker>,
    pub capture: Capture,
    pub reading: Option<Reading>,
}

/// What happens.
pub enum Event {
    /// A scene begins to be rendered.
    Begun {
        frame: ReadbackFrame,
        scale: int,
        scene: int,
        buffer: int,
        read: StagedRead,
        request: StagingRequest,
    },
    /// The renderer has replied. Where it has read pixels, the source holds `raw`.
    Replied {
        reply: StagingReply,
        raw: Seq<u8>,
        read: StagedRead,
        step: StagingStep,
        fd: i64,
        renderer: u64,
    },
    /// There is one more buffer.
    Allocated { memory: Seq<u8> },
    /// A buffer is cleared.
    Cleared { buffer: int, memory: Seq<u8> },
    /// A frame has got into its buffer.
    Completed { promise: int },
    /// A frame on its way into its buffer is given up.
    Dropped { promise: int },
}

/// What rendering a scene from scratch gives.
pub type Draw = spec_fn(Geometry, int) -> Seq<u8>;

/// Whether every picture has four bytes per pixel.
pub open spec fn fills_frames(draw: Draw) -> bool {
    forall|geometry: Geometry, scene: int|
        geometry.size.w >= 0 && geometry.size.h >= 0 ==> (#[trigger] draw(geometry, scene)).len()
            == crate::incremental::stride_of(geometry.size) * geometry.size.h
}

/// Whether damage lies inside a frame.
pub open spec fn damage_in_frame(damage: Seq<Rect>, size: Size) -> bool {
    forall|d: int|
        0 <= d < damage.len() ==> {
            &&& (#[trigger] damage[d]).valid()
            &&& Rect::at_origin(size).encloses(damage[d])
        }
}

/// Whether damage includes the pixel that byte `i` belongs to.
pub open spec fn damage_has_byte(damage: Seq<Rect>, size: Size, i: int) -> bool {
    exists|d: int|
        0 <= d < damage.len() && crate::incremental::damages_byte(
            Some(#[trigger] damage[d]),
            size,
            i,
        )
}

/// The bytes of a texture, which has four per pixel, in the given format. If blue is first in the
/// texture and red in the format, then the first byte of every pixel is the third one of the
/// texture's pixel, the third byte is the first one, and the others are the same.
pub open spec fn in_format(texture: Seq<u8>, fourcc: Fourcc, format: Fourcc) -> Seq<u8> {
    if (fourcc == Fourcc::Argb8888 || fourcc == Fourcc::Xrgb8888) && format == Fourcc::Abgr8888 {
        Seq::new(
            texture.len(),
            |i: int|
                texture[if i % 4 == 0 {
                    i + 2
                } else if i % 4 == 2 {
                    i - 2
                } else {
                    i
                }],
        )
    } else {
        texture
    }
}

/// Whole pixels that are converted from the format and back are the same.
pub proof fn converting_back_restores(texture: Seq<u8>, fourcc: Fourcc, format: Fourcc)
    requires
        texture.len() % 4 == 0,
    ensures
        in_format(texture, fourcc, format).len() == texture.len(),
        in_format(in_format(texture, fourcc, format), fourcc, format) == texture,
        fourcc.is_bgra() && format == Fourcc::Abgr8888
            ==> crate::render_helpers::pixel_order::PixelOrder::Rgba.to_bgra(
            in_format(texture, fourcc, format),
        ) == texture,
{
    let converted = in_format(texture, fourcc, format);
    assert(in_format(converted, fourcc, format) =~= texture);
    if fourcc.is_bgra() && format == Fourcc::Abgr8888 {
        let back = crate::render_helpers::pixel_order::PixelOrder::Rgba.to_bgra(converted);
        assert forall|i: int| 0 <= i < texture.len() implies #[trigger] back[i] == texture[i] by {
            crate::render_helpers::pixel_order::every_pixel_is_reordered(converted, i / 4);
        }
        assert(back =~= texture);
    }
}

impl Reading {
    /// The format in which the texture is downloaded.
    pub open spec fn format(self) -> Fourcc {
        if self.read.purpose is Download {
            self.read.frame.fourcc
        } else {
            crate::render_helpers::staging::storage_format(self.read.frame.fourcc)
        }
    }

    /// The frame that was read, on its way into its buffer.
    pub open spec fn promise(
        self,
        draw: Draw,
        raw: Seq<u8>,
        readback: StagingReadback,
        fd: i64,
        renderer: u64,
    ) -> Promise {
        let size = self.read.frame.size;
        Promise {
            buffer: self.buffer,
            readback: ShmReadback {
                mapping: readback.mapping,
                fd,
                layout: ShmLayout::of(FrameSize { w: size.w as u32, h: size.h as u32 })->Ok_0,
                renderer,
                stamp: readback.stamp,
                region: readback.region,
            },
            raw,
            frame: draw(self.geometry, self.scene),
        }
    }

    /// Whether the frame is laid out as it is to be.
    pub open spec fn is_laid_out(self) -> bool {
        &&& self.geometry.size == self.read.frame.size
        &&& self.geometry.transform == self.read.frame.transform
        &&& self.geometry.fourcc == self.read.frame.fourcc
    }
}

impl Pipeline {
    /// Nothing has happened yet.
    pub open spec fn is_starting(self) -> bool {
        &&& self.staging.is_new()
        &&& self.tracker is None
        &&& self.reading is None
        &&& self.capture == (Capture {
            history: self.staging.history,
            contents: Seq::empty(),
            buffers: Seq::empty(),
            promises: Seq::empty(),
        })
    }

    /// The damage tracker once the renderer was asked for something.
    pub open spec fn asked(self, request: StagingRequest, scale: int, fourcc: Fourcc) -> Option<
        Tracker,
    > {
        match request {
            StagingRequest::Render { new_tracker: true, size, transform } => Some(
                Tracker { geometry: Geometry { size, scale, transform, fourcc }, drawn: None },
            ),
            _ => self.tracker,
        }
    }

    /// Whether a frame can be read for the buffer: it is free, and made for frames of that size.
    pub open spec fn has_room(self, buffer: int, size: Size) -> bool {
        &&& 0 <= buffer < self.capture.buffers.len()
        &&& self.capture.is_free(buffer)
        &&& ShmLayout::of(FrameSize { w: size.w as u32, h: size.h as u32 }) matches Ok(layout)
        &&& self.capture.buffers[buffer].memory.len() == layout.size
    }

    /// Whether a scene begins to be rendered.
    pub open spec fn begins(self, event: Event, after: Pipeline) -> bool {
        &&& event matches Event::Begun { frame, scale, scene, buffer, read, request }
        &&& self.reading is None
        &&& frame.valid()
        &&& frame.same_scale ==> self.tracker is Some && self.tracker->0.geometry.scale == scale
        &&& crate::render_helpers::staging::begins(
            self.staging,
            frame,
            read.purpose,
            read,
            after.staging,
            request,
        )
        &&& read.wf()
        &&& read.purpose matches Purpose::Incremental(previous) ==> {
            &&& self.has_room(buffer, frame.size)
            &&& crate::render_helpers::staging::stamp_identity(previous)
                == self.capture.buffers[buffer].stamp
        }
        &&& after.texture == self.texture
        &&& after.tracker == self.asked(request, scale, frame.fourcc)
        &&& after.capture == if after.staging.history.frames.len() == 0 {
            self.capture.forgets()
        } else {
            self.capture
        }
        &&& after.reading == Some(
            Reading {
                read,
                geometry: Geometry {
                    size: frame.size,
                    scale,
                    transform: frame.transform,
                    fourcc: frame.fourcc,
                },
                scene,
                buffer,
            },
        )
    }

    /// Whether the renderer has drawn the scene.
    pub open spec fn draws(
        self,
        draw: Draw,
        reading: Reading,
        damage: Seq<Rect>,
        after: Pipeline,
    ) -> bool {
        &&& self.tracker matches Some(tracker)
        &&& after.tracker matches Some(drawn)
        &&& ({
            let picture = draw(tracker.geometry, reading.scene);
            &&& drawn.geometry == tracker.geometry
            &&& drawn.drawn == Some(picture)
            &&& tracker.geometry.transform is Normal ==> damage_in_frame(
                damage,
                tracker.geometry.size,
            )
            &&& tracker.drawn is None || tracker.drawn == Some(self.texture) ==> after.texture
                == picture
            &&& tracker.drawn == Some(self.texture) && tracker.geometry.transform is Normal
                ==> forall|i: int|
                0 <= i < picture.len() && #[trigger] picture[i] != self.texture[i]
                    ==> damage_has_byte(damage, tracker.geometry.size, i)
        })
    }

    /// What is remembered once the renderer has replied.
    pub open spec fn remembers(
        self,
        reading: Reading,
        reply: StagingReply,
        after: Pipeline,
    ) -> Capture {
        match (reading.read.phase, reply) {
            (StagingPhase::Creating, StagingReply::Created(true)) => self.capture.forgets(),
            (StagingPhase::Rendering, StagingReply::Rendered(_)) => Capture {
                history: after.staging.history,
                contents: self.capture.with_frame(after.texture),
                ..self.capture
            },
            (StagingPhase::Rendering, StagingReply::NotRendered) => self.capture.forgets(),
            _ => self.capture,
        }
    }

    /// Whether the renderer carried out what it replied to.
    pub open spec fn carries_out(
        self,
        draw: Draw,
        reading: Reading,
        reply: StagingReply,
        raw: Seq<u8>,
        step: StagingStep,
        after: Pipeline,
    ) -> bool {
        match (reading.read.phase, reply) {
            (StagingPhase::Creating, StagingReply::Created(true)) => {
                // The new texture may show anything.
                after.tracker == match step {
                    StagingStep::Ask(request) => self.asked(
                        request,
                        reading.geometry.scale,
                        reading.read.frame.fourcc,
                    ),
                    _ => self.tracker,
                }
            },
            (StagingPhase::Rendering, StagingReply::Rendered(damage)) => self.draws(
                draw,
                reading,
                damage@,
                after,
            ),
            (StagingPhase::Rendering, StagingReply::NotRendered) => {
                // The texture may show anything.
                after.tracker is None
            },
            _ => {
                &&& after.texture == self.texture
                &&& after.tracker == self.tracker
                &&& match (reading.read.phase, reply) {
                    (
                        StagingPhase::Reading { region },
                        StagingReply::ReadBack(Ok(Some(pooled))),
                    ) => pooled.order.to_bgra(raw)
                        == crate::screencasting::shm_mapping::region_pixels(
                        self.texture,
                        crate::incremental::stride_of(reading.read.frame.size),
                        region,
                    ),
                    (StagingPhase::Downloading, StagingReply::Downloaded(true)) => raw
                        == in_format(self.texture, reading.read.frame.fourcc, reading.format()),
                    _ => true,
                }
            },
        }
    }

    /// Whether the renderer has replied.
    pub open spec fn goes_on(self, draw: Draw, event: Event, after: Pipeline) -> bool {
        &&& event matches Event::Replied { reply, raw, read, step, fd, renderer }
        &&& self.reading matches Some(reading)
        &&& reading.read.awaits(reply)
        &&& reading.read.leads_to(self.staging, reply, read, after.staging, step)
        &&& read.wf()
        &&& after.staging.wf()
        &&& self.carries_out(draw, reading, reply, raw, step, after)
        &&& ({
            let remembered = self.remembers(reading, reply, after);
            match step {
                StagingStep::Ask(_) => {
                    &&& after.capture == remembered
                    &&& after.reading == Some(Reading { read, ..reading })
                },
                StagingStep::Finished(outcome) => {
                    &&& after.reading is None
                    &&& after.capture == match outcome {
                        Ok(Staged::Incremental(readback)) => remembered.promising(
                            reading.promise(draw, raw, readback, fd, renderer),
                        ),
                        _ => remembered,
                    }
                },
            }
        })
    }

    /// Whether `after` is what an event makes of this.
    pub open spec fn becomes(self, draw: Draw, event: Event, after: Pipeline) -> bool {
        match event {
            Event::Begun { .. } => self.begins(event, after),
            Event::Replied { .. } => self.goes_on(draw, event, after),
            Event::Allocated { memory } => {
                &&& self.reading is None
                &&& after == (Pipeline { capture: self.capture.adds(memory), ..self })
            },
            Event::Cleared { buffer, memory } => {
                &&& self.reading is None
                &&& 0 <= buffer < self.capture.buffers.len()
                &&& self.capture.is_free(buffer)
                &&& after == (Pipeline { capture: self.capture.clears(buffer, memory), ..self })
            },
            Event::Completed { promise } => {
                &&& self.reading is None
                &&& 0 <= promise < self.capture.promises.len()
                &&& after == (Pipeline { capture: self.capture.completes(promise), ..self })
            },
            Event::Dropped { promise } => {
                &&& self.reading is None
                &&& 0 <= promise < self.capture.promises.len()
                &&& after == (Pipeline { capture: self.capture.drops(promise), ..self })
            },
        }
    }

    /// The size of the frames that the texture shows.
    pub open spec fn size(self) -> Size {
        match self.staging.key {
            Some(key) => key.size,
            None => Size { w: 0, h: 0 },
        }
    }

    /// Whether the damage tracker, as long as it is used, was made for the texture, and the texture
    /// shows what it drew last.
    pub open spec fn tracker_fits(self) -> bool {
        &&& self.staging.tracker matches Some(transform) ==> {
            &&& self.staging.key is Some
            &&& self.tracker matches Some(tracker)
            &&& tracker.geometry.transform == transform
            &&& tracker.geometry.size == self.size()
            &&& tracker.geometry.fourcc == self.staging.key->0.format
            &&& match tracker.drawn {
                None => self.capture.contents.len() == 0,
                Some(drawn) => {
                    &&& self.texture == drawn
                    &&& self.capture.contents.len() > 0
                    &&& self.capture.contents.last() == drawn
                },
            }
        }
        &&& self.staging.tracker is None ==> self.capture.contents.len() == 0
    }

    /// Whether a frame that is being read is the one that was asked for.
    pub open spec fn reads_the_scene(self, draw: Draw, reading: Reading) -> bool {
        let read = reading.read;
        &&& read.wf()
        &&& reading.is_laid_out()
        &&& !(read.phase is Finished)
        &&& !(read.phase is Creating) ==> self.staging.fits(read.frame)
        &&& read.phase is Rendering ==> {
            &&& self.staging.tracker == Some(read.frame.transform)
            &&& self.tracker matches Some(tracker) && tracker.geometry == reading.geometry
        }
        &&& read.phase is Reading || read.phase is Downloading ==> {
            &&& self.texture == draw(reading.geometry, reading.scene)
            &&& self.capture.contents.len() > 0
            &&& self.capture.contents.last() == self.texture
            &&& read.reads_what_is_needed(self.staging)
        }
        &&& read.purpose is Readback && read.phase is Reading ==> read.phase
            == StagingPhase::Reading { region: read.frame.bounds() }
        &&& read.purpose matches Purpose::Incremental(previous) ==> {
            &&& self.has_room(reading.buffer, read.frame.size)
            &&& crate::render_helpers::staging::stamp_identity(previous)
                == self.capture.buffers[reading.buffer].stamp
            &&& read.phase is Reading && !(read.frame.transform is Normal) ==> read.phase
                == StagingPhase::Reading { region: read.frame.bounds() }
        }
    }

    /// What holds at all times.
    pub open spec fn wf(self, draw: Draw) -> bool {
        &&& self.staging.wf()
        &&& self.capture.history == self.staging.history
        &&& self.size().w >= 0 && self.size().h >= 0
        &&& self.capture.wf(self.size())
        &&& self.tracker_fits()
        &&& self.reading matches Some(reading) ==> self.reads_the_scene(draw, reading)
    }
}

/// A rectangle of which the bounds are made lies in the bounds.
proof fn bounding_encloses_each(damage: Seq<Rect>, size: Size, d: int)
    requires
        damage_in_frame(damage, size),
        0 <= d < damage.len(),
    ensures
        crate::render_helpers::readback_damage::bounding(damage) matches Some(bounds)
            && bounds.x >= 0 && bounds.y >= 0 && bounds.encloses(damage[d]),
    decreases damage.len(),
{
    let earlier = damage.drop_last();
    assert(damage_in_frame(earlier, size)) by {
        assert forall|e: int| 0 <= e < earlier.len() implies (#[trigger] earlier[e]).valid()
            && Rect::at_origin(size).encloses(earlier[e]) by {
            assert(earlier[e] == damage[e]);
        }
    }
    assert(damage[damage.len() - 1] == damage.last());
    if earlier.len() > 0 {
        let e = if d < earlier.len() {
            d
        } else {
            0
        };
        bounding_encloses_each(earlier, size, e);
        crate::geometry::union_encloses_both(
            crate::render_helpers::readback_damage::bounding(earlier)->0,
            damage.last(),
        );
    } else {
        assert(crate::render_helpers::readback_damage::bounding(earlier) is None);
    }
}

/// The recorded bounds include every byte that the damage includes.
proof fn bounds_include_damage(damage: Seq<Rect>, size: Size, i: int)
    requires
        0 < size.w,
        0 < size.h,
        damage_in_frame(damage, size),
        0 <= i < crate::incremental::stride_of(size) * size.h,
        damage_has_byte(damage, size, i),
    ensures
        crate::incremental::damages_byte(
            crate::render_helpers::readback_damage::bounding(damage),
            size,
            i,
        ),
{
    let d = choose|d: int|
        0 <= d < damage.len() && crate::incremental::damages_byte(
            Some(#[trigger] damage[d]),
            size,
            i,
        );
    let stride = crate::incremental::stride_of(size);
    let (px, py) = crate::screencasting::shm_mapping::pixel_of(stride, i);
    crate::screencasting::shm_mapping::byte_lies_in_frame(stride, size.h as int, i);
    bounding_encloses_each(damage, size, d);
    crate::geometry::enclosing_keeps_pixels(
        crate::render_helpers::readback_damage::bounding(damage)->0,
        damage[d],
        px,
        py,
    );
}

/// The whole frame includes every byte.
proof fn frame_includes_byte(size: Size, i: int)
    requires
        size.w >= 0,
        size.h >= 0,
        0 <= i < crate::incremental::stride_of(size) * size.h,
    ensures
        crate::incremental::damages_byte(Some(Rect::at_origin(size)), size, i),
        0 < size.w,
        0 < size.h,
{
    let (stride, h) = (crate::incremental::stride_of(size), size.h as int);
    assert(stride > 0 && h > 0) by (nonlinear_arith)
        requires
            stride >= 0,
            h >= 0,
            stride * h > 0,
    ;
    crate::screencasting::shm_mapping::byte_lies_in_frame(stride, h, i);
}

/// The pixels of the whole frame are the frame.
proof fn whole_region_is_the_frame(frame: Seq<u8>, size: Size)
    requires
        size.w >= 0,
        size.h >= 0,
        frame.len() == crate::incremental::stride_of(size) * size.h,
    ensures
        crate::screencasting::shm_mapping::region_pixels(
            frame,
            crate::incremental::stride_of(size),
            Rect::at_origin(size),
        ) == frame,
{
    let stride = crate::incremental::stride_of(size);
    let (w, h) = (size.w as int, size.h as int);
    assert(w * 4 * h == stride * h) by (nonlinear_arith)
        requires
            stride == 4 * w,
    ;
    let pixels = crate::screencasting::shm_mapping::region_pixels(
        frame,
        stride,
        Rect::at_origin(size),
    );
    assert forall|k: int| 0 <= k < frame.len() implies #[trigger] pixels[k] == frame[k] by {
        frame_includes_byte(size, k);
        assert((k / stride) * stride + k % stride == k) by (nonlinear_arith)
            requires
                stride > 0,
        ;
    }
    assert(pixels =~= frame);
}

/// A scene that is drawn is remembered as what it looks like from scratch.
proof fn drawing_keeps_all_in_order(
    before: Pipeline,
    draw: Draw,
    reading: Reading,
    damage: Seq<Rect>,
    after: Pipeline,
)
    requires
        fills_frames(draw),
        before.wf(draw),
        before.reading == Some(reading),
        reading.read.phase is Rendering,
        before.staging.rendered(reading.read.frame, damage, after.staging),
        before.draws(draw, reading, damage, after),
    ensures
        after.texture == draw(reading.geometry, reading.scene),
        ({
            let remembered = Capture {
                history: after.staging.history,
                contents: before.capture.with_frame(after.texture),
                ..before.capture
            };
            &&& remembered.wf(before.size())
            &&& remembered.contents.len() > 0
            &&& remembered.contents.last() == after.texture
        }),
{
    let frame = reading.read.frame;
    let size = frame.size;
    let tracker = before.tracker->0;
    let picture = draw(reading.geometry, reading.scene);
    let bounds = frame.changes(damage);
    let remembered = Capture {
        history: after.staging.history,
        contents: before.capture.with_frame(picture),
        ..before.capture
    };
    assert(before.size() == size);
    assert forall|i: int|
        0 <= i < picture.len() && before.capture.contents.len() > 0 && #[trigger] picture[i]
            != before.capture.contents.last()[i] implies crate::incremental::damages_byte(
        bounds,
        size,
        i,
    ) by {
        frame_includes_byte(size, i);
        if frame.transform is Normal {
            assert(picture[i] != before.texture[i]);
            bounds_include_damage(damage, size, i);
        }
    }
    assert(before.capture.renders(size, bounds, picture, remembered));
    crate::incremental::rendering_keeps_track(before.capture, size, bounds, picture, remembered);
}

/// Beginning to render a scene keeps everything in order.
proof fn beginning_keeps_all_in_order(before: Pipeline, draw: Draw, event: Event, after: Pipeline)
    requires
        before.wf(draw),
        before.begins(event, after),
    ensures
        after.wf(draw),
{
    let frames = before.staging.history.frames;
    crate::incremental::forgetting_keeps_track(before.capture, before.size(), before.size());
    if frames.len() == 0 {
        assert(frames =~= Seq::empty());
        assert(before.capture.contents =~= Seq::empty());
    }
}

/// What was read of a texture that shows the scene is the scene.
proof fn source_holds_the_scene(
    before: Pipeline,
    draw: Draw,
    reading: Reading,
    reply: StagingReply,
    raw: Seq<u8>,
    step: StagingStep,
    after: Pipeline,
)
    requires
        before.wf(draw),
        before.reading == Some(reading),
        reading.read.awaits(reply),
        before.carries_out(draw, reading, reply, raw, step, after),
    ensures
        reading.read.phase matches StagingPhase::Reading { region } ==> reply matches
            StagingReply::ReadBack(Ok(Some(pooled))) ==> pooled.order.to_bgra(raw)
            == crate::screencasting::shm_mapping::region_pixels(
            before.texture,
            crate::incremental::stride_of(reading.read.frame.size),
            region,
        ),
        reading.read.phase is Downloading && reply == StagingReply::Downloaded(true) ==> {
            let whole = crate::render_helpers::staging::downloaded(reading.read.frame.fourcc);
            &&& reading.read.purpose is Download ==> raw == before.texture
            &&& !(reading.read.purpose is Download) ==> {
                &&& whole.frame_bytes(raw) == before.texture
                &&& before.texture == crate::screencasting::shm_mapping::region_pixels(
                    before.texture,
                    crate::incremental::stride_of(reading.read.frame.size),
                    reading.read.frame.bounds(),
                )
            }
        },
{
    let frame = reading.read.frame;
    if reading.read.phase is Downloading {
        let contents = before.capture.contents;
        assert(contents[contents.len() - 1] == before.texture);
        let (w, h) = (frame.size.w as int, frame.size.h as int);
        assert(4 * w * h == 4 * (w * h)) by (nonlinear_arith);
        converting_back_restores(before.texture, frame.fourcc, Fourcc::Abgr8888);
        whole_region_is_the_frame(before.texture, frame.size);
    }
}

/// Of a turned frame a buffer needs all.
proof fn turned_frame_is_read_whole(
    before: Pipeline,
    draw: Draw,
    reading: Reading,
    damage: Seq<Rect>,
    staging: Staging,
)
    requires
        before.wf(draw),
        before.reading == Some(reading),
        before.staging.rendered(reading.read.frame, damage, staging),
        reading.read.purpose is Incremental,
        !(reading.read.frame.transform is Normal),
    ensures
        crate::render_helpers::readback_damage::region_since(
            staging.history.frames,
            before.capture.buffers[reading.buffer].stamp,
            reading.read.frame.size,
        ) == Some(reading.read.frame.bounds()),
{
    let buffer = before.capture.buffers[reading.buffer];
    assert(before.capture.tracks(buffer));
    if let Some(stamp) = buffer.stamp {
        crate::render_helpers::staging::turned_frame_is_given_whole(
            before.staging,
            reading.read.frame,
            damage,
            staging,
            stamp,
        );
    }
}

/// A reply of the renderer keeps everything in order.
proof fn reply_keeps_all_in_order(before: Pipeline, draw: Draw, event: Event, after: Pipeline)
    requires
        fills_frames(draw),
        before.wf(draw),
        before.goes_on(draw, event, after),
    ensures
        after.wf(draw),
{
    if let Event::Replied { reply, raw, read, step, fd, renderer } = event {
        let reading = before.reading->0;
        let frame = reading.read.frame;
        let remembered = before.remembers(reading, reply, after);
        crate::render_helpers::staging::destination_is_given_what_it_needs(
            reading.read,
            before.staging,
            reply,
            read,
            after.staging,
            step,
        );
        source_holds_the_scene(before, draw, reading, reply, raw, step, after);
        crate::incremental::forgetting_keeps_track(before.capture, before.size(), after.size());
        if let StagingReply::Rendered(damage) = reply {
            drawing_keeps_all_in_order(before, draw, reading, damage@, after);
            if reading.read.purpose is Incremental && !(frame.transform is Normal) {
                turned_frame_is_read_whole(before, draw, reading, damage@, after.staging);
            }
        }
        assert(remembered.wf(after.size()));
        if let StagingStep::Finished(Ok(Staged::Incremental(readback))) = step {
            let promise = reading.promise(draw, raw, readback, fd, renderer);
            assert(remembered.is_readback_for(
                frame.size,
                reading.buffer,
                promise.readback,
                raw,
            ));
            crate::incremental::readback_promises_the_newest_frame(
                remembered,
                frame.size,
                promise,
            );
        }
    }
}

/// Every event keeps everything in order.
proof fn event_keeps_all_in_order(before: Pipeline, draw: Draw, event: Event, after: Pipeline)
    requires
        fills_frames(draw),
        before.wf(draw),
        before.becomes(draw, event, after),
    ensures
        after.wf(draw),
{
    let size = before.size();
    match event {
        Event::Begun { .. } => {
            beginning_keeps_all_in_order(before, draw, event, after);
        },
        Event::Replied { .. } => {
            reply_keeps_all_in_order(before, draw, event, after);
        },
        Event::Allocated { memory } => {
            crate::incremental::adding_keeps_track(before.capture, size, memory);
        },
        Event::Cleared { buffer, memory } => {
            crate::incremental::clearing_keeps_track(before.capture, size, buffer, memory);
        },
        Event::Completed { promise } => {
            crate::incremental::completed_buffer_shows_the_promised_frame(
                before.capture,
                size,
                promise,
            );
        },
        Event::Dropped { promise } => {
            crate::incremental::dropped_frame_leaves_the_buffer(before.capture, size, promise);
        },
    }
}

/// Whether state number `k` becomes the next one.
pub open spec fn is_step(draw: Draw, states: Seq<Pipeline>, events: Seq<Event>, k: int) -> bool {
    states[k].becomes(draw, events[k], states[k + 1])
}

/// Whether the states are those that the events lead to, one after the other, from the start.
pub open spec fn is_run(draw: Draw, states: Seq<Pipeline>, events: Seq<Event>) -> bool {
    &&& states.len() == events.len() + 1
    &&& states[0].is_starting()
    &&& forall|k: int| 0 <= k < events.len() ==> #[trigger] is_step(draw, states, events, k)
}

/// A new staging texture begins a run, whatever its pixels are.
pub proof fn new_texture_begins_a_run(draw: Draw, staging: Staging, texture: Seq<u8>)
    requires
        staging.is_new(),
    ensures
        ({
            let start = Pipeline {
                staging,
                texture,
                tracker: None,
                capture: Capture {
                    history: staging.history,
                    contents: Seq::empty(),
                    buffers: Seq::empty(),
                    promises: Seq::empty(),
                },
                reading: None,
            };
            is_run(draw, seq![start], Seq::empty())
        }),
{
}

/// Whatever has happened, the damage tracker that is used was made for the texture, the texture
/// shows what it drew last, every stamped buffer holds the frame of its stamp as long as that is
/// remembered, and every frame on its way into a buffer will show there as it is.
pub proof fn all_stays_in_order(draw: Draw, states: Seq<Pipeline>, events: Seq<Event>, k: int)
    requires
        fills_frames(draw),
        is_run(draw, states, events),
        0 <= k < states.len(),
    ensures
        states[k].wf(draw),
    decreases k,
{
    if k > 0 {
        all_stays_in_order(draw, states, events, k - 1);
        assert(is_step(draw, states, events, k - 1));
        event_keeps_all_in_order(states[k - 1], draw, events[k - 1], states[k]);
    }
}

/// Whatever has happened before, and whatever failed, a frame that is downloaded or read whole is
/// what rendering its scene from scratch gives, with four bytes per pixel.
pub proof fn whole_frame_is_the_scene(
    draw: Draw,
    states: Seq<Pipeline>,
    events: Seq<Event>,
    k: int,
)
    requires
        fills_frames(draw),
        is_run(draw, states, events),
        0 <= k < events.len(),
    ensures
        events[k] matches Event::Replied { raw, step, .. } ==> {
            let reading = states[k].reading->0;
            let size = reading.read.frame.size;
            let picture = draw(
                Geometry {
                    size,
                    scale: reading.geometry.scale,
                    transform: reading.read.frame.transform,
                    fourcc: reading.read.frame.fourcc,
                },
                reading.scene,
            );
            &&& step == StagingStep::Finished(Ok(Staged::Downloaded)) ==> raw == picture
                && raw.len() == size.w * size.h * 4
            &&& step matches StagingStep::Finished(Ok(Staged::ReadBack(readback)))
                ==> readback.frame_bytes(raw) == picture && picture.len() == size.w * size.h * 4
        },
{
    all_stays_in_order(draw, states, events, k);
    assert(is_step(draw, states, events, k));
    if let Event::Replied { reply, raw, read, step, .. } = events[k] {
        let before = states[k];
        let reading = before.reading->0;
        let size = reading.read.frame.size;
        source_holds_the_scene(before, draw, reading, reply, raw, step, states[k + 1]);
        let picture = draw(reading.geometry, reading.scene);
        let (w, h) = (size.w as int, size.h as int);
        assert(4 * w * h == w * h * 4) by (nonlinear_arith);
        whole_region_is_the_frame(picture, size);
    }
}

/// Whether event number `m` has read the frame that is promised.
pub open spec fn is_made_by(
    draw: Draw,
    states: Seq<Pipeline>,
    events: Seq<Event>,
    m: int,
    promise: Promise,
) -> bool {
    &&& events[m] matches Event::Replied { raw, step, fd, renderer, .. }
    &&& step matches StagingStep::Finished(Ok(Staged::Incremental(readback)))
    &&& promise == states[m].reading->0.promise(draw, raw, readback, fd, renderer)
}

/// Every frame on its way into a buffer was read at some time.
pub proof fn every_promise_was_made(
    draw: Draw,
    states: Seq<Pipeline>,
    events: Seq<Event>,
    k: int,
    p: int,
)
    requires
        is_run(draw, states, events),
        0 <= k < states.len(),
        0 <= p < states[k].capture.promises.len(),
    ensures
        exists|m: int|
            0 <= m < k && #[trigger] is_made_by(
                draw,
                states,
                events,
                m,
                states[k].capture.promises[p],
            ),
    decreases k,
{
    if k > 0 {
        let m = k - 1;
        let promise = states[k].capture.promises[p];
        let earlier = states[m].capture.promises;
        assert(is_step(draw, states, events, m));
        let q = match events[m] {
            Event::Completed { promise } => if p < promise {
                p
            } else {
                p + 1
            },
            Event::Dropped { promise } => if p < promise {
                p
            } else {
                p + 1
            },
            _ => p,
        };
        if q < earlier.len() {
            assert(earlier[q] == promise);
            every_promise_was_made(draw, states, events, m, q);
        } else {
            assert(is_made_by(draw, states, events, m, promise));
        }
    }
}

/// Whatever has happened before and meanwhile, once a frame has got into its buffer, the copy has
/// succeeded, the buffer is stamped, and all its bytes are those of the scene, rendered from
/// scratch, that was read for it.
pub proof fn completed_buffer_shows_its_scene(
    draw: Draw,
    states: Seq<Pipeline>,
    events: Seq<Event>,
    k: int,
)
    requires
        fills_frames(draw),
        is_run(draw, states, events),
        0 <= k < events.len(),
    ensures
        events[k] matches Event::Completed { promise: p } ==> {
            let promise = states[k].capture.promises[p];
            let memory = states[k].capture.buffers[promise.buffer].memory;
            let copy = ShmCopy {
                pending: promise.readback,
                outcome: Some(promise.readback.copy_outcome(promise.raw, memory.len() as int)),
            };
            let completed = states[k + 1].capture.buffers[promise.buffer];
            &&& copy.ends(true) is Ok
            &&& completed.memory == promise.readback.copied(promise.raw, memory)
            &&& completed.stamp == Some(promise.readback.stamp.identity())
            &&& exists|m: int|
                0 <= m < k && #[trigger] is_made_by(draw, states, events, m, promise)
                    && states[m].reading->0.is_laid_out() && completed.memory == draw(
                    states[m].reading->0.geometry,
                    states[m].reading->0.scene,
                )
        },
{
    all_stays_in_order(draw, states, events, k);
    assert(is_step(draw, states, events, k));
    if let Event::Completed { promise: p } = events[k] {
        let promise = states[k].capture.promises[p];
        crate::incremental::completed_buffer_shows_the_promised_frame(
            states[k].capture,
            states[k].size(),
            p,
        );
        every_promise_was_made(draw, states, events, k, p);
        let m = choose|m: int|
            0 <= m < k && #[trigger] is_made_by(draw, states, events, m, promise);
        all_stays_in_order(draw, states, events, m);
        assert(is_step(draw, states, events, m));
    }
}

/// A frame that is given up leaves its buffer as it was, with the stamp that it had.
pub proof fn given_up_frame_changes_nothing(
    draw: Draw,
    states: Seq<Pipeline>,
    events: Seq<Event>,
    k: int,
)
    requires
        is_run(draw, states, events),
        0 <= k < events.len(),
    ensures
        events[k] is Dropped ==> states[k + 1].capture.buffers == states[k].capture.buffers,
{
    assert(is_step(draw, states, events, k));
}

/// The whole frame is read for a buffer that was cleared or never held a frame, for a frame that is
/// turned, and wherever the pooled buffer could not be used.
pub proof fn when_the_whole_frame_is_read(
    draw: Draw,
    states: Seq<Pipeline>,
    events: Seq<Event>,
    m: int,
    promise: Promise,
)
    requires
        fills_frames(draw),
        is_run(draw, states, events),
        0 <= m < events.len(),
        is_made_by(draw, states, events, m, promise),
    ensures
        ({
            let reading = states[m].reading->0;
            let read = reading.read;
            states[m].capture.buffers[reading.buffer].stamp is None || !(read.frame.transform
                is Normal) || read.phase is Downloading ==> promise.readback.region == Some(
                Rect::at_origin(read.frame.size),
            )
        }),
{
    all_stays_in_order(draw, states, events, m);
    assert(is_step(draw, states, events, m));
    if let Event::Replied { reply: StagingReply::Rendered(damage), .. } = events[m] {
        let reading = states[m].reading->0;
        if !(reading.read.frame.transform is Normal) {
            turned_frame_is_read_whole(
                states[m],
                draw,
                reading,
                damage@,
                states[m + 1].staging,
            );
        }
    }
}

} // verus!
