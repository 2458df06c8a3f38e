//! Buffers in shared memory, and the way of a frame into them.

use crate::geometry::{FrameSize, Rect};
use crate::render_helpers::pbo::Readback;
use crate::render_helpers::readback_damage::ContentStamp;
use crate::render_helpers::staging::{
    ReadbackFrame, StagedRead, StagingReadback, StagingRequest, StagingTexture,
};
use crate::screencasting::shm_layout::{ShmLayout, ShmLayoutError};
use crate::screencasting::shm_mapping::{clear, copy_region, MappingError};
use std::borrow::Cow;
use vstd::prelude::*;

verus! {

/// A buffer in shared memory. The memory itself is the caller's; it has `layout.size` bytes.
pub struct Shmbuf {
    pub layout: ShmLayout,
    /// The stamp of the frame that the memory holds, if it holds one.
    pub content: Option<ContentStamp>,
}

/// A frame on its way into a buffer.
pub struct ShmReadback {
    pub mapping: Readback,
    /// The number of the buffer's memory.
    pub fd: i64,
    pub layout: ShmLayout,
    /// The renderer that reads the frame.
    pub renderer: u64,
    pub stamp: ContentStamp,
    pub region: Option<Rect>,
}

/// Why a frame does not get into a buffer.
#[derive(Clone, Copy, Debug, PartialEq, Eq, Structural)]
pub enum ShmError {
    InvalidLayout,
    RendererChanged,
    /// The frame's bytes could not be had, or did not stay valid until they were copied.
    NotRead,
    Copying(MappingError),
}

/// The copy of a frame into its buffer.
pub struct ShmCopy {
    pub pending: ShmReadback,
    /// How it went, as far as that is known.
    pub outcome: Option<Result<(), ShmError>>,
}

/// The buffer for frames of a size. Its memory is not known to hold any frame.
pub fn allocate_shmbuf(size: FrameSize) -> (buffer: Result<Shmbuf, ShmLayoutError>)
    ensures
        match ShmLayout::of(size) {
            Ok(layout) => buffer matches Ok(buffer) && buffer.layout == layout && buffer.content
                is None,
            Err(error) => buffer == Err::<Shmbuf, ShmLayoutError>(error),
        },
{
    match ShmLayout::new(size) {
        Ok(layout) => Ok(Shmbuf { layout, content: None }),
        Err(error) => Err(error),
    }
}

/// Fills a buffer's memory with zeros. It then holds no frame.
pub fn clear_shmbuf(buffer: &mut Shmbuf, memory: &mut [u8])
    ensures
        final(buffer).layout == old(buffer).layout,
        final(buffer).content is None,
        final(memory)@ == Seq::new(old(memory)@.len(), |i: int| 0u8),
{
    buffer.content = None;
    clear(memory);
}

/// Begins to render a frame of which a buffer is to get what it misses. The buffer has to be one
/// for frames of that size.
pub fn render_to_shmbuf(staging: &mut StagingTexture, buffer: &Shmbuf, frame: ReadbackFrame) -> (begun:
    Result<(StagedRead, StagingRequest), ShmError>)
    requires
        old(staging)@.wf(),
    ensures
        begun is Ok <==> frame.valid() && ShmLayout::of(
            FrameSize { w: frame.size.w as u32, h: frame.size.h as u32 },
        ) == Ok::<ShmLayout, ShmLayoutError>(buffer.layout),
        match begun {
            Ok((read, request)) => {
                &&& read.purpose matches crate::render_helpers::staging::Purpose::Incremental(
                    previous,
                )
                &&& crate::render_helpers::staging::stamp_identity(previous)
                    == crate::render_helpers::staging::stamp_identity(buffer.content)
                &&& crate::render_helpers::staging::begins(
                    old(staging)@,
                    frame,
                    read.purpose,
                    read,
                    final(staging)@,
                    request,
                )
                &&& read.wf()
            },
            Err(error) => error == ShmError::InvalidLayout && final(staging)@ == old(staging)@,
        },
        final(staging)@.wf(),
{
    if !buffer.layout.matches(frame.size) {
        return Err(ShmError::InvalidLayout);
    }
    let previous = match &buffer.content {
        Some(stamp) => Some(stamp.clone()),
        None => None,
    };
    Ok(staging.render_incremental_readback(frame, previous))
}

impl ShmReadback {
    /// What is left to do for a frame that was read, and whether that has to wait for a fence:
    /// where nothing was read there is nothing to wait for, and without native fences there is
    /// nothing to wait with, so that the copy itself waits.
    pub fn new(
        fd: i64,
        layout: ShmLayout,
        renderer: u64,
        native_fences: bool,
        readback: StagingReadback,
    ) -> (pending: (ShmReadback, bool))
        ensures
            pending.0 == (ShmReadback {
                mapping: readback.mapping,
                fd,
                layout,
                renderer,
                stamp: readback.stamp,
                region: readback.region,
            }),
            pending.1 == (native_fences && readback.region is Some),
    {
        let waits = native_fences && readback.region.is_some();
        (
            ShmReadback {
                mapping: readback.mapping,
                fd,
                layout,
                renderer,
                stamp: readback.stamp,
                region: readback.region,
            },
            waits,
        )
    }

    /// Why the frame cannot be put into memory of `len` bytes, if the source holds `raw`.
    pub open spec fn copy_error(self, raw: Seq<u8>, len: int) -> Option<MappingError> {
        match self.region {
            None => None,
            Some(region) => if !crate::screencasting::shm_mapping::region_fits(
                len,
                self.layout.stride as usize as int,
                region,
            ) {
                Some(MappingError::InvalidRegion)
            } else if self.mapping.frame_bytes(raw).len()
                != crate::screencasting::shm_mapping::region_bytes(region) {
                Some(MappingError::InvalidRegionLength)
            } else {
                None
            },
        }
    }

    /// How the copy goes.
    pub open spec fn copy_outcome(self, raw: Seq<u8>, len: int) -> Result<(), ShmError> {
        match self.copy_error(raw, len) {
            Some(error) => Err(ShmError::Copying(error)),
            None => Ok(()),
        }
    }

    /// What the memory holds once the frame is in it.
    pub open spec fn copied(self, raw: Seq<u8>, memory: Seq<u8>) -> Seq<u8> {
        match self.region {
            None => memory,
            Some(region) => crate::screencasting::shm_mapping::with_region(
                memory,
                self.mapping.frame_bytes(raw),
                self.layout.stride as usize as int,
                region,
            ),
        }
    }

    /// Begins to copy the frame. That fails if the renderer is another one.
    pub fn start(self, renderer: u64) -> (copy: ShmCopy)
        ensures
            copy.pending == self,
            copy.outcome == if self.renderer == renderer {
                None
            } else {
                Some(Err::<(), ShmError>(ShmError::RendererChanged))
            },
    {
        let outcome = if self.renderer == renderer {
            None
        } else {
            Some(Err(ShmError::RendererChanged))
        };
        ShmCopy { pending: self, outcome }
    }
}

impl ShmCopy {
    /// Whether the frame's bytes are to be had.
    pub fn wants_bytes(&self) -> (wants: bool)
        ensures
            wants == (self.outcome is None),
    {
        self.outcome.is_none()
    }

    /// Copies the frame into the memory of its buffer, where the source holds `raw`. The buffer is
    /// not stamped yet: the bytes may turn out not to have been valid.
    pub fn copy(&mut self, raw: &[u8], memory: &mut [u8])
        requires
            old(self).outcome is None,
        ensures
            final(self).pending == old(self).pending,
            final(self).outcome == Some(
                old(self).pending.copy_outcome(raw@, old(memory)@.len() as int),
            ),
            final(memory)@ == if final(self).outcome == Some(Ok::<(), ShmError>(())) {
                old(self).pending.copied(raw@, old(memory)@)
            } else {
                old(memory)@
            },
    {
        let mut outcome: Result<(), ShmError> = Ok(());
        if let Some(region) = self.pending.region {
            let stride: usize = self.pending.layout.stride as usize;
            let bytes = self.pending.mapping.bytes(raw);
            let copied = match &bytes {
                Cow::Borrowed(bytes) => copy_region(memory, bytes, stride, region),
                Cow::Owned(bytes) => copy_region(memory, bytes.as_slice(), stride, region),
            };
            if let Err(error) = copied {
                outcome = Err(ShmError::Copying(error));
            }
        }
        self.outcome = Some(outcome);
    }

    /// How the copy ends, where the bytes stayed valid until they were copied or not.
    pub open spec fn ends(self, valid: bool) -> Result<(), ShmError> {
        match self.outcome {
            Some(Err(ShmError::RendererChanged)) => Err(ShmError::RendererChanged),
            Some(outcome) => if valid {
                outcome
            } else {
                Err(ShmError::NotRead)
            },
            None => Err(ShmError::NotRead),
        }
    }

    /// Stamps the buffer if it holds the frame. Otherwise it keeps its stamp.
    pub fn complete(self, valid: bool, buffer: &mut Shmbuf) -> (completed: Result<(), ShmError>)
        ensures
            completed == self.ends(valid),
            final(buffer).layout == old(buffer).layout,
            final(buffer).content == if completed is Ok {
                Some(self.pending.stamp)
            } else {
                old(buffer).content
            },
    {
        match self.outcome {
            Some(Err(ShmError::RendererChanged)) => Err(ShmError::RendererChanged),
            Some(outcome) => {
                if !valid {
                    return Err(ShmError::NotRead);
                }
                if outcome.is_ok() {
                    buffer.content = Some(self.pending.stamp);
                }
                outcome
            },
            None => Err(ShmError::NotRead),
        }
    }
}

/// A new buffer has the layout of frames of its size and holds no frame. Without a layout there is
/// none.
pub proof fn new_buffers_hold_no_frame(size: FrameSize, buffer: Result<Shmbuf, ShmLayoutError>)
    requires
        call_ensures(allocate_shmbuf, (size,), buffer),
    ensures
        buffer is Ok <==> size.w > 0 && size.h > 0 && size.w * 4 * size.h <= 0x7fff_ffff,
        buffer matches Ok(buffer) ==> {
            &&& buffer.content is None
            &&& buffer.layout.stride == 4 * size.w
            &&& buffer.layout.size == size.w * 4 * size.h
        },
{
    if size.h > 0 {
        crate::screencasting::shm_layout::row_fits_in_frame(size);
    }
}

/// A cleared buffer holds no frame, and its memory only zeros.
pub proof fn cleared_buffers_hold_zeros(buffer: &mut Shmbuf, memory: &mut [u8], i: int)
    requires
        call_ensures(clear_shmbuf, (buffer, memory), ()),
    ensures
        final(buffer).content is None,
        final(buffer).layout == old(buffer).layout,
        final(memory)@.len() == old(memory)@.len(),
        0 <= i < old(memory)@.len() ==> final(memory)@[i] == 0,
{
}

/// A frame is rendered for a buffer exactly if the buffer has the rows and bytes of such frames. It
/// is then given what has changed since the frame that it holds.
pub proof fn frames_are_rendered_for_fitting_buffers(
    staging: &mut StagingTexture,
    buffer: &Shmbuf,
    frame: ReadbackFrame,
    begun: Result<(StagedRead, StagingRequest), ShmError>,
)
    requires
        call_ensures(render_to_shmbuf, (staging, buffer, frame), begun),
    ensures
        begun is Ok <==> frame.size.w > 0 && frame.size.h > 0 && buffer.layout.stride == 4
            * frame.size.w && buffer.layout.size == frame.size.w * 4 * frame.size.h
            && buffer.layout.size <= 0x7fff_ffff,
        begun is Err ==> {
            &&& begun->Err_0 == ShmError::InvalidLayout
            &&& final(staging)@ == old(staging)@
        },
        begun matches Ok((read, _)) ==> {
            &&& read.frame == frame
            &&& read.purpose matches crate::render_helpers::staging::Purpose::Incremental(previous)
            &&& previous is Some <==> buffer.content is Some
            &&& previous is Some ==> previous->0.identity() == buffer.content->0.identity()
        },
{
    if frame.size.w >= 0 && frame.size.h > 0 {
        crate::screencasting::shm_layout::row_fits_in_frame(
            FrameSize { w: frame.size.w as u32, h: frame.size.h as u32 },
        );
    }
}

/// What was read is kept as it is. Something is waited for exactly if pixels were read and there
/// are fences to wait with.
pub proof fn readbacks_wait_for_their_pixels(
    fd: i64,
    layout: ShmLayout,
    renderer: u64,
    native_fences: bool,
    readback: StagingReadback,
    pending: (ShmReadback, bool),
)
    requires
        call_ensures(ShmReadback::new, (fd, layout, renderer, native_fences, readback), pending),
    ensures
        pending.1 <==> native_fences && readback.region is Some,
        pending.0.mapping == readback.mapping,
        pending.0.stamp == readback.stamp,
        pending.0.region == readback.region,
        pending.0.fd == fd,
        pending.0.layout == layout,
        pending.0.renderer == renderer,
{
}

/// Bytes are to be had exactly if the renderer is the one that read them.
pub proof fn only_the_same_renderer_copies(
    pending: ShmReadback,
    renderer: u64,
    copy: ShmCopy,
    wants: bool,
)
    requires
        call_ensures(ShmReadback::start, (pending, renderer), copy),
        call_ensures(ShmCopy::wants_bytes, (&copy,), wants),
    ensures
        wants <==> pending.renderer == renderer,
        !wants ==> copy.outcome == Some(Err::<(), _>(ShmError::RendererChanged)),
        copy.pending == pending,
{
}

/// A frame without a region is copied by doing nothing. Any other one is copied exactly if its
/// region lies in the memory and its bytes are those of the region, and then every channel of every
/// pixel gets to its place.
pub proof fn frames_are_copied_into_their_region(
    copy: &mut ShmCopy,
    raw: &[u8],
    memory: &mut [u8],
    row: int,
    column: int,
    channel: int,
)
    requires
        call_ensures(ShmCopy::copy, (copy, raw, memory), ()),
        old(copy).pending.layout.stride >= 0,
    ensures
        final(copy).pending == old(copy).pending,
        final(memory)@.len() == old(memory)@.len(),
        old(copy).pending.region is None ==> {
            &&& final(copy).outcome == Some(Ok::<(), ShmError>(()))
            &&& final(memory)@ == old(memory)@
        },
        old(copy).pending.region matches Some(region) ==> {
            let stride = old(copy).pending.layout.stride;
            let bytes = old(copy).pending.mapping.frame_bytes(raw@);
            let inside = region.x >= 0 && region.y >= 0 && region.w >= 0 && region.h >= 0 && 4
                * region.x + 4 * region.w <= stride && (region.y + region.h) * stride <= old(
                memory,
            )@.len();
            &&& final(copy).outcome == Some(Ok::<(), ShmError>(())) <==> inside && bytes.len()
                == region.w * 4 * region.h
            &&& final(copy).outcome == Some(
                Err::<(), _>(ShmError::Copying(MappingError::InvalidRegion)),
            ) <==> !inside
            &&& final(copy).outcome == Some(
                Err::<(), _>(ShmError::Copying(MappingError::InvalidRegionLength)),
            ) <==> inside && bytes.len() != region.w * 4 * region.h
            &&& final(copy).outcome != Some(Ok::<(), ShmError>(())) ==> final(memory)@ == old(
                memory,
            )@
            &&& final(copy).outcome == Some(Ok::<(), ShmError>(())) && 0 <= row < region.h && 0
                <= column < region.w && 0 <= channel < 4 ==> final(memory)@[(region.y + row) * stride
                + 4 * (region.x + column) + channel] == bytes[(row * region.w + column) * 4
                + channel]
        },
{
    if let Some(region) = old(copy).pending.region {
        let stride = old(copy).pending.layout.stride;
        assert(stride as usize as int == stride);
        if final(copy).outcome == Some(Ok::<(), ShmError>(())) && 0 <= row < region.h && 0 <= column
            < region.w && 0 <= channel < 4 {
            crate::screencasting::shm_mapping::pixel_lies_in_its_row(
                region,
                stride as int,
                row,
                column,
                channel,
            );
        }
    }
}

/// A copy is complete exactly if it succeeded and the bytes were valid. The buffer then has the
/// stamp of the frame, and keeps its own otherwise. A change of the renderer is told before
/// anything else.
pub proof fn complete_copies_are_stamped(
    copy: ShmCopy,
    valid: bool,
    buffer: &mut Shmbuf,
    completed: Result<(), ShmError>,
)
    requires
        call_ensures(ShmCopy::complete, (copy, valid, buffer), completed),
    ensures
        ({
            let changed = copy.outcome == Some(Err::<(), _>(ShmError::RendererChanged));
            &&& completed is Ok <==> valid && copy.outcome is Some && copy.outcome->0 is Ok
            &&& changed ==> completed == Err::<(), _>(ShmError::RendererChanged)
            &&& !changed && (!valid || copy.outcome is None) ==> completed == Err::<(), _>(
                ShmError::NotRead,
            )
            &&& valid && copy.outcome is Some ==> completed == copy.outcome->0
            &&& completed is Ok ==> final(buffer).content == Some(copy.pending.stamp)
            &&& completed is Err ==> final(buffer).content == old(buffer).content
            &&& final(buffer).layout == old(buffer).layout
        }),
{
}

} // verus!
