//! The texture that frames are rendered into before they are read back.
//!
//! The texture keeps the previous frame, so only what has changed is drawn again. Rendering and
//! reading are up to the caller; what is decided here is which of it is needed.

use crate::drm::Fourcc;
use crate::geometry::{Rect, Size};
use crate::render_helpers::pbo::{GlContext, PooledReadback, Readback, ReadbackError};
use crate::render_helpers::readback_damage::{ContentStamp, ReadbackDamage};
use vstd::prelude::*;

verus! {

/// How a frame is turned.
#[derive(Clone, Copy, Debug, PartialEq, Eq, Structural)]
pub enum Transform {
    Normal,
    _90,
    _180,
    _270,
    Flipped,
    Flipped90,
    Flipped180,
    Flipped270,
}

/// What a texture was made for.
#[derive(Clone, Copy, Debug, PartialEq, Eq, Structural)]
pub struct TextureKey {
    pub size: Size,
    pub format: Fourcc,
    pub context: GlContext,
}

/// A frame to render.
#[derive(Clone, Copy, Debug, PartialEq, Eq, Structural)]
pub struct ReadbackFrame {
    pub size: Size,
    /// Whether the scale is the one that the present damage tracker was made for.
    pub same_scale: bool,
    pub transform: Transform,
    pub fourcc: Fourcc,
    pub context: GlContext,
}

/// A frame that was read for a destination: where its bytes are, the stamp of the content that the
/// destination holds once they are copied, and the region that they fill.
pub struct StagingReadback {
    pub mapping: Readback,
    pub stamp: ContentStamp,
    pub region: Option<Rect>,
}

/// Reusable GPU staging texture for readback paths such as PipeWire SHM.
pub struct StagingTexture {
    /// What the texture was made for, if there is one.
    pub key: Option<TextureKey>,
    /// The transform that the damage tracker was made for, if there is one.
    pub tracker: Option<Transform>,
    pub readback_damage: ReadbackDamage,
}

/// The state of a staging texture.
pub struct Staging {
    pub key: Option<TextureKey>,
    pub tracker: Option<Transform>,
    pub history: crate::render_helpers::readback_damage::History,
}

/// What a frame is rendered for.
pub enum Purpose {
    /// A whole frame in its own order.
    Download,
    /// A whole frame.
    Readback,
    /// What a destination misses that holds the content of the given stamp.
    Incremental(Option<ContentStamp>),
}

/// What the renderer is asked to do.
#[derive(Clone, Copy, Debug, PartialEq, Eq, Structural)]
pub enum StagingRequest {
    /// Make a texture.
    CreateTexture { size: Size, format: Fourcc },
    /// Bind the texture and render into it, with a new damage tracker if there is need for one.
    Render { new_tracker: bool, size: Size, transform: Transform },
    /// Read a region through the pooled buffer.
    ReadRegion { size: Size, fourcc: Fourcc, region: Rect },
    /// Bind the texture and download it whole in a format.
    Download { format: Fourcc },
}

/// What the renderer answers.
pub enum StagingReply {
    Created(bool),
    /// The texture shows the frame, which differs from the one before in the given rectangles.
    Rendered(Vec<Rect>),
    NotBound,
    NotRendered,
    ReadBack(Result<Option<PooledReadback>, ReadbackError>),
    Downloaded(bool),
}

/// Why a frame was not read.
#[derive(Clone, Copy, Debug, PartialEq, Eq, Structural)]
pub enum StagingError {
    CreatingTexture,
    BindingTexture,
    Rendering,
    Readback(ReadbackError),
    Downloading,
}

/// A frame that was read.
pub enum Staged {
    Downloaded,
    ReadBack(Readback),
    Incremental(StagingReadback),
}

/// What to do next.
pub enum StagingStep {
    Ask(StagingRequest),
    Finished(Result<Staged, StagingError>),
}

/// Which reply is waited for.
#[derive(Clone, Copy, Debug, PartialEq, Eq, Structural)]
pub enum StagingPhase {
    Creating,
    Rendering,
    Reading { region: Rect },
    Downloading,
    Finished,
}

/// A frame on its way from being rendered to being read.
pub struct StagedRead {
    pub frame: ReadbackFrame,
    pub purpose: Purpose,
    pub phase: StagingPhase,
    /// The stamp of the rendered frame, if it is read for a destination.
    pub stamp: Option<ContentStamp>,
}

impl View for StagingTexture {
    type V = Staging;

    open spec fn view(&self) -> Staging {
        Staging { key: self.key, tracker: self.tracker, history: self.readback_damage@ }
    }
}

impl ReadbackFrame {
    /// Whether the dimensions are those of an area.
    pub open spec fn valid(self) -> bool {
        self.size.w >= 0 && self.size.h >= 0
    }

    pub open spec fn texture_key(self) -> TextureKey {
        TextureKey { size: self.size, format: self.fourcc, context: self.context }
    }

    pub open spec fn bounds(self) -> Rect {
        Rect::at_origin(self.size)
    }

    /// What a frame changed that was drawn where the given rectangles differ. The rectangles of a
    /// turned frame are not where they are in the texture, so all of it counts as changed.
    pub open spec fn changes(self, damage: Seq<Rect>) -> Option<Rect> {
        if self.transform is Normal {
            crate::render_helpers::readback_damage::bounding(damage)
        } else {
            Some(self.bounds())
        }
    }
}

/// The format that a texture has for frames of a format.
pub open spec fn storage_format(fourcc: Fourcc) -> Fourcc {
    if fourcc.is_bgra() {
        Fourcc::Abgr8888
    } else {
        fourcc
    }
}

impl Staging {
    pub open spec fn wf(self) -> bool {
        self.history.wf()
    }

    /// Whether there is no texture yet, and no stamp was ever given out.
    pub open spec fn is_new(self) -> bool {
        &&& self.key is None
        &&& self.tracker is None
        &&& self.history.frames.len() == 0
        &&& self.history.newest is None
    }

    /// Whether the texture can show the frame.
    pub open spec fn fits(self, frame: ReadbackFrame) -> bool {
        self.key == Some(frame.texture_key())
    }

    /// Whether what the texture shows is a frame of the same geometry.
    pub open spec fn continues(self, frame: ReadbackFrame) -> bool {
        self.tracker == Some(frame.transform) && frame.same_scale
    }

    /// No frame is remembered.
    pub open spec fn forgotten(self) -> Staging {
        Staging {
            history: crate::render_helpers::readback_damage::History {
                frames: Seq::empty(),
                ..self.history
            },
            ..self
        }
    }

    /// A new texture for the frame.
    pub open spec fn replaced(self, frame: ReadbackFrame) -> Staging {
        Staging { key: Some(frame.texture_key()), tracker: None, ..self.forgotten() }
    }

    /// Ready to render the frame.
    pub open spec fn prepared(self, frame: ReadbackFrame) -> Staging {
        if self.continues(frame) {
            self
        } else {
            Staging { tracker: Some(frame.transform), ..self.forgotten() }
        }
    }

    /// A failed render must never be treated as a valid cached frame.
    pub open spec fn failed(self) -> Staging {
        Staging { tracker: None, ..self.forgotten() }
    }

    /// Whether `after` is this with the frame rendered.
    pub open spec fn rendered(self, frame: ReadbackFrame, damage: Seq<Rect>, after: Staging) -> bool {
        &&& after.key == self.key
        &&& after.tracker == self.tracker
        &&& after.wf()
        &&& self.history.recorded(frame.changes(damage), after.history)
    }
}

/// What rendering the frame asks for.
pub open spec fn render_request(staging: Staging, frame: ReadbackFrame) -> StagingRequest {
    StagingRequest::Render {
        new_tracker: !staging.continues(frame),
        size: frame.size,
        transform: frame.transform,
    }
}

/// Where the bytes of a download are.
pub open spec fn downloaded(fourcc: Fourcc) -> Readback {
    if fourcc.is_bgra() {
        Readback::SmithayRgba
    } else {
        Readback::Smithay
    }
}

impl StagedRead {
    /// Whether a reply answers the last request.
    pub open spec fn awaits(&self, reply: StagingReply) -> bool {
        match self.phase {
            StagingPhase::Creating => reply is Created,
            StagingPhase::Rendering => match reply {
                StagingReply::Rendered(damage) => forall|i: int|
                    0 <= i < damage@.len() ==> (#[trigger] damage@[i]).valid(),
                _ => reply is NotBound || reply is NotRendered,
            },
            StagingPhase::Reading { .. } => reply is ReadBack,
            StagingPhase::Downloading => reply is Downloaded,
            StagingPhase::Finished => false,
        }
    }

    /// A frame that is read for a destination has its stamp from when it is rendered.
    pub open spec fn wf(&self) -> bool {
        &&& self.frame.valid()
        &&& self.purpose is Incremental && (self.phase is Reading || self.phase is Downloading)
            ==> self.stamp is Some
        &&& self.phase is Reading ==> !(self.purpose is Download)
    }

    /// Whether `after` is this waiting for another reply.
    pub open spec fn goes_on(&self, after: StagedRead, phase: StagingPhase) -> bool {
        &&& after.frame == self.frame
        &&& after.purpose == self.purpose
        &&& after.stamp == self.stamp
        &&& after.phase == phase
    }

    /// Whether the end is a frame of which `region` was read into `mapping`.
    pub open spec fn ends_with(&self, mapping: Readback, region: Option<Rect>, step: StagingStep) -> bool {
        match self.purpose {
            Purpose::Download => step == StagingStep::Finished(Ok(Staged::Downloaded)),
            Purpose::Readback => step == StagingStep::Finished(Ok(Staged::ReadBack(mapping))),
            Purpose::Incremental(_) => {
                &&& step matches StagingStep::Finished(Ok(Staged::Incremental(readback)))
                &&& readback.mapping == mapping
                &&& readback.region == region
                &&& readback.stamp.identity() == self.stamp->0.identity()
            },
        }
    }

    /// Whether a rendered frame is followed by the given step.
    pub open spec fn reads(&self, staging: Staging, after: StagedRead, step: StagingStep) -> bool {
        &&& after.frame == self.frame
        &&& after.purpose == self.purpose
        &&& match self.purpose {
            Purpose::Download => {
                &&& after.phase is Downloading
                &&& step == StagingStep::Ask(
                    StagingRequest::Download { format: self.frame.fourcc },
                )
            },
            Purpose::Readback => {
                &&& after.phase == (StagingPhase::Reading { region: self.frame.bounds() })
                &&& step == StagingStep::Ask(
                    StagingRequest::ReadRegion {
                        size: self.frame.size,
                        fourcc: self.frame.fourcc,
                        region: self.frame.bounds(),
                    },
                )
            },
            Purpose::Incremental(previous) => {
                let needed = crate::render_helpers::readback_damage::region_since(
                    staging.history.frames,
                    stamp_identity(previous),
                    self.frame.size,
                );
                &&& after.stamp matches Some(stamp)
                &&& stamp.identity() == staging.history.frames.last().stamp
                &&& match needed {
                    None => {
                        &&& after.phase is Finished
                        &&& after.ends_with(Readback::Unchanged, None, step)
                    },
                    Some(region) => {
                        &&& after.phase == (StagingPhase::Reading { region })
                        &&& step == StagingStep::Ask(
                            StagingRequest::ReadRegion {
                                size: self.frame.size,
                                fourcc: self.frame.fourcc,
                                region,
                            },
                        )
                    },
                }
            },
        }
    }

    /// Whether a reply leads from here to the given state and step.
    pub open spec fn leads_to(
        &self,
        staging: Staging,
        reply: StagingReply,
        after: StagedRead,
        staging_after: Staging,
        step: StagingStep,
    ) -> bool {
        match self.phase {
            StagingPhase::Creating => if reply->Created_0 {
                let replaced = staging.replaced(self.frame);
                &&& staging_after == replaced.prepared(self.frame)
                &&& self.goes_on(after, StagingPhase::Rendering)
                &&& step == StagingStep::Ask(render_request(replaced, self.frame))
            } else {
                &&& staging_after == staging
                &&& self.goes_on(after, StagingPhase::Finished)
                &&& step == StagingStep::Finished(Err(StagingError::CreatingTexture))
            },
            StagingPhase::Rendering => match reply {
                StagingReply::Rendered(damage) => {
                    &&& staging.rendered(self.frame, damage@, staging_after)
                    &&& self.reads(staging_after, after, step)
                },
                StagingReply::NotBound => {
                    &&& staging_after == staging
                    &&& self.goes_on(after, StagingPhase::Finished)
                    &&& step == StagingStep::Finished(Err(StagingError::BindingTexture))
                },
                _ => {
                    &&& staging_after == staging.failed()
                    &&& self.goes_on(after, StagingPhase::Finished)
                    &&& step == StagingStep::Finished(Err(StagingError::Rendering))
                },
            },
            StagingPhase::Reading { region } => {
                &&& staging_after == staging
                &&& match reply->ReadBack_0 {
                    Err(error) => {
                        &&& self.goes_on(after, StagingPhase::Finished)
                        &&& step == StagingStep::Finished(Err(StagingError::Readback(error)))
                    },
                    Ok(Some(pooled)) => {
                        &&& self.goes_on(after, StagingPhase::Finished)
                        &&& self.ends_with(Readback::Pooled(pooled), Some(region), step)
                    },
                    Ok(None) => {
                        &&& self.goes_on(after, StagingPhase::Downloading)
                        &&& step == StagingStep::Ask(
                            StagingRequest::Download { format: storage_format(self.frame.fourcc) },
                        )
                    },
                }
            },
            StagingPhase::Downloading => {
                &&& staging_after == staging
                &&& self.goes_on(after, StagingPhase::Finished)
                &&& if reply->Downloaded_0 {
                    self.ends_with(downloaded(self.frame.fourcc), Some(self.frame.bounds()), step)
                } else {
                    step == StagingStep::Finished(Err(StagingError::Downloading))
                }
            },
            StagingPhase::Finished => false,
        }
    }
}

/// The identity of a stamp, if there is one.
pub open spec fn stamp_identity(stamp: Option<ContentStamp>) -> Option<int> {
    match stamp {
        None => None,
        Some(stamp) => Some(stamp.identity()),
    }
}

/// Whether rendering the frame for the purpose begins with the given state and request.
pub open spec fn begins(
    staging: Staging,
    frame: ReadbackFrame,
    purpose: Purpose,
    read: StagedRead,
    staging_after: Staging,
    request: StagingRequest,
) -> bool {
    &&& read.frame == frame
    &&& read.purpose == purpose
    &&& read.stamp is None
    &&& if staging.fits(frame) {
        &&& read.phase is Rendering
        &&& staging_after == staging.prepared(frame)
        &&& request == render_request(staging, frame)
    } else {
        &&& read.phase is Creating
        &&& staging_after == staging
        &&& request == StagingRequest::CreateTexture {
            size: frame.size,
            format: storage_format(frame.fourcc),
        }
    }
}

impl Default for StagingTexture {
    fn default() -> (staging: Self)
        ensures
            staging@.wf(),
            staging@.is_new(),
    {
        StagingTexture { key: None, tracker: None, readback_damage: ReadbackDamage::default() }
    }
}

fn storage_format_of(fourcc: Fourcc) -> (format: Fourcc)
    ensures
        format == storage_format(fourcc),
{
    if fourcc.has_bgra_bytes() {
        Fourcc::Abgr8888
    } else {
        fourcc
    }
}

impl StagingTexture {
    /// The format in which a new texture is needed for frames of this kind, if the present one
    /// does not do.
    pub fn get_or_create(&self, context: GlContext, size: Size, fourcc: Fourcc) -> (needed: Option<
        Fourcc,
    >)
        ensures
            needed == if self@.key == Some(TextureKey { size, format: fourcc, context }) {
                None
            } else {
                Some(storage_format(fourcc))
            },
    {
        let key = TextureKey { size, format: fourcc, context };
        match self.key {
            Some(present) => if present == key {
                None
            } else {
                Some(storage_format_of(fourcc))
            },
            None => Some(storage_format_of(fourcc)),
        }
    }

    /// Takes note of a new texture. What the old one showed does not count for it.
    pub fn texture_created(&mut self, context: GlContext, size: Size, fourcc: Fourcc)
        ensures
            final(self)@ == (Staging {
                key: Some(TextureKey { size, format: fourcc, context }),
                tracker: None,
                ..old(self)@.forgotten()
            }),
    {
        self.key = Some(TextureKey { size, format: fourcc, context });
        self.tracker = None;
        self.readback_damage.reset();
    }

    /// Begins to render a frame and to download it whole, in its own order.
    pub fn render_and_download(&mut self, frame: ReadbackFrame) -> (begun: (
        StagedRead,
        StagingRequest,
    ))
        requires
            old(self)@.wf(),
            frame.valid(),
        ensures
            begins(old(self)@, frame, Purpose::Download, begun.0, final(self)@, begun.1),
            begun.0.wf(),
            final(self)@.wf(),
    {
        self.begin(frame, Purpose::Download)
    }

    /// Begins to render a frame and to read it whole.
    pub fn render_and_readback(&mut self, frame: ReadbackFrame) -> (begun: (
        StagedRead,
        StagingRequest,
    ))
        requires
            old(self)@.wf(),
            frame.valid(),
        ensures
            begins(old(self)@, frame, Purpose::Readback, begun.0, final(self)@, begun.1),
            begun.0.wf(),
            final(self)@.wf(),
    {
        self.begin(frame, Purpose::Readback)
    }

    /// Begins to render a frame and to read what a destination misses of it that holds the content
    /// of a stamp.
    pub fn render_incremental_readback(
        &mut self,
        frame: ReadbackFrame,
        previous: Option<ContentStamp>,
    ) -> (begun: (StagedRead, StagingRequest))
        requires
            old(self)@.wf(),
            frame.valid(),
        ensures
            begins(
                old(self)@,
                frame,
                Purpose::Incremental(previous),
                begun.0,
                final(self)@,
                begun.1,
            ),
            begun.0.wf(),
            final(self)@.wf(),
    {
        self.begin(frame, Purpose::Incremental(previous))
    }

    fn begin(&mut self, frame: ReadbackFrame, purpose: Purpose) -> (begun: (
        StagedRead,
        StagingRequest,
    ))
        requires
            old(self)@.wf(),
            frame.valid(),
        ensures
            begins(old(self)@, frame, purpose, begun.0, final(self)@, begun.1),
            begun.0.wf(),
            final(self)@.wf(),
    {
        match self.get_or_create(frame.context, frame.size, frame.fourcc) {
            Some(format) => (
                StagedRead { frame, purpose, phase: StagingPhase::Creating, stamp: None },
                StagingRequest::CreateTexture { size: frame.size, format },
            ),
            None => {
                let request = self.prepare(frame);
                (
                    StagedRead { frame, purpose, phase: StagingPhase::Rendering, stamp: None },
                    request,
                )
            },
        }
    }

    fn prepare(&mut self, frame: ReadbackFrame) -> (request: StagingRequest)
        requires
            old(self)@.wf(),
        ensures
            final(self)@ == old(self)@.prepared(frame),
            request == render_request(old(self)@, frame),
            final(self)@.wf(),
    {
        let continues = match self.tracker {
            Some(transform) => transform == frame.transform && frame.same_scale,
            None => false,
        };
        if !continues {
            self.readback_damage.reset();
            self.tracker = Some(frame.transform);
        }
        StagingRequest::Render {
            new_tracker: !continues,
            size: frame.size,
            transform: frame.transform,
        }
    }

    fn record(&mut self, frame: ReadbackFrame, damage: &Vec<Rect>)
        requires
            old(self)@.wf(),
            frame.valid(),
            forall|i: int| 0 <= i < damage@.len() ==> (#[trigger] damage@[i]).valid(),
        ensures
            old(self)@.rendered(frame, damage@, final(self)@),
    {
        if frame.transform == Transform::Normal {
            self.readback_damage.record(damage.as_slice());
        } else {
            // Damage is expressed in transformed output coordinates; stay conservative.
            let full: Vec<Rect> = vec![Rect::from_size(frame.size)];
            proof {
                let one = full@;
                assert(one.drop_last() =~= Seq::<Rect>::empty());
                assert(crate::render_helpers::readback_damage::bounding(Seq::<Rect>::empty())
                    is None);
            }
            self.readback_damage.record(full.as_slice());
        }
    }
}

impl StagedRead {
    fn ask_for(&mut self, phase: StagingPhase, request: StagingRequest) -> (step: StagingStep)
        ensures
            old(self).goes_on(*final(self), phase),
            step == StagingStep::Ask(request),
    {
        self.phase = phase;
        StagingStep::Ask(request)
    }

    fn fail(&mut self, error: StagingError) -> (step: StagingStep)
        ensures
            old(self).goes_on(*final(self), StagingPhase::Finished),
            step == StagingStep::Finished(Err(error)),
    {
        self.phase = StagingPhase::Finished;
        StagingStep::Finished(Err(error))
    }

    fn end(&mut self, mapping: Readback, region: Option<Rect>) -> (step: StagingStep)
        requires
            old(self).purpose is Incremental ==> old(self).stamp is Some,
        ensures
            old(self).goes_on(*final(self), StagingPhase::Finished),
            final(self).ends_with(mapping, region, step),
    {
        self.phase = StagingPhase::Finished;
        let staged = match (&self.purpose, &self.stamp) {
            (Purpose::Download, _) => Staged::Downloaded,
            (Purpose::Incremental(_), Some(stamp)) => Staged::Incremental(
                StagingReadback { mapping, stamp: stamp.clone(), region },
            ),
            _ => Staged::ReadBack(mapping),
        };
        StagingStep::Finished(Ok(staged))
    }

    fn read(&mut self, staging: &StagingTexture) -> (step: StagingStep)
        requires
            old(self).wf(),
            staging@.wf(),
            staging@.history.frames.len() > 0,
        ensures
            old(self).reads(staging@, *final(self), step),
            final(self).wf(),
    {
        let size = self.frame.size;
        let fourcc = self.frame.fourcc;
        let region: Option<Rect> = match &self.purpose {
            Purpose::Download => {
                return self.ask_for(
                    StagingPhase::Downloading,
                    StagingRequest::Download { format: fourcc },
                );
            },
            Purpose::Readback => Some(Rect::from_size(size)),
            Purpose::Incremental(previous) => {
                let (stamp, region) = staging.readback_damage.since(previous.as_ref(), size);
                self.stamp = Some(stamp);
                region
            },
        };
        match region {
            Some(region) => self.ask_for(
                StagingPhase::Reading { region },
                StagingRequest::ReadRegion { size, fourcc, region },
            ),
            None => self.end(Readback::Unchanged, None),
        }
    }

    /// Takes the reply to the last request, and decides what to do next.
    pub fn step(&mut self, staging: &mut StagingTexture, reply: StagingReply) -> (step: StagingStep)
        requires
            old(self).wf(),
            old(self).awaits(reply),
            old(staging)@.wf(),
        ensures
            old(self).leads_to(old(staging)@, reply, *final(self), final(staging)@, step),
            final(self).wf(),
            final(staging)@.wf(),
    {
        let frame = self.frame;
        match (self.phase, reply) {
            (StagingPhase::Creating, StagingReply::Created(created)) => {
                if created {
                    staging.texture_created(frame.context, frame.size, frame.fourcc);
                    let request = staging.prepare(frame);
                    self.ask_for(StagingPhase::Rendering, request)
                } else {
                    self.fail(StagingError::CreatingTexture)
                }
            },
            (StagingPhase::Rendering, StagingReply::Rendered(damage)) => {
                staging.record(frame, &damage);
                self.read(staging)
            },
            (StagingPhase::Rendering, StagingReply::NotBound) => {
                self.fail(StagingError::BindingTexture)
            },
            (StagingPhase::Rendering, _) => {
                // A failed render must never be treated as a valid cached frame.
                staging.tracker = None;
                staging.readback_damage.reset();
                self.fail(StagingError::Rendering)
            },
            (StagingPhase::Reading { region }, StagingReply::ReadBack(result)) => {
                match result {
                    Err(error) => self.fail(StagingError::Readback(error)),
                    Ok(Some(pooled)) => self.end(Readback::Pooled(pooled), Some(region)),
                    // The renderer's own download is the whole-frame fallback.
                    Ok(None) => self.ask_for(
                        StagingPhase::Downloading,
                        StagingRequest::Download { format: storage_format_of(frame.fourcc) },
                    ),
                }
            },
            (StagingPhase::Downloading, StagingReply::Downloaded(done)) => {
                if done {
                    let mapping = if frame.fourcc.has_bgra_bytes() {
                        Readback::SmithayRgba
                    } else {
                        Readback::Smithay
                    };
                    self.end(mapping, Some(Rect::from_size(frame.size)))
                } else {
                    self.fail(StagingError::Downloading)
                }
            },
            _ => {
                assert(false);
                self.fail(StagingError::Rendering)
            },
        }
    }
}

impl Staging {
    /// Ready to render the frame, with a new texture if there is need for one.
    pub open spec fn ready_for(self, frame: ReadbackFrame) -> Staging {
        if self.fits(frame) {
            self.prepared(frame)
        } else {
            self.replaced(frame).prepared(frame)
        }
    }
}

/// Once a frame is rendered, a destination with an earlier content needs the whole frame if the
/// history was empty before.
proof fn empty_history_needs_the_whole_frame(
    ready: Staging,
    frame: ReadbackFrame,
    damage: Seq<Rect>,
    after: Staging,
    stamp: int,
)
    requires
        ready.history.frames.len() == 0,
        ready.rendered(frame, damage, after),
        ready.history.newest matches Some(newest) && stamp <= newest,
    ensures
        crate::render_helpers::readback_damage::region_since(
            after.history.frames,
            Some(stamp),
            frame.size,
        ) == Some(frame.bounds()),
{
    assert(after.history.frames.drop_last().len() == after.history.frames.len() - 1);
    crate::render_helpers::readback_damage::unknown_stamp_needs_everything(
        after.history,
        stamp,
        frame.size,
    );
}

/// After a change of size, format, renderer, scale or transform, every destination is given the
/// whole frame, and the renderer draws with a new damage tracker.
pub proof fn changed_geometry_needs_the_whole_frame(
    staging: Staging,
    frame: ReadbackFrame,
    damage: Seq<Rect>,
    after: Staging,
    stamp: int,
)
    requires
        !(staging.fits(frame) && staging.continues(frame)),
        staging.ready_for(frame).rendered(frame, damage, after),
        staging.history.newest matches Some(newest) && stamp <= newest,
    ensures
        crate::render_helpers::readback_damage::region_since(
            after.history.frames,
            Some(stamp),
            frame.size,
        ) == Some(frame.bounds()),
        !staging.fits(frame) ==> render_request(staging.replaced(frame), frame)->new_tracker,
        staging.fits(frame) ==> render_request(staging, frame)->new_tracker,
{
    empty_history_needs_the_whole_frame(staging.ready_for(frame), frame, damage, after, stamp);
}

/// After a failed render, whatever the next frame is, it is drawn with a new damage tracker, and
/// every destination is given the whole frame.
pub proof fn failed_render_is_not_reused(
    staging: Staging,
    frame: ReadbackFrame,
    damage: Seq<Rect>,
    after: Staging,
    stamp: int,
)
    requires
        staging.failed().ready_for(frame).rendered(frame, damage, after),
        staging.history.newest matches Some(newest) && stamp <= newest,
    ensures
        render_request(staging.failed(), frame)->new_tracker,
        crate::render_helpers::readback_damage::region_since(
            after.history.frames,
            Some(stamp),
            frame.size,
        ) == Some(frame.bounds()),
{
    changed_geometry_needs_the_whole_frame(staging.failed(), frame, damage, after, stamp);
}

/// Where nothing was drawn, a destination that holds the frame before needs nothing.
pub proof fn static_scene_needs_nothing(staging: Staging, frame: ReadbackFrame, after: Staging)
    requires
        staging.wf(),
        staging.history.frames.len() > 0,
        staging.fits(frame),
        staging.continues(frame),
        frame.transform is Normal,
        staging.ready_for(frame).rendered(frame, Seq::empty(), after),
    ensures
        crate::render_helpers::readback_damage::region_since(
            after.history.frames,
            Some(staging.history.frames.last().stamp),
            frame.size,
        ) is None,
{
    let frames = after.history.frames;
    let index = frames.len() - 2;
    assert(frames.drop_last().last() == staging.history.frames.last());
    assert(frames[index] == frames.drop_last()[index]);
    crate::render_helpers::readback_damage::remembered_frame_needs_later_changes(
        after.history,
        index,
        frame.size,
    );
    let missing = frames.skip(index + 1);
    assert(missing.len() == 1 && missing.last() == frames.last());
    assert(missing.drop_last() =~= Seq::empty());
    assert(crate::render_helpers::readback_damage::changed(missing.drop_last()) is None);
}

/// A frame that is turned is given whole to every destination that does not hold it already.
pub proof fn turned_frame_is_given_whole(
    ready: Staging,
    frame: ReadbackFrame,
    damage: Seq<Rect>,
    after: Staging,
    stamp: int,
)
    requires
        frame.valid(),
        !(frame.transform is Normal),
        ready.rendered(frame, damage, after),
        stamp != after.history.frames.last().stamp,
    ensures
        crate::render_helpers::readback_damage::region_since(
            after.history.frames,
            Some(stamp),
            frame.size,
        ) == Some(frame.bounds()),
{
    let frames = after.history.frames;
    if crate::render_helpers::readback_damage::position(frames, stamp) is Some {
        let index = crate::render_helpers::readback_damage::position(frames, stamp)->0;
        assert(crate::render_helpers::readback_damage::first_at(frames, stamp, index));
        let missing = frames.skip(index + 1);
        assert(missing.last() == frames.last());
        let full = frame.bounds();
        let rect = crate::render_helpers::readback_damage::changed(missing)->0;
        if crate::render_helpers::readback_damage::changed(missing.drop_last()) is Some {
            crate::geometry::union_encloses_both(
                crate::render_helpers::readback_damage::changed(missing.drop_last())->0,
                full,
            );
        }
        if full.encloses(rect) {
            assert(rect.w == full.w && rect.h == full.h);
            let (a, b) = (rect.w as int, rect.h as int);
            assert(a * b * 2 >= a * b) by (nonlinear_arith)
                requires
                    a >= 0,
                    b >= 0,
            ;
        }
    }
}

impl StagedRead {
    /// Whether what is being read for a destination is what it needs of the rendered frame.
    pub open spec fn reads_what_is_needed(&self, staging: Staging) -> bool {
        self.purpose matches Purpose::Incremental(previous) ==> {
            &&& self.phase matches StagingPhase::Reading { region }
                ==> crate::render_helpers::readback_damage::region_since(
                staging.history.frames,
                stamp_identity(previous),
                self.frame.size,
            ) == Some(region)
            &&& self.phase is Reading || self.phase is Downloading ==> self.stamp is Some
                && self.stamp->0.identity() == staging.history.frames.last().stamp
        }
    }
}

/// A frame that was read for a destination is stamped as the newest one. What was read is what the
/// destination needs, or else the whole frame.
pub proof fn destination_is_given_what_it_needs(
    read: StagedRead,
    staging: Staging,
    reply: StagingReply,
    after: StagedRead,
    staging_after: Staging,
    step: StagingStep,
)
    requires
        read.wf(),
        read.awaits(reply),
        read.reads_what_is_needed(staging),
        read.leads_to(staging, reply, after, staging_after, step),
    ensures
        after.reads_what_is_needed(staging_after),
        step matches StagingStep::Finished(Ok(Staged::Incremental(readback))) ==> {
            &&& read.purpose matches Purpose::Incremental(previous)
            &&& readback.stamp.identity() == staging_after.history.frames.last().stamp
            &&& readback.region == crate::render_helpers::readback_damage::region_since(
                staging_after.history.frames,
                stamp_identity(previous),
                read.frame.size,
            ) || readback.region == Some(read.frame.bounds())
            &&& readback.region is None <==> readback.mapping is Unchanged
        },
{
}

/// The view of a staging texture tells all that it holds.
pub proof fn staging_view_tells_all(staging: StagingTexture)
    ensures
        staging@.key == staging.key,
        staging@.tracker == staging.tracker,
        staging@.history == staging.readback_damage@,
{
}

/// A staging texture starts without a texture, a tracker and frames.
pub proof fn staging_starts_with_nothing(staging: StagingTexture)
    requires
        call_ensures(StagingTexture::default, (), staging),
    ensures
        staging@.key is None,
        staging@.tracker is None,
        staging@.history.frames.len() == 0,
        staging@.history.newest is None,
{
}

/// A new texture is needed exactly if there is none that was made for the size, the format and the
/// context. Frames with blue first are rendered with red first, and others as they are.
pub proof fn textures_are_used_for_what_they_were_made(
    staging: &StagingTexture,
    context: GlContext,
    size: Size,
    fourcc: Fourcc,
    needed: Option<Fourcc>,
)
    requires
        call_ensures(StagingTexture::get_or_create, (staging, context, size, fourcc), needed),
    ensures
        needed is None <==> (staging.key matches Some(key) && key.size == size && key.format
            == fourcc && key.context == context),
        needed matches Some(format) ==> {
            &&& fourcc is Argb8888 || fourcc is Xrgb8888 ==> format is Abgr8888
            &&& !(fourcc is Argb8888) && !(fourcc is Xrgb8888) ==> format == fourcc
        },
{
}

/// A new texture is known for what it was made, and nothing is known of what it shows.
pub proof fn new_textures_show_nothing(
    staging: &mut StagingTexture,
    context: GlContext,
    size: Size,
    fourcc: Fourcc,
)
    requires
        call_ensures(StagingTexture::texture_created, (staging, context, size, fourcc), ()),
    ensures
        final(staging)@.key == Some(TextureKey { size, format: fourcc, context }),
        final(staging)@.tracker is None,
        final(staging)@.history.frames.len() == 0,
        final(staging)@.history.newest == old(staging)@.history.newest,
{
}

/// A frame that is to be downloaded is rendered into the texture, if that was made for such frames,
/// and a texture is made for it otherwise. It is drawn with a new damage tracker unless the present
/// one was made for the same transform and scale; with a new one, the frames before do not count.
pub proof fn downloads_begin_with_rendering(
    staging: &mut StagingTexture,
    frame: ReadbackFrame,
    begun: (StagedRead, StagingRequest),
)
    requires
        call_ensures(StagingTexture::render_and_download, (staging, frame), begun),
    ensures
        begun.0.frame == frame,
        begun.0.purpose == Purpose::Download,
        begun.0.stamp is None,
        ({
            let same = old(staging)@.key matches Some(key) && key.size == frame.size && key.format
                == frame.fourcc && key.context == frame.context;
            let goes_on = old(staging)@.tracker == Some(frame.transform) && frame.same_scale;
            &&& same ==> {
                &&& begun.0.phase is Rendering
                &&& begun.1 == (StagingRequest::Render {
                    new_tracker: !goes_on,
                    size: frame.size,
                    transform: frame.transform,
                })
                &&& final(staging)@.key == old(staging)@.key
                &&& final(staging)@.tracker == Some(frame.transform)
                &&& goes_on ==> final(staging)@.history == old(staging)@.history
                &&& !goes_on ==> final(staging)@.history.frames.len() == 0
            }
            &&& !same ==> {
                &&& begun.0.phase is Creating
                &&& begun.1 == (StagingRequest::CreateTexture {
                    size: frame.size,
                    format: if frame.fourcc is Argb8888 || frame.fourcc is Xrgb8888 {
                        Fourcc::Abgr8888
                    } else {
                        frame.fourcc
                    },
                })
                &&& final(staging)@ == old(staging)@
            }
        }),
        final(staging)@.history.newest == old(staging)@.history.newest,
{
}

/// A frame that is to be read whole is rendered in the same way.
pub proof fn readbacks_begin_with_rendering(
    staging: &mut StagingTexture,
    frame: ReadbackFrame,
    begun: (StagedRead, StagingRequest),
)
    requires
        call_ensures(StagingTexture::render_and_readback, (staging, frame), begun),
    ensures
        begun.0.frame == frame,
        begun.0.purpose == Purpose::Readback,
        begun.0.stamp is None,
        ({
            let same = old(staging)@.key matches Some(key) && key.size == frame.size && key.format
                == frame.fourcc && key.context == frame.context;
            let goes_on = old(staging)@.tracker == Some(frame.transform) && frame.same_scale;
            &&& same ==> {
                &&& begun.0.phase is Rendering
                &&& begun.1 == (StagingRequest::Render {
                    new_tracker: !goes_on,
                    size: frame.size,
                    transform: frame.transform,
                })
                &&& final(staging)@.key == old(staging)@.key
                &&& final(staging)@.tracker == Some(frame.transform)
                &&& goes_on ==> final(staging)@.history == old(staging)@.history
                &&& !goes_on ==> final(staging)@.history.frames.len() == 0
            }
            &&& !same ==> {
                &&& begun.0.phase is Creating
                &&& begun.1 == (StagingRequest::CreateTexture {
                    size: frame.size,
                    format: if frame.fourcc is Argb8888 || frame.fourcc is Xrgb8888 {
                        Fourcc::Abgr8888
                    } else {
                        frame.fourcc
                    },
                })
                &&& final(staging)@ == old(staging)@
            }
        }),
        final(staging)@.history.newest == old(staging)@.history.newest,
{
}

/// So is a frame of which a destination is to be given what it misses.
pub proof fn incremental_readbacks_begin_with_rendering(
    staging: &mut StagingTexture,
    frame: ReadbackFrame,
    previous: Option<ContentStamp>,
    begun: (StagedRead, StagingRequest),
)
    requires
        call_ensures(
            StagingTexture::render_incremental_readback,
            (staging, frame, previous),
            begun,
        ),
    ensures
        begun.0.frame == frame,
        begun.0.purpose == Purpose::Incremental(previous),
        begun.0.stamp is None,
        ({
            let same = old(staging)@.key matches Some(key) && key.size == frame.size && key.format
                == frame.fourcc && key.context == frame.context;
            let goes_on = old(staging)@.tracker == Some(frame.transform) && frame.same_scale;
            &&& same ==> {
                &&& begun.0.phase is Rendering
                &&& begun.1 == (StagingRequest::Render {
                    new_tracker: !goes_on,
                    size: frame.size,
                    transform: frame.transform,
                })
                &&& final(staging)@.key == old(staging)@.key
                &&& final(staging)@.tracker == Some(frame.transform)
                &&& goes_on ==> final(staging)@.history == old(staging)@.history
                &&& !goes_on ==> final(staging)@.history.frames.len() == 0
            }
            &&& !same ==> {
                &&& begun.0.phase is Creating
                &&& begun.1 == (StagingRequest::CreateTexture {
                    size: frame.size,
                    format: if frame.fourcc is Argb8888 || frame.fourcc is Xrgb8888 {
                        Fourcc::Abgr8888
                    } else {
                        frame.fourcc
                    },
                })
                &&& final(staging)@ == old(staging)@
            }
        }),
        final(staging)@.history.newest == old(staging)@.history.newest,
{
}

/// A texture that was made is rendered into with a new damage tracker, and no frame is remembered.
/// If it could not be made, the frame is not read, and the old texture stays.
pub proof fn created_textures_are_rendered_into(
    read: &mut StagedRead,
    staging: &mut StagingTexture,
    created: bool,
    step: StagingStep,
)
    requires
        call_ensures(StagedRead::step, (read, staging, StagingReply::Created(created)), step),
        old(read).phase is Creating,
    ensures
        created ==> {
            let frame = old(read).frame;
            &&& step == StagingStep::Ask(
                StagingRequest::Render {
                    new_tracker: true,
                    size: frame.size,
                    transform: frame.transform,
                },
            )
            &&& final(read).phase is Rendering
            &&& final(staging)@.key == Some(
                TextureKey { size: frame.size, format: frame.fourcc, context: frame.context },
            )
            &&& final(staging)@.tracker == Some(frame.transform)
            &&& final(staging)@.history.frames.len() == 0
            &&& final(staging)@.history.newest == old(staging)@.history.newest
        },
        !created ==> {
            &&& step == StagingStep::Finished(Err(StagingError::CreatingTexture))
            &&& final(read).phase is Finished
            &&& final(staging)@ == old(staging)@
        },
        final(read).frame == old(read).frame,
        final(read).stamp == old(read).stamp,
        final(read).purpose == old(read).purpose,
{
}

/// A frame that could not be rendered is not read. The texture then counts as showing nothing,
/// unless it could not even be bound.
pub proof fn failed_renders_are_forgotten(
    read: &mut StagedRead,
    staging: &mut StagingTexture,
    reply: StagingReply,
    step: StagingStep,
)
    requires
        call_ensures(StagedRead::step, (read, staging, reply), step),
        old(read).phase is Rendering,
        reply is NotBound || reply is NotRendered,
    ensures
        reply is NotBound ==> {
            &&& step == StagingStep::Finished(Err(StagingError::BindingTexture))
            &&& final(staging)@ == old(staging)@
        },
        reply is NotRendered ==> {
            &&& step == StagingStep::Finished(Err(StagingError::Rendering))
            &&& final(staging)@.key == old(staging)@.key
            &&& final(staging)@.tracker is None
            &&& final(staging)@.history.frames.len() == 0
            &&& final(staging)@.history.newest == old(staging)@.history.newest
        },
        final(read).phase is Finished,
        final(read).frame == old(read).frame,
        final(read).stamp == old(read).stamp,
        final(read).purpose == old(read).purpose,
{
}

/// A frame that was rendered is remembered with the bounds of what it changed, or with all of it if
/// it is turned. It is then downloaded in its own format, read whole, or read where the destination
/// needs it; if that is nowhere, there is nothing to read.
pub proof fn rendered_frames_are_remembered(
    read: &mut StagedRead,
    staging: &mut StagingTexture,
    damage: Vec<Rect>,
    step: StagingStep,
)
    requires
        call_ensures(StagedRead::step, (read, staging, StagingReply::Rendered(damage)), step),
        old(read).phase is Rendering,
        old(staging)@.wf(),
    ensures
        ({
            let frame = old(read).frame;
            let whole = Rect { x: 0, y: 0, w: frame.size.w, h: frame.size.h };
            let frames = final(staging)@.history.frames;
            &&& final(staging)@.key == old(staging)@.key
            &&& final(staging)@.tracker == old(staging)@.tracker
            &&& frames.len() == if old(staging)@.history.frames.len() < 16 {
                old(staging)@.history.frames.len() + 1
            } else {
                16
            }
            &&& frame.transform is Normal ==> frames.last().bounds
                == crate::render_helpers::readback_damage::bounding(damage@)
            &&& !(frame.transform is Normal) ==> frames.last().bounds == Some(whole)
            &&& old(read).purpose is Download ==> {
                &&& step == StagingStep::Ask(StagingRequest::Download { format: frame.fourcc })
                &&& final(read).phase is Downloading
            }
            &&& old(read).purpose is Readback ==> {
                &&& step == StagingStep::Ask(
                    StagingRequest::ReadRegion {
                        size: frame.size,
                        fourcc: frame.fourcc,
                        region: whole,
                    },
                )
                &&& final(read).phase == (StagingPhase::Reading { region: whole })
            }
            &&& old(read).purpose matches Purpose::Incremental(previous) ==> {
                let needed = crate::render_helpers::readback_damage::region_since(
                    frames,
                    match previous {
                        Some(stamp) => Some(stamp.identity()),
                        None => None,
                    },
                    frame.size,
                );
                &&& final(read).stamp matches Some(stamp)
                &&& stamp.identity() == frames.last().stamp
                &&& needed matches Some(region) ==> {
                    &&& step == StagingStep::Ask(
                        StagingRequest::ReadRegion {
                            size: frame.size,
                            fourcc: frame.fourcc,
                            region,
                        },
                    )
                    &&& final(read).phase == (StagingPhase::Reading { region })
                }
                &&& needed is None ==> {
                    &&& final(read).phase is Finished
                    &&& step matches StagingStep::Finished(Ok(Staged::Incremental(readback)))
                    &&& readback.mapping is Unchanged
                    &&& readback.region is None
                    &&& readback.stamp.identity() == frames.last().stamp
                }
            }
        }),
        final(read).frame == old(read).frame,
        final(read).purpose == old(read).purpose,
{
    let frames = final(staging)@.history.frames;
    assert(frames.drop_last().len() == frames.len() - 1);
}

/// What was read through the pooled buffer is handed on with the region that it fills. Where there
/// was no way, the texture is downloaded whole, in its own format. Errors are handed on too.
pub proof fn read_regions_are_handed_on(
    read: &mut StagedRead,
    staging: &mut StagingTexture,
    result: Result<Option<PooledReadback>, ReadbackError>,
    step: StagingStep,
)
    requires
        call_ensures(StagedRead::step, (read, staging, StagingReply::ReadBack(result)), step),
        old(read).phase is Reading,
        !(old(read).purpose is Download),
    ensures
        final(staging)@ == old(staging)@,
        result matches Err(error) ==> step == StagingStep::Finished(
            Err(StagingError::Readback(error)),
        ) && final(read).phase is Finished,
        result == Ok::<Option<PooledReadback>, ReadbackError>(None) ==> {
            let fourcc = old(read).frame.fourcc;
            &&& final(read).phase is Downloading
            &&& fourcc is Argb8888 || fourcc is Xrgb8888 ==> step == StagingStep::Ask(
                StagingRequest::Download { format: Fourcc::Abgr8888 },
            )
            &&& !(fourcc is Argb8888) && !(fourcc is Xrgb8888) ==> step == StagingStep::Ask(
                StagingRequest::Download { format: fourcc },
            )
        },
        result matches Ok(Some(pooled)) ==> {
            &&& final(read).phase is Finished
            &&& old(read).purpose is Readback ==> step == StagingStep::Finished(
                Ok(Staged::ReadBack(Readback::Pooled(pooled))),
            )
            &&& old(read).purpose is Incremental ==> {
                &&& step matches StagingStep::Finished(Ok(Staged::Incremental(readback)))
                &&& readback.mapping == Readback::Pooled(pooled)
                &&& old(read).phase == (StagingPhase::Reading { region: readback.region->0 })
                &&& readback.region is Some
                &&& readback.stamp.identity() == old(read).stamp->0.identity()
            }
        },
        final(read).frame == old(read).frame,
        final(read).stamp == old(read).stamp,
        final(read).purpose == old(read).purpose,
{
}

/// What was downloaded is handed on as the whole frame, with red first if the frame has blue first.
/// Where it could not be downloaded, the frame is not read.
pub proof fn downloads_are_handed_on_whole(
    read: &mut StagedRead,
    staging: &mut StagingTexture,
    done: bool,
    step: StagingStep,
)
    requires
        call_ensures(StagedRead::step, (read, staging, StagingReply::Downloaded(done)), step),
        old(read).phase is Downloading,
    ensures
        final(staging)@ == old(staging)@,
        final(read).phase is Finished,
        !done ==> step == StagingStep::Finished(Err(StagingError::Downloading)),
        done ==> {
            let frame = old(read).frame;
            let mapping = if frame.fourcc is Argb8888 || frame.fourcc is Xrgb8888 {
                Readback::SmithayRgba
            } else {
                Readback::Smithay
            };
            &&& old(read).purpose is Download ==> step == StagingStep::Finished(
                Ok(Staged::Downloaded),
            )
            &&& old(read).purpose is Readback ==> step == StagingStep::Finished(
                Ok(Staged::ReadBack(mapping)),
            )
            &&& old(read).purpose is Incremental ==> {
                &&& step matches StagingStep::Finished(Ok(Staged::Incremental(readback)))
                &&& readback.mapping == mapping
                &&& readback.region == Some(
                    Rect { x: 0, y: 0, w: frame.size.w, h: frame.size.h },
                )
                &&& readback.stamp.identity() == old(read).stamp->0.identity()
            }
        },
        final(read).frame == old(read).frame,
        final(read).stamp == old(read).stamp,
        final(read).purpose == old(read).purpose,
{
}

/// Whatever the renderer answers to what it was asked is taken, and nothing else is. Damage is
/// areas.
pub proof fn every_answer_is_taken(read: StagedRead, reply: StagingReply)
    ensures
        read.phase is Creating ==> (read.awaits(reply) <==> reply is Created),
        read.phase is Rendering ==> (read.awaits(reply) <==> reply is NotBound || reply is NotRendered
            || (reply matches StagingReply::Rendered(damage) && forall|i: int|
            0 <= i < damage@.len() ==> (#[trigger] damage@[i]).w >= 0 && damage@[i].h >= 0)),
        read.phase is Reading ==> (read.awaits(reply) <==> reply is ReadBack),
        read.phase is Downloading ==> (read.awaits(reply) <==> reply is Downloaded),
        read.phase is Finished ==> !read.awaits(reply),
{
}

/// Frames of any size that is not less than nothing can be rendered, whatever for.
pub proof fn frames_of_any_size_can_be_read(read: StagedRead)
    requires
        read.phase is Creating || read.phase is Rendering || read.phase is Finished,
    ensures
        read.frame.valid() <==> read.frame.size.w >= 0 && read.frame.size.h >= 0,
        read.wf() <==> read.frame.valid(),
{
}

} // verus!
