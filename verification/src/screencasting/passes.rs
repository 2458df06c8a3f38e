//! Filling one stream buffer: with a frame, or with nothing.
//!
//! A pass asks for one thing after the other, and ends with what is to become of the buffer. While
//! a buffer is dequeued the media server may run callbacks, so a pass holds nothing of the cast.

use crate::screencasting::cast::{
    Cast, ClearTarget, FrameNeed, NeededTrackers, RenderTarget, Session,
};
use crate::screencasting::cursor::{CursorData, CursorMode};
use crate::screencasting::spa::{mark_buffer_unused, SharingBuf, StreamBuffer};
use vstd::prelude::*;

verus! {

broadcast use vstd::std_specs::hash::group_hash_axioms;

/// What a pass that shows a frame asks for.
#[derive(Clone, Copy, Debug, PartialEq, Eq, Structural)]
pub enum RenderRequest {
    /// Make the damage trackers that are needed.
    MakeTrackers(NeededTrackers),
    /// See whether the frame without its first elements has changed, and whether the cursor has if
    /// it is described.
    FindDamage { skip: usize, cursor: bool },
    /// Dequeue a buffer.
    Dequeue,
    /// Describe the cursor in the buffer, and draw it anew or not.
    DescribeCursor { redraw: bool },
    /// Render the frame.
    Render(RenderTarget),
}

/// What such a pass is told.
pub enum RenderEvent<T> {
    TrackersMade { frame: Option<T>, cursor: Option<T> },
    Damage { frame: bool, cursor: bool },
    /// What the buffer says that was dequeued, if one was free.
    Dequeued(Option<StreamBuffer>),
    CursorDescribed,
    Rendered(bool),
}

/// What becomes of a buffer.
pub enum PassEnd {
    /// There is none, since no format is agreed on.
    NotReady,
    /// There is none, since nothing has changed.
    Unchanged,
    /// There is none, since none was free.
    NoBuffer,
    /// It cannot be cleared, and stays with the cast.
    Refused,
    /// It is to say this, and to be queued once its frame is complete.
    Deliver(StreamBuffer),
    /// It says this until the frame is read into its memory.
    Submit(StreamBuffer),
    /// It is to say this, and to be queued without a frame.
    Return(StreamBuffer),
}

/// What to do next.
pub enum RenderStep {
    Ask(RenderRequest),
    Finished(PassEnd),
}

/// Which event a pass that shows a frame waits for.
#[derive(Clone, Copy, Debug, PartialEq, Eq, Structural)]
pub enum RenderPhase {
    Tracking { needed: NeededTrackers },
    Finding,
    Dequeuing { redraw_cursor: bool },
    Describing { target: RenderTarget },
    Rendering { target: RenderTarget },
    Finished,
}

/// A frame on its way into a buffer.
pub struct RenderPass {
    pub cursor: CursorData,
    pub phase: RenderPhase,
    /// What the buffer says that was dequeued.
    pub buffer: Option<StreamBuffer>,
}

/// What a pass that clears a buffer asks for.
#[derive(Clone, Copy, Debug, PartialEq, Eq, Structural)]
pub enum ClearRequest {
    /// Dequeue a buffer.
    Dequeue,
    /// Say in the buffer that the cursor is invisible.
    HideCursor,
    Clear(ClearTarget),
}

/// What such a pass is told.
pub enum ClearEvent {
    /// What the buffer says that was dequeued, if one was free.
    Dequeued(Option<StreamBuffer>),
    CursorHidden,
    Cleared(bool),
}

/// What to do next.
pub enum ClearStep {
    Ask(ClearRequest),
    Finished(PassEnd),
}

/// Which event a pass that clears a buffer waits for.
#[derive(Clone, Copy, Debug, PartialEq, Eq, Structural)]
pub enum ClearPhase {
    Dequeuing,
    Hiding { target: ClearTarget },
    Clearing { target: ClearTarget },
    Finished,
}

/// Nothing on its way into a buffer.
pub struct ClearPass {
    pub phase: ClearPhase,
    /// What the buffer says that was dequeued.
    pub buffer: Option<StreamBuffer>,
}

impl<T, D, Y, K, G> Session<T, D, Y, K, G> {
    /// The state with one more frame.
    pub open spec fn counted(self) -> Session<T, D, Y, K, G> {
        Session {
            sequence_counter: crate::screencasting::spa::next_sequence(self.sequence_counter),
            ..self
        }
    }
}

impl RenderPass {
    /// Whether an event answers the last request.
    pub open spec fn awaits<T>(&self, event: RenderEvent<T>) -> bool {
        match self.phase {
            RenderPhase::Tracking { needed } => match event {
                RenderEvent::TrackersMade { frame, cursor } => {
                    &&& frame is Some <==> needed.frame
                    &&& cursor is Some <==> needed.cursor
                },
                _ => false,
            },
            RenderPhase::Finding => event is Damage,
            RenderPhase::Dequeuing { .. } => match event {
                RenderEvent::Dequeued(Some(buffer)) => buffer@.planes.len() > 0,
                _ => event is Dequeued,
            },
            RenderPhase::Describing { .. } => event is CursorDescribed,
            RenderPhase::Rendering { target } => match event {
                RenderEvent::Rendered(true) => target is Dma ==> self.buffer->0@.can_hold(
                    SharingBuf::Dma,
                ),
                _ => event is Rendered,
            },
            RenderPhase::Finished => false,
        }
    }

    /// A format stays agreed on until a buffer is dequeued; from then on there is the buffer.
    pub open spec fn wf<T, D, Y, K, G>(&self, cast: Session<T, D, Y, K, G>) -> bool {
        match self.phase {
            RenderPhase::Tracking { .. } | RenderPhase::Finding | RenderPhase::Dequeuing { .. } => {
                cast.inner.state is Ready
            },
            RenderPhase::Describing { .. } | RenderPhase::Rendering { .. } => {
                self.buffer matches Some(buffer) && buffer@.planes.len() > 0
            },
            RenderPhase::Finished => true,
        }
    }

    /// Whether `after` is this waiting for another event.
    pub open spec fn goes_on(&self, after: RenderPass, phase: RenderPhase) -> bool {
        &&& after.cursor == self.cursor
        &&& after.phase == phase
        &&& after.buffer == self.buffer
    }

    /// Whether an event leads from here to the given state and step.
    pub open spec fn leads_to<T, D, Y, K, G>(
        &self,
        cast: Session<T, D, Y, K, G>,
        event: RenderEvent<T>,
        after: RenderPass,
        cast_after: Session<T, D, Y, K, G>,
        step: RenderStep,
    ) -> bool {
        match self.phase {
            RenderPhase::Tracking { .. } => {
                &&& cast_after == cast.with_trackers(
                    event->TrackersMade_frame,
                    event->TrackersMade_cursor,
                )
                &&& self.goes_on(after, RenderPhase::Finding)
                &&& step == RenderStep::Ask(
                    RenderRequest::FindDamage {
                        skip: if cast.cursor_mode is Embedded {
                            0
                        } else {
                            self.cursor.elem_count
                        },
                        cursor: cast.cursor_mode is Metadata,
                    },
                )
            },
            RenderPhase::Finding => {
                let need = cast.frame_need(
                    event->Damage_frame,
                    event->Damage_cursor,
                    self.cursor.location,
                );
                match need {
                    FrameNeed::Skip => {
                        &&& cast_after == cast
                        &&& self.goes_on(after, RenderPhase::Finished)
                        &&& step == RenderStep::Finished(PassEnd::Unchanged)
                    },
                    FrameNeed::Dequeue { redraw_cursor } => {
                        &&& cast_after == cast.at_location(self.cursor.location)
                        &&& self.goes_on(after, RenderPhase::Dequeuing { redraw_cursor })
                        &&& step == RenderStep::Ask(RenderRequest::Dequeue)
                    },
                }
            },
            RenderPhase::Dequeuing { redraw_cursor } => match event->Dequeued_0 {
                None => {
                    &&& cast_after == cast.dequeued(false)
                    &&& self.goes_on(after, RenderPhase::Finished)
                    &&& step == RenderStep::Finished(PassEnd::NoBuffer)
                },
                Some(buffer) => {
                    let target = cast.render_target(buffer@.planes[0].fd)->0;
                    &&& cast_after == cast.dequeued(true)
                    &&& after.cursor == self.cursor
                    &&& after.buffer == Some(buffer)
                    &&& if cast.cursor_mode is Metadata {
                        &&& after.phase == (RenderPhase::Describing { target })
                        &&& step == RenderStep::Ask(
                            RenderRequest::DescribeCursor { redraw: redraw_cursor },
                        )
                    } else {
                        &&& after.phase == (RenderPhase::Rendering { target })
                        &&& step == RenderStep::Ask(RenderRequest::Render(target))
                    }
                },
            },
            RenderPhase::Describing { target } => {
                &&& cast_after == cast
                &&& self.goes_on(after, RenderPhase::Rendering { target })
                &&& step == RenderStep::Ask(RenderRequest::Render(target))
            },
            RenderPhase::Rendering { target } => {
                let before = self.buffer->0@;
                &&& after.phase is Finished
                &&& if !event->Rendered_0 {
                    &&& cast_after == cast.invalidated()
                    &&& step matches RenderStep::Finished(PassEnd::Return(buffer))
                    &&& buffer@ == before.unused()
                } else if target is Dma {
                    &&& cast_after == cast.counted()
                    &&& step matches RenderStep::Finished(PassEnd::Deliver(buffer))
                    &&& buffer@ == before.rendered(SharingBuf::Dma, cast_after.sequence_counter)
                } else {
                    &&& cast_after == cast
                    &&& step matches RenderStep::Finished(PassEnd::Submit(buffer))
                    &&& buffer@ == before
                }
            },
            RenderPhase::Finished => false,
        }
    }
}

impl ClearPass {
    /// Whether an event answers the last request. A buffer that was dequeued is one that the cast
    /// knows.
    pub open spec fn awaits<T, D, Y, K, G>(
        &self,
        cast: Session<T, D, Y, K, G>,
        event: ClearEvent,
    ) -> bool {
        match self.phase {
            ClearPhase::Dequeuing => match event {
                ClearEvent::Dequeued(Some(buffer)) => buffer@.planes.len() > 0,
                _ => event is Dequeued,
            },
            ClearPhase::Hiding { .. } => event is CursorHidden,
            ClearPhase::Clearing { target } => {
                &&& event is Cleared
                &&& target is Dma && event == ClearEvent::Cleared(true)
                    ==> self.buffer->0@.can_hold(SharingBuf::Dma)
                &&& target matches ClearTarget::Shm { fd } ==> cast.inner.shmbufs.contains_key(fd)
            },
            ClearPhase::Finished => false,
        }
    }

    /// From when a buffer is dequeued that can be cleared, there is the buffer.
    pub open spec fn wf(&self) -> bool {
        match self.phase {
            ClearPhase::Hiding { target } | ClearPhase::Clearing { target } => {
                &&& self.buffer matches Some(buffer)
                &&& buffer@.planes.len() > 0
                &&& target is Dma || target is Shm
            },
            _ => true,
        }
    }

    /// Whether an event leads from here to the given state and step.
    pub open spec fn leads_to<T, D, Y, K, G>(
        &self,
        cast: Session<T, D, Y, K, G>,
        event: ClearEvent,
        after: ClearPass,
        cast_after: Session<T, D, Y, K, G>,
        step: ClearStep,
    ) -> bool {
        match self.phase {
            ClearPhase::Dequeuing => {
                &&& cast_after == cast
                &&& match event->Dequeued_0 {
                    None => {
                        &&& after.phase is Finished
                        &&& step == ClearStep::Finished(PassEnd::NoBuffer)
                    },
                    Some(buffer) => {
                        let target = crate::screencasting::cast::clear_target(buffer@);
                        if target is WrongBlocks || target is Unknown {
                            &&& after.phase is Finished
                            &&& step == ClearStep::Finished(PassEnd::Refused)
                        } else if cast.cursor_mode is Metadata {
                            &&& after.buffer == Some(buffer)
                            &&& after.phase == (ClearPhase::Hiding { target })
                            &&& step == ClearStep::Ask(ClearRequest::HideCursor)
                        } else {
                            &&& after.buffer == Some(buffer)
                            &&& after.phase == (ClearPhase::Clearing { target })
                            &&& step == ClearStep::Ask(ClearRequest::Clear(target))
                        }
                    },
                }
            },
            ClearPhase::Hiding { target } => {
                &&& cast_after == cast
                &&& after.buffer == self.buffer
                &&& after.phase == (ClearPhase::Clearing { target })
                &&& step == ClearStep::Ask(ClearRequest::Clear(target))
            },
            ClearPhase::Clearing { target } => {
                let before = self.buffer->0@;
                let buf = match target {
                    ClearTarget::Shm { fd } => SharingBuf::Shm(cast.inner.shmbufs[fd].layout),
                    _ => SharingBuf::Dma,
                };
                &&& after.phase is Finished
                &&& if event->Cleared_0 {
                    &&& cast_after == cast.counted()
                    &&& step matches ClearStep::Finished(PassEnd::Deliver(buffer))
                    &&& buffer@ == before.rendered(buf, cast_after.sequence_counter)
                } else {
                    &&& cast_after == cast
                    &&& step matches ClearStep::Finished(PassEnd::Return(buffer))
                    &&& buffer@ == before.unused()
                }
            },
            ClearPhase::Finished => false,
        }
    }
}

impl<T, D, Y, K, G> Cast<T, D, Y, K, G> {
    /// Begins to show a frame with the given cursor.
    ///
    /// `same_scale` tells whether the present tracker of frames was made for the frame's scale.
    pub fn dequeue_buffer_and_render(&self, cursor: CursorData, same_scale: bool) -> (begun: (
        RenderPass,
        RenderStep,
    ))
        ensures
            begun.0.wf(self@),
            begun.0.cursor == cursor,
            begun.0.buffer is None,
            match self@.needed_trackers(same_scale) {
                None => {
                    &&& begun.0.phase is Finished
                    &&& begun.1 == RenderStep::Finished(PassEnd::NotReady)
                },
                Some(needed) => {
                    &&& begun.0.phase == (RenderPhase::Tracking { needed })
                    &&& begun.1 == RenderStep::Ask(RenderRequest::MakeTrackers(needed))
                },
            },
    {
        match self.missing_trackers(same_scale) {
            None => (
                RenderPass { cursor, phase: RenderPhase::Finished, buffer: None },
                RenderStep::Finished(PassEnd::NotReady),
            ),
            Some(needed) => (
                RenderPass { cursor, phase: RenderPhase::Tracking { needed }, buffer: None },
                RenderStep::Ask(RenderRequest::MakeTrackers(needed)),
            ),
        }
    }

    /// Begins to clear a buffer. Whatever is shown afterwards is drawn whole.
    pub fn dequeue_buffer_and_clear(&mut self) -> (begun: (ClearPass, ClearStep))
        ensures
            final(self)@ == old(self)@.without_trackers(),
            begun.0.wf(),
            begun.0.phase is Dequeuing,
            begun.1 == ClearStep::Ask(ClearRequest::Dequeue),
    {
        self.drop_trackers();
        (
            ClearPass { phase: ClearPhase::Dequeuing, buffer: None },
            ClearStep::Ask(ClearRequest::Dequeue),
        )
    }
}

impl RenderPass {
    fn ask_for(&mut self, phase: RenderPhase, request: RenderRequest) -> (step: RenderStep)
        ensures
            old(self).goes_on(*final(self), phase),
            step == RenderStep::Ask(request),
    {
        self.phase = phase;
        RenderStep::Ask(request)
    }

    fn end(&mut self, end: PassEnd) -> (step: RenderStep)
        ensures
            old(self).goes_on(*final(self), RenderPhase::Finished),
            step == RenderStep::Finished(end),
    {
        self.phase = RenderPhase::Finished;
        RenderStep::Finished(end)
    }

    /// Takes what happened on the last request, and decides what to do next.
    pub fn step<T, D, Y, K, G>(
        &mut self,
        cast: &mut Cast<T, D, Y, K, G>,
        event: RenderEvent<T>,
    ) -> (step: RenderStep)
        requires
            old(self).wf(old(cast)@),
            old(self).awaits(event),
        ensures
            old(self).leads_to(old(cast)@, event, *final(self), final(cast)@, step),
            final(self).wf(final(cast)@),
    {
        match (self.phase, event) {
            (RenderPhase::Tracking { .. }, RenderEvent::TrackersMade { frame, cursor }) => {
                cast.trackers_made(frame, cursor);
                // For an embedded cursor, the frame includes the pointer elements.
                let skip: usize = cast.cursor_mode.skipped_elements(self.cursor.elem_count);
                let described = cast.cursor_mode == CursorMode::Metadata;
                self.ask_for(
                    RenderPhase::Finding,
                    RenderRequest::FindDamage { skip, cursor: described },
                )
            },
            (RenderPhase::Finding, RenderEvent::Damage { frame, cursor }) => {
                match cast.damage_found(frame, cursor, self.cursor.location) {
                    FrameNeed::Skip => self.end(PassEnd::Unchanged),
                    FrameNeed::Dequeue { redraw_cursor } => self.ask_for(
                        RenderPhase::Dequeuing { redraw_cursor },
                        RenderRequest::Dequeue,
                    ),
                }
            },
            (RenderPhase::Dequeuing { redraw_cursor }, RenderEvent::Dequeued(found)) => {
                let fd: Option<i64> = match &found {
                    Some(buffer) => Some(buffer.planes[0].fd),
                    None => None,
                };
                match cast.render_buffer_dequeued(fd) {
                    None => self.end(PassEnd::NoBuffer),
                    Some(target) => {
                        self.buffer = found;
                        if cast.cursor_mode == CursorMode::Metadata {
                            self.ask_for(
                                RenderPhase::Describing { target },
                                RenderRequest::DescribeCursor { redraw: redraw_cursor },
                            )
                        } else {
                            self.ask_for(
                                RenderPhase::Rendering { target },
                                RenderRequest::Render(target),
                            )
                        }
                    },
                }
            },
            (RenderPhase::Describing { target }, _) => self.ask_for(
                RenderPhase::Rendering { target },
                RenderRequest::Render(target),
            ),
            (RenderPhase::Rendering { target }, RenderEvent::Rendered(rendered)) => {
                let end = match self.buffer.take() {
                    Some(mut buffer) => if !rendered {
                        cast.frame_failed(&mut buffer);
                        PassEnd::Return(buffer)
                    } else {
                        match target {
                            RenderTarget::Dma { .. } => {
                                cast.frame_rendered(&mut buffer, SharingBuf::Dma);
                                PassEnd::Deliver(buffer)
                            },
                            RenderTarget::Shm { .. } => PassEnd::Submit(buffer),
                        }
                    },
                    None => PassEnd::NoBuffer,
                };
                self.end(end)
            },
            _ => {
                assert(false);
                self.end(PassEnd::NotReady)
            },
        }
    }
}

impl ClearPass {
    fn end(&mut self, end: PassEnd) -> (step: ClearStep)
        ensures
            final(self).phase is Finished,
            step == ClearStep::Finished(end),
    {
        self.phase = ClearPhase::Finished;
        ClearStep::Finished(end)
    }

    /// Takes what happened on the last request, and decides what to do next.
    pub fn step<T, D, Y, K, G>(&mut self, cast: &mut Cast<T, D, Y, K, G>, event: ClearEvent) -> (step:
        ClearStep)
        requires
            old(self).wf(),
            old(self).awaits(old(cast)@, event),
        ensures
            old(self).leads_to(old(cast)@, event, *final(self), final(cast)@, step),
            final(self).wf(),
    {
        match (self.phase, event) {
            (ClearPhase::Dequeuing, ClearEvent::Dequeued(None)) => self.end(PassEnd::NoBuffer),
            (ClearPhase::Dequeuing, ClearEvent::Dequeued(Some(buffer))) => {
                let target = Cast::<T, D, Y, K, G>::clear_buffer_dequeued(&buffer);
                match target {
                    ClearTarget::WrongBlocks | ClearTarget::Unknown => self.end(PassEnd::Refused),
                    ClearTarget::Dma { .. } | ClearTarget::Shm { .. } => {
                        self.buffer = Some(buffer);
                        if cast.cursor_mode == CursorMode::Metadata {
                            self.phase = ClearPhase::Hiding { target };
                            ClearStep::Ask(ClearRequest::HideCursor)
                        } else {
                            self.phase = ClearPhase::Clearing { target };
                            ClearStep::Ask(ClearRequest::Clear(target))
                        }
                    },
                }
            },
            (ClearPhase::Hiding { target }, _) => {
                self.phase = ClearPhase::Clearing { target };
                ClearStep::Ask(ClearRequest::Clear(target))
            },
            (ClearPhase::Clearing { target }, ClearEvent::Cleared(cleared)) => {
                let buf = match target {
                    ClearTarget::Shm { fd } => match cast.inner.shmbufs.get(&fd) {
                        Some(shmbuf) => SharingBuf::Shm(shmbuf.layout),
                        None => SharingBuf::Dma,
                    },
                    _ => SharingBuf::Dma,
                };
                let end = match self.buffer.take() {
                    Some(mut buffer) => if cleared {
                        cast.frame_rendered(&mut buffer, buf);
                        PassEnd::Deliver(buffer)
                    } else {
                        mark_buffer_unused(&mut buffer);
                        PassEnd::Return(buffer)
                    },
                    None => PassEnd::NoBuffer,
                };
                self.end(end)
            },
            _ => {
                assert(false);
                self.end(PassEnd::NotReady)
            },
        }
    }
}

/// A buffer that was dequeued to show a frame is delivered, submitted or returned: it is never
/// kept, and whatever was not delivered does not count as shown.
pub proof fn dequeued_buffer_is_handed_on<T, D, Y, K, G>(
    pass: RenderPass,
    cast: Session<T, D, Y, K, G>,
    event: RenderEvent<T>,
    after: RenderPass,
    cast_after: Session<T, D, Y, K, G>,
    step: RenderStep,
)
    requires
        pass.wf(cast),
        pass.awaits(event),
        pass.leads_to(cast, event, after, cast_after, step),
    ensures
        pass.phase is Describing || pass.phase is Rendering ==> match step {
            RenderStep::Ask(_) => after.buffer == pass.buffer,
            RenderStep::Finished(end) => {
                &&& end is Deliver || end is Submit || end is Return
                &&& end is Return ==> cast_after.inner.state == cast.inner.state.invalidated()
            },
        },
        step matches RenderStep::Finished(PassEnd::NoBuffer) ==> {
            &&& cast_after.inner.waiting_for_buffer
            &&& cast_after.inner.state == cast.inner.state.invalidated()
        },
        step matches RenderStep::Finished(PassEnd::Unchanged) ==> cast_after == cast,
{
}

/// A pass that shows a frame begins with the trackers that are needed, once a format is agreed on.
/// A pass that clears a buffer begins with a buffer, and drops the trackers.
pub proof fn passes_begin<T, D, Y, K, G>(
    cast: &Cast<T, D, Y, K, G>,
    cursor: CursorData,
    same_scale: bool,
    rendering: (RenderPass, RenderStep),
    cleared: &mut Cast<T, D, Y, K, G>,
    clearing: (ClearPass, ClearStep),
)
    requires
        call_ensures(
            Cast::<T, D, Y, K, G>::dequeue_buffer_and_render,
            (cast, cursor, same_scale),
            rendering,
        ),
        call_ensures(Cast::<T, D, Y, K, G>::dequeue_buffer_and_clear, (cleared,), clearing),
    ensures
        rendering.0.cursor == cursor,
        rendering.0.buffer is None,
        rendering.1 == RenderStep::Finished(PassEnd::NotReady) <==> !(cast@.inner.state is Ready),
        rendering.0.phase is Finished <==> !(cast@.inner.state is Ready),
        cast@.inner.state matches crate::screencasting::cast_state::CastState::Ready {
            damage_tracker,
            cursor_damage_tracker,
            ..
        } ==> {
            let needed = NeededTrackers {
                frame: damage_tracker is None || !same_scale,
                cursor: cursor_damage_tracker is None || damage_tracker is Some && !same_scale,
            };
            &&& rendering.1 == RenderStep::Ask(RenderRequest::MakeTrackers(needed))
            &&& rendering.0.phase == (RenderPhase::Tracking { needed })
        },
        clearing.0.phase is Dequeuing,
        clearing.1 == ClearStep::Ask(ClearRequest::Dequeue),
        final(cleared)@ == old(cleared)@.without_trackers(),
{
}

/// With its trackers, a pass looks for changes: of the whole frame if the pointer is part of it,
/// and without the pointer otherwise, and of the pointer alone if it is described.
pub proof fn made_trackers_find_the_damage<T, D, Y, K, G>(
    pass: &mut RenderPass,
    cast: &mut Cast<T, D, Y, K, G>,
    frame: Option<T>,
    cursor: Option<T>,
    step: RenderStep,
)
    requires
        call_ensures(
            RenderPass::step::<T, D, Y, K, G>,
            (pass, cast, RenderEvent::TrackersMade { frame, cursor }),
            step,
        ),
        old(pass).phase is Tracking,
    ensures
        final(pass).phase is Finding,
        final(pass).cursor == old(pass).cursor,
        final(pass).buffer == old(pass).buffer,
        final(cast)@ == old(cast)@.with_trackers(frame, cursor),
        step matches RenderStep::Ask(RenderRequest::FindDamage { skip, cursor }) && {
            &&& old(cast)@.cursor_mode is Embedded ==> skip == 0
            &&& !(old(cast)@.cursor_mode is Embedded) ==> skip == old(pass).cursor.elem_count
            &&& cursor <==> old(cast)@.cursor_mode is Metadata
        },
{
}

/// A buffer is dequeued exactly if the frame has changed, or the pointer is described and has
/// changed or moved. Without a change the pass ends, and nothing changes.
pub proof fn changed_frames_ask_for_a_buffer<T, D, Y, K, G>(
    pass: &mut RenderPass,
    cast: &mut Cast<T, D, Y, K, G>,
    frame: bool,
    cursor: bool,
    step: RenderStep,
)
    requires
        call_ensures(
            RenderPass::step::<T, D, Y, K, G>,
            (pass, cast, RenderEvent::Damage { frame, cursor }),
            step,
        ),
        old(pass).phase is Finding,
        old(cast)@.inner.state is Ready,
    ensures
        old(cast)@.inner.state matches crate::screencasting::cast_state::CastState::Ready {
            last_cursor_location,
            ..
        } ==> {
            let described = old(cast)@.cursor_mode is Metadata;
            let needed = frame || described && (cursor || last_cursor_location != Some(
                old(pass).cursor.location,
            ));
            &&& needed ==> {
                &&& step == RenderStep::Ask(RenderRequest::Dequeue)
                &&& final(pass).phase == (RenderPhase::Dequeuing {
                    redraw_cursor: described && cursor,
                })
                &&& final(cast)@ == old(cast)@.at_location(old(pass).cursor.location)
            }
            &&& !needed ==> {
                &&& step == RenderStep::Finished(PassEnd::Unchanged)
                &&& final(pass).phase is Finished
                &&& final(cast)@ == old(cast)@
            }
        },
        final(pass).cursor == old(pass).cursor,
        final(pass).buffer == old(pass).buffer,
{
}

/// A buffer that was dequeued is rendered to where its first plane is, after the pointer is
/// described in it, if it is described at all. Without a buffer the pass ends, and the frame waits
/// for one.
pub proof fn dequeued_buffers_are_rendered_to<T, D, Y, K, G>(
    pass: &mut RenderPass,
    cast: &mut Cast<T, D, Y, K, G>,
    found: Option<StreamBuffer>,
    step: RenderStep,
)
    requires
        call_ensures(
            RenderPass::step::<T, D, Y, K, G>,
            (pass, cast, RenderEvent::Dequeued(found)),
            step,
        ),
        old(pass).phase is Dequeuing,
        old(cast)@.inner.state is Ready,
    ensures
        final(pass).cursor == old(pass).cursor,
        final(cast)@ == old(cast)@.dequeued(found is Some),
        found is None ==> {
            &&& step == RenderStep::Finished(PassEnd::NoBuffer)
            &&& final(pass).phase is Finished
            &&& final(cast)@.inner.waiting_for_buffer
        },
        found matches Some(buffer) ==> old(cast)@.inner.state matches
            crate::screencasting::cast_state::CastState::Ready {
            alpha,
            extra_negotiation_result,
            ..
        } ==> {
            let fd = buffer@.planes[0].fd;
            let target = if extra_negotiation_result is Some {
                RenderTarget::Dma { fd }
            } else {
                RenderTarget::Shm {
                    fd,
                    fourcc: if alpha {
                        crate::drm::Fourcc::Argb8888
                    } else {
                        crate::drm::Fourcc::Xrgb8888
                    },
                }
            };
            &&& final(pass).buffer == Some(buffer)
            &&& !final(cast)@.inner.waiting_for_buffer
            &&& old(cast)@.cursor_mode is Metadata ==> {
                &&& old(pass).phase matches RenderPhase::Dequeuing { redraw_cursor }
                &&& step == RenderStep::Ask(
                    RenderRequest::DescribeCursor { redraw: redraw_cursor },
                )
                &&& final(pass).phase == (RenderPhase::Describing { target })
            }
            &&& !(old(cast)@.cursor_mode is Metadata) ==> {
                &&& step == RenderStep::Ask(RenderRequest::Render(target))
                &&& final(pass).phase == (RenderPhase::Rendering { target })
            }
        },
{
}

/// After the pointer the frame is rendered.
pub proof fn described_pointers_are_followed_by_the_frame<T, D, Y, K, G>(
    pass: &mut RenderPass,
    cast: &mut Cast<T, D, Y, K, G>,
    step: RenderStep,
)
    requires
        call_ensures(
            RenderPass::step::<T, D, Y, K, G>,
            (pass, cast, RenderEvent::CursorDescribed),
            step,
        ),
        old(pass).phase is Describing,
    ensures
        old(pass).phase matches RenderPhase::Describing { target } ==> {
            &&& step == RenderStep::Ask(RenderRequest::Render(target))
            &&& final(pass).phase == (RenderPhase::Rendering { target })
        },
        final(pass).cursor == old(pass).cursor,
        final(pass).buffer == old(pass).buffer,
        final(cast)@ == old(cast)@,
{
}

/// A buffer that was rendered to is delivered with the next number, or submitted as it is if the
/// frame has yet to be read into its memory. If rendering failed it is returned without a frame,
/// the frame does not count as shown, and no number is used.
pub proof fn rendered_buffers_are_handed_on<T, D, Y, K, G>(
    pass: &mut RenderPass,
    cast: &mut Cast<T, D, Y, K, G>,
    rendered: bool,
    step: RenderStep,
)
    requires
        call_ensures(
            RenderPass::step::<T, D, Y, K, G>,
            (pass, cast, RenderEvent::Rendered(rendered)),
            step,
        ),
        old(pass).phase is Rendering,
    ensures
        ({
            let before = old(pass).buffer->0@;
            let (counter, next) = (old(cast)@.sequence_counter, final(cast)@.sequence_counter);
            let dma = old(pass).phase matches RenderPhase::Rendering { target } && target is Dma;
            &&& final(pass).phase is Finished
            &&& !rendered ==> {
                &&& step matches RenderStep::Finished(PassEnd::Return(buffer))
                &&& buffer@ == before.unused()
                &&& final(cast)@ == (Session {
                    inner: crate::screencasting::cast_inner::Inner {
                        state: old(cast)@.inner.state.invalidated(),
                        ..old(cast)@.inner
                    },
                    ..old(cast)@
                })
            }
            &&& rendered && dma ==> {
                &&& step matches RenderStep::Finished(PassEnd::Deliver(buffer))
                &&& buffer@ == before.rendered(SharingBuf::Dma, next)
                &&& counter < u64::MAX ==> next == counter + 1
                &&& counter == u64::MAX ==> next == 0
                &&& final(cast)@ == (Session { sequence_counter: next, ..old(cast)@ })
            }
            &&& rendered && !dma ==> {
                &&& step matches RenderStep::Finished(PassEnd::Submit(buffer))
                &&& buffer@ == before
                &&& final(cast)@ == old(cast)@
            }
        }),
{
}

/// A buffer that was dequeued is cleared by the kind of its first plane, after the pointer is
/// hidden in it, if it is described at all. A buffer of another kind, or with more than one plane
/// of shared memory, is refused. Without a buffer the pass ends.
pub proof fn dequeued_buffers_are_cleared<T, D, Y, K, G>(
    pass: &mut ClearPass,
    cast: &mut Cast<T, D, Y, K, G>,
    found: Option<StreamBuffer>,
    step: ClearStep,
)
    requires
        call_ensures(
            ClearPass::step::<T, D, Y, K, G>,
            (pass, cast, ClearEvent::Dequeued(found)),
            step,
        ),
        old(pass).phase is Dequeuing,
    ensures
        final(cast)@ == old(cast)@,
        found is None ==> step == ClearStep::Finished(PassEnd::NoBuffer) && final(pass).phase
            is Finished,
        found matches Some(buffer) ==> {
            let plane = buffer@.planes[0];
            let known = plane.kind is DmaBuf || plane.kind is MemFd && buffer@.planes.len() == 1;
            let target = if plane.kind is DmaBuf {
                ClearTarget::Dma { fd: plane.fd }
            } else {
                ClearTarget::Shm { fd: plane.fd }
            };
            &&& !known ==> step == ClearStep::Finished(PassEnd::Refused) && final(pass).phase
                is Finished
            &&& known ==> final(pass).buffer == Some(buffer)
            &&& known && old(cast)@.cursor_mode is Metadata ==> {
                &&& step == ClearStep::Ask(ClearRequest::HideCursor)
                &&& final(pass).phase == (ClearPhase::Hiding { target })
            }
            &&& known && !(old(cast)@.cursor_mode is Metadata) ==> {
                &&& step == ClearStep::Ask(ClearRequest::Clear(target))
                &&& final(pass).phase == (ClearPhase::Clearing { target })
            }
        },
{
}

/// After the pointer is hidden the buffer is cleared.
pub proof fn hidden_pointers_are_followed_by_clearing<T, D, Y, K, G>(
    pass: &mut ClearPass,
    cast: &mut Cast<T, D, Y, K, G>,
    step: ClearStep,
)
    requires
        call_ensures(
            ClearPass::step::<T, D, Y, K, G>,
            (pass, cast, ClearEvent::CursorHidden),
            step,
        ),
        old(pass).phase is Hiding,
    ensures
        old(pass).phase matches ClearPhase::Hiding { target } ==> {
            &&& step == ClearStep::Ask(ClearRequest::Clear(target))
            &&& final(pass).phase == (ClearPhase::Clearing { target })
        },
        final(pass).buffer == old(pass).buffer,
        final(cast)@ == old(cast)@,
{
}

/// A buffer that was cleared is delivered with the next number, as a frame of its kind. If it could
/// not be cleared it is returned without a frame, and nothing else changes.
pub proof fn cleared_buffers_are_handed_on<T, D, Y, K, G>(
    pass: &mut ClearPass,
    cast: &mut Cast<T, D, Y, K, G>,
    cleared: bool,
    step: ClearStep,
)
    requires
        call_ensures(
            ClearPass::step::<T, D, Y, K, G>,
            (pass, cast, ClearEvent::Cleared(cleared)),
            step,
        ),
        old(pass).phase is Clearing,
    ensures
        old(pass).phase matches ClearPhase::Clearing { target } ==> {
            let before = old(pass).buffer->0@;
            let (counter, next) = (old(cast)@.sequence_counter, final(cast)@.sequence_counter);
            &&& final(pass).phase is Finished
            &&& !cleared ==> {
                &&& step matches ClearStep::Finished(PassEnd::Return(buffer))
                &&& buffer@ == before.unused()
                &&& final(cast)@ == old(cast)@
            }
            &&& cleared ==> {
                &&& step matches ClearStep::Finished(PassEnd::Deliver(buffer))
                &&& target is Dma ==> buffer@ == before.rendered(SharingBuf::Dma, next)
                &&& target matches ClearTarget::Shm { fd } ==> buffer@ == before.rendered(
                    SharingBuf::Shm(old(cast)@.inner.shmbufs[fd].layout),
                    next,
                )
                &&& counter < u64::MAX ==> next == counter + 1
                &&& counter == u64::MAX ==> next == 0
                &&& final(cast)@ == (Session { sequence_counter: next, ..old(cast)@ })
            }
        },
{
}

/// Whatever answers what a pass that shows a frame asked for is taken. A buffer has a plane, and
/// one that was rendered to has room for the frame.
pub proof fn every_event_of_a_frame_is_taken<T>(pass: RenderPass, event: RenderEvent<T>)
    ensures
        pass.phase matches RenderPhase::Tracking { needed } ==> (pass.awaits(event) <==> (event matches
            RenderEvent::TrackersMade { frame, cursor } && (frame is Some <==> needed.frame) && (
        cursor is Some <==> needed.cursor))),
        pass.phase is Finding ==> (pass.awaits(event) <==> event is Damage),
        pass.phase is Dequeuing ==> (pass.awaits(event) <==> (event matches RenderEvent::Dequeued(
            found,
        ) && (found is Some ==> found->0@.planes.len() > 0))),
        pass.phase is Describing ==> (pass.awaits(event) <==> event is CursorDescribed),
        pass.phase matches RenderPhase::Rendering { target } ==> (pass.awaits(event) <==> (
        event matches RenderEvent::Rendered(rendered) && (rendered && target is Dma
            ==> pass.buffer->0@.can_hold(SharingBuf::Dma)))),
        pass.phase is Finished ==> !pass.awaits(event),
{
}

/// Whatever answers what a pass that clears a buffer asked for is taken. A buffer has a plane, and
/// one that was cleared has room for a frame, or is one of the cast's buffers in shared memory.
pub proof fn every_event_of_clearing_is_taken<T, D, Y, K, G>(
    pass: ClearPass,
    cast: Session<T, D, Y, K, G>,
    event: ClearEvent,
)
    ensures
        pass.phase is Dequeuing ==> (pass.awaits(cast, event) <==> (event matches
            ClearEvent::Dequeued(found) && (found is Some ==> found->0@.planes.len() > 0))),
        pass.phase is Hiding ==> (pass.awaits(cast, event) <==> event is CursorHidden),
        pass.phase matches ClearPhase::Clearing { target } ==> (pass.awaits(cast, event) <==> (
        event matches ClearEvent::Cleared(cleared) && (cleared && target is Dma
            ==> pass.buffer->0@.can_hold(SharingBuf::Dma)) && (target matches ClearTarget::Shm {
            fd,
        } ==> cast.inner.shmbufs.contains_key(fd)))),
        pass.phase is Finished ==> !pass.awaits(cast, event),
{
}

} // verus!
