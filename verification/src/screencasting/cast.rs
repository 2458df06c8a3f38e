//! A cast: one stream of frames to a consumer.

use crate::drm::{Format, FormatSet, Fourcc};
use crate::geometry::{FrameSize, Point, Size};
use crate::screencasting::cast_inner::{CastInner, Inner, SHM_BLOCKS};
use crate::screencasting::cast_state::CastState;
use crate::screencasting::cursor::CursorMode;
use crate::screencasting::delivery::Registrations;
use crate::screencasting::formats::make_video_params_for_initial_negotiation;
use crate::screencasting::params::{Object, ObjectView};
use crate::screencasting::spa::{
    mark_buffer_after_render, mark_buffer_unused, BufferState, DataKind, SharingBuf, StreamBuffer,
};
use crate::screencasting::timing::{check_time, Due, Timespan};
use std::collections::HashMap;
use vstd::prelude::*;

verus! {

broadcast use vstd::std_specs::hash::group_hash_axioms;

/// The node of the media server itself.
pub const CORE_ID: u32 = 0;

/// The status of a broken connection.
pub const BROKEN_PIPE: i32 = -32;

/// What the media server's callbacks tell the compositor.
#[derive(Clone, Copy, Debug, PartialEq, Eq, Structural)]
pub enum PwToNiri {
    StopCast { session_id: u64 },
    Redraw { stream_id: u64 },
    FatalError,
}

/// The connection to the media server.
#[derive(Clone, Copy, Debug, PartialEq, Eq, Structural)]
pub struct PipeWire {
    /// Whether the media server handles cursor metadata well.
    pub supports_cursor_metadata: bool,
}

/// Whether frames of a size can be shown.
#[derive(Clone, Copy, Debug, PartialEq, Eq, Structural)]
pub enum CastSizeChange {
    Ready,
    Pending,
}

/// One stream of frames to a consumer. `G` is what it shows; see `CastInner` for the other
/// parameters.
pub struct Cast<T, D, Y, K, G> {
    pub session_id: u64,
    pub stream_id: u64,
    /// What is shown. It may be changed while the cast runs if it is dynamic.
    pub target: G,
    pub dynamic_target: bool,
    /// The formats of the DMA-BUFs that can be offered.
    pub formats: FormatSet,
    pub offer_alpha: bool,
    pub cursor_mode: CursorMode,
    pub last_frame_time: Timespan,
    pub scheduled_redraw: Option<K>,
    /// Incremented once per successful frame, stored in buffer metadata.
    pub sequence_counter: u64,
    pub inner: CastInner<T, D, Y, K>,
}

/// A cast, as a mathematical value.
pub struct Session<T, D, Y, K, G> {
    pub session_id: u64,
    pub stream_id: u64,
    pub target: G,
    pub dynamic_target: bool,
    pub formats: Seq<Format>,
    pub offer_alpha: bool,
    pub cursor_mode: CursorMode,
    pub last_frame_time: Timespan,
    pub scheduled_redraw: Option<K>,
    pub sequence_counter: u64,
    pub inner: Inner<T, D, Y, K>,
}

impl<T, D, Y, K, G> View for Cast<T, D, Y, K, G> {
    type V = Session<T, D, Y, K, G>;

    open spec fn view(&self) -> Session<T, D, Y, K, G> {
        Session {
            session_id: self.session_id,
            stream_id: self.stream_id,
            target: self.target,
            dynamic_target: self.dynamic_target,
            formats: self.formats@,
            offer_alpha: self.offer_alpha,
            cursor_mode: self.cursor_mode,
            last_frame_time: self.last_frame_time,
            scheduled_redraw: self.scheduled_redraw,
            sequence_counter: self.sequence_counter,
            inner: self.inner@,
        }
    }
}

/// Whether to show a frame now.
#[derive(Debug)]
pub enum Scheduling<K> {
    /// Skip it. If there is a time, a redraw is to be scheduled for it.
    Skip(Option<Timespan>),
    /// Show it. If a redraw was scheduled, it is to be removed.
    Render(Option<K>),
}

/// The damage trackers that have to be made.
#[derive(Clone, Copy, Debug, PartialEq, Eq, Structural)]
pub struct NeededTrackers {
    pub frame: bool,
    pub cursor: bool,
}

/// Whether there is anything to show.
#[derive(Clone, Copy, Debug, PartialEq, Eq, Structural)]
pub enum FrameNeed {
    /// Nothing has changed.
    Skip,
    /// Dequeue a buffer, and draw the cursor anew or not.
    Dequeue { redraw_cursor: bool },
}

/// What to render to.
#[derive(Clone, Copy, Debug, PartialEq, Eq, Structural)]
pub enum RenderTarget {
    Dma { fd: i64 },
    Shm { fd: i64, fourcc: Fourcc },
}

/// What to clear.
#[derive(Clone, Copy, Debug, PartialEq, Eq, Structural)]
pub enum ClearTarget {
    Dma { fd: i64 },
    Shm { fd: i64 },
    /// The buffer does not have the one plane of shared memory.
    WrongBlocks,
    Unknown,
}

pub open spec fn frame_size(size: Size) -> FrameSize {
    FrameSize { w: size.w as u32, h: size.h as u32 }
}

impl<T, D, Y, K, G> Session<T, D, Y, K, G> {
    /// A cast that is about to start.
    pub open spec fn starting(
        pipewire: PipeWire,
        session_id: u64,
        stream_id: u64,
        target: G,
        formats: Seq<Format>,
        size: Size,
        refresh: u32,
        alpha: bool,
        cursor_mode: CursorMode,
    ) -> Session<T, D, Y, K, G> {
        Session {
            session_id,
            stream_id,
            target,
            dynamic_target: false,
            formats,
            offer_alpha: alpha,
            cursor_mode: cursor_mode.supported(pipewire.supports_cursor_metadata),
            last_frame_time: Timespan { nanos: 0 },
            scheduled_redraw: None,
            sequence_counter: 0,
            inner: Inner::starting(frame_size(size), refresh),
        }
    }

    /// What the cast offers in a size.
    pub open spec fn offers(self, size: FrameSize) -> Seq<ObjectView> {
        crate::screencasting::formats::offers(
            self.formats,
            size,
            self.inner.refresh,
            self.offer_alpha,
        )
    }

    /// Whether frames of the size can be shown.
    pub open spec fn shows_size(self, size: FrameSize) -> bool {
        self.inner.state matches CastState::Ready { size: agreed, .. } && agreed == size
    }

    /// The cast once it is to have a size, and what it then offers, if that changes.
    pub open spec fn resized(self, size: FrameSize) -> (
        Session<T, D, Y, K, G>,
        CastSizeChange,
        Option<Seq<ObjectView>>,
    ) {
        if self.shows_size(size) {
            (self, CastSizeChange::Ready, None)
        } else if self.inner.state.awaited_size() == Some(size) {
            (self, CastSizeChange::Pending, None)
        } else {
            (
                Session {
                    inner: Inner {
                        state: CastState::ResizePending { pending_size: size },
                        ..self.inner
                    },
                    ..self
                },
                CastSizeChange::Pending,
                Some(self.offers(size)),
            )
        }
    }

    /// The cast with another limit on its rate, and what it then offers, if that changes.
    pub open spec fn refreshed(self, refresh: u32) -> (
        Session<T, D, Y, K, G>,
        Option<Seq<ObjectView>>,
    ) {
        if self.inner.refresh == refresh {
            (self, None)
        } else {
            let after = Session { inner: Inner { refresh, ..self.inner }, ..self };
            (after, Some(after.offers(self.inner.state.format_size())))
        }
    }

    pub open spec fn due(self, target: Timespan) -> Due {
        crate::screencasting::timing::due(
            self.last_frame_time,
            self.inner.min_time_between_frames,
            target,
        )
    }

    /// The trackers that have to be made. A change of the scale replaces both; a change of the
    /// size has dropped them already.
    pub open spec fn needed_trackers(self, same_scale: bool) -> Option<NeededTrackers> {
        match self.inner.state {
            CastState::Ready { damage_tracker, cursor_damage_tracker, .. } => {
                let replaced = damage_tracker is Some && !same_scale;
                Some(
                    NeededTrackers {
                        frame: damage_tracker is None || replaced,
                        cursor: cursor_damage_tracker is None || replaced,
                    },
                )
            },
            _ => None,
        }
    }

    /// The cast with new trackers.
    pub open spec fn with_trackers(self, frame: Option<T>, cursor: Option<T>) -> Session<T, D, Y, K, G> {
        match self.inner.state {
            CastState::Ready {
                size,
                alpha,
                extra_negotiation_result,
                damage_tracker,
                cursor_damage_tracker,
                last_cursor_location,
            } => Session {
                inner: Inner {
                    state: CastState::Ready {
                        size,
                        alpha,
                        extra_negotiation_result,
                        damage_tracker: if frame is Some {
                            frame
                        } else {
                            damage_tracker
                        },
                        cursor_damage_tracker: if cursor is Some {
                            cursor
                        } else {
                            cursor_damage_tracker
                        },
                        last_cursor_location,
                    },
                    ..self.inner
                },
                ..self
            },
            _ => self,
        }
    }

    /// Where the cursor was last, as far as anything was shown.
    pub open spec fn last_location(self) -> Option<Point> {
        match self.inner.state {
            CastState::Ready { last_cursor_location, .. } => last_cursor_location,
            _ => None,
        }
    }

    /// Whether there is anything to show, where the frame or the cursor has changed or not.
    pub open spec fn frame_need(self, damaged: bool, cursor_damaged: bool, location: Point) -> FrameNeed {
        let described = self.cursor_mode is Metadata;
        let redraw_cursor = described && cursor_damaged;
        if damaged || redraw_cursor || described && self.last_location() != Some(location) {
            FrameNeed::Dequeue { redraw_cursor }
        } else {
            FrameNeed::Skip
        }
    }

    /// The cast with the cursor at a location.
    pub open spec fn at_location(self, location: Point) -> Session<T, D, Y, K, G> {
        match self.inner.state {
            CastState::Ready {
                size,
                alpha,
                extra_negotiation_result,
                damage_tracker,
                cursor_damage_tracker,
                ..
            } => Session {
                inner: Inner {
                    state: CastState::Ready {
                        size,
                        alpha,
                        extra_negotiation_result,
                        damage_tracker,
                        cursor_damage_tracker,
                        last_cursor_location: Some(location),
                    },
                    ..self.inner
                },
                ..self
            },
            _ => self,
        }
    }

    /// What to render to, in the buffer whose first plane has a number.
    pub open spec fn render_target(self, fd: i64) -> Option<RenderTarget> {
        match self.inner.state {
            CastState::Ready { alpha, extra_negotiation_result, .. } => Some(
                if extra_negotiation_result is Some {
                    RenderTarget::Dma { fd }
                } else {
                    RenderTarget::Shm { fd, fourcc: Fourcc::of_alpha(alpha) }
                },
            ),
            _ => None,
        }
    }

    /// The cast without any memory of what was shown.
    pub open spec fn invalidated(self) -> Session<T, D, Y, K, G> {
        Session { inner: Inner { state: self.inner.state.invalidated(), ..self.inner }, ..self }
    }

    /// The cast after the buffer to render to was dequeued, or there was none.
    pub open spec fn dequeued(self, found: bool) -> Session<T, D, Y, K, G> {
        if found {
            Session { inner: Inner { waiting_for_buffer: false, ..self.inner }, ..self }
        } else {
            let forgotten = self.invalidated();
            Session { inner: Inner { waiting_for_buffer: true, ..forgotten.inner }, ..forgotten }
        }
    }

    /// The cast without its damage trackers.
    pub open spec fn without_trackers(self) -> Session<T, D, Y, K, G> {
        match self.inner.state {
            CastState::Ready {
                size,
                alpha,
                extra_negotiation_result,
                last_cursor_location,
                ..
            } => Session {
                inner: Inner {
                    state: CastState::Ready {
                        size,
                        alpha,
                        extra_negotiation_result,
                        damage_tracker: None,
                        cursor_damage_tracker: None,
                        last_cursor_location,
                    },
                    ..self.inner
                },
                ..self
            },
            _ => self,
        }
    }
}

/// What to clear in a buffer.
pub open spec fn clear_target(buffer: BufferState) -> ClearTarget {
    match buffer.planes[0].kind {
        DataKind::DmaBuf => ClearTarget::Dma { fd: buffer.planes[0].fd },
        DataKind::MemFd => if buffer.planes.len() == SHM_BLOCKS {
            ClearTarget::Shm { fd: buffer.planes[0].fd }
        } else {
            ClearTarget::WrongBlocks
        },
        DataKind::Other(_) => ClearTarget::Unknown,
    }
}

impl PipeWire {
    /// A connection to a media server that handles cursor metadata well or not.
    pub fn new(supports_cursor_metadata: bool) -> (pipewire: PipeWire)
        ensures
            pipewire.supports_cursor_metadata == supports_cursor_metadata,
    {
        PipeWire { supports_cursor_metadata }
    }

    /// What to tell the compositor about an error that the media server reports of a node. A
    /// broken connection is fatal.
    pub fn core_error(id: u32, res: i32) -> (message: Option<PwToNiri>)
        ensures
            message == if id == CORE_ID && res == BROKEN_PIPE {
                Some(PwToNiri::FatalError)
            } else {
                None
            },
    {
        if id == CORE_ID && res == BROKEN_PIPE {
            Some(PwToNiri::FatalError)
        } else {
            None
        }
    }

    /// A cast that is about to start, and what it offers.
    pub fn start_cast<T, D, Y, K, G>(
        &self,
        session_id: u64,
        stream_id: u64,
        target: G,
        formats: FormatSet,
        size: Size,
        refresh: u32,
        alpha: bool,
        cursor_mode: CursorMode,
    ) -> (started: (Cast<T, D, Y, K, G>, Vec<Object>))
        ensures
            started.0@ == Session::<T, D, Y, K, G>::starting(
                *self,
                session_id,
                stream_id,
                target,
                formats@,
                size,
                refresh,
                alpha,
                cursor_mode,
            ),
            crate::screencasting::params::views(started.1@) == started.0@.offers(frame_size(size)),
    {
        let pending_size = size.to_frame_size();
        let offers = make_video_params_for_initial_negotiation(
            &formats,
            pending_size,
            refresh,
            alpha,
        );
        let cast = Cast {
            session_id,
            stream_id,
            target,
            dynamic_target: false,
            formats,
            offer_alpha: alpha,
            cursor_mode: cursor_mode.or_embedded(self.supports_cursor_metadata),
            last_frame_time: Timespan::zero(),
            scheduled_redraw: None,
            sequence_counter: 0,
            inner: CastInner::new(pending_size, refresh),
        };
        (cast, offers)
    }
}

impl<T, D, Y, K, G> Cast<T, D, Y, K, G> {
    pub fn is_active(&self) -> (active: bool)
        ensures
            active == self@.inner.is_active,
    {
        self.inner.is_active
    }

    pub fn node_id(&self) -> (id: Option<u32>)
        ensures
            id == self@.inner.node_id,
    {
        self.inner.node_id
    }

    fn make_offers(&self, size: FrameSize) -> (objects: Vec<Object>)
        ensures
            crate::screencasting::params::views(objects@) == self@.offers(size),
    {
        make_video_params_for_initial_negotiation(
            &self.formats,
            size,
            self.inner.refresh,
            self.offer_alpha,
        )
    }

    /// Whether frames of a size can be shown. If not, the stream is to be given the new
    /// parameters, if there are any.
    pub fn ensure_size(&mut self, size: Size) -> (change: (CastSizeChange, Option<Vec<Object>>))
        ensures
            (
                final(self)@,
                change.0,
                match change.1 {
                    Some(objects) => Some(crate::screencasting::params::views(objects@)),
                    None => None,
                },
            ) == old(self)@.resized(frame_size(size)),
    {
        let new_size = size.to_frame_size();
        if let CastState::Ready { size, .. } = &self.inner.state {
            if *size == new_size {
                return (CastSizeChange::Ready, None);
            }
        }
        if let Some(pending) = self.inner.state.pending_size() {
            if pending == new_size {
                return (CastSizeChange::Pending, None);
            }
        }
        self.inner.state = CastState::ResizePending { pending_size: new_size };
        (CastSizeChange::Pending, Some(self.make_offers(new_size)))
    }

    /// Sets the limit on the rate, in thousandths of a frame per second. The stream is to be given
    /// the new parameters, if there are any.
    pub fn set_refresh(&mut self, refresh: u32) -> (objects: Option<Vec<Object>>)
        ensures
            (
                final(self)@,
                match objects {
                    Some(objects) => Some(crate::screencasting::params::views(objects@)),
                    None => None,
                },
            ) == old(self)@.refreshed(refresh),
    {
        if self.inner.refresh == refresh {
            return None;
        }
        self.inner.refresh = refresh;
        let size = self.inner.state.expected_format_size();
        Some(self.make_offers(size))
    }

    /// Checks whether this frame should be skipped because it's too soon.
    ///
    /// If the frame should be skipped, a redraw is to be scheduled, unless there is one already.
    /// Otherwise a scheduled redraw, if any, is to be removed.
    pub fn check_time_and_schedule(&mut self, target: Timespan) -> (scheduling: Scheduling<K>)
        requires
            crate::screencasting::timing::can_tell_due(
                old(self)@.last_frame_time,
                old(self)@.inner.min_time_between_frames,
                target,
            ),
        ensures
            match old(self)@.due(target) {
                Due::At(time) => {
                    &&& scheduling == Scheduling::<K>::Skip(
                        if old(self)@.scheduled_redraw is None {
                            Some(time)
                        } else {
                            None
                        },
                    )
                    &&& final(self)@ == old(self)@
                },
                Due::Now => {
                    &&& scheduling == Scheduling::Render(old(self)@.scheduled_redraw)
                    &&& final(self)@ == (Session { scheduled_redraw: None, ..old(self)@ })
                },
            },
    {
        let due = check_time(self.last_frame_time, self.inner.min_time_between_frames, target);
        match due {
            Due::At(time) => if self.scheduled_redraw.is_some() {
                Scheduling::Skip(None)
            } else {
                Scheduling::Skip(Some(time))
            },
            Due::Now => Scheduling::Render(self.scheduled_redraw.take()),
        }
    }

    /// A redraw is scheduled.
    pub fn redraw_scheduled(&mut self, source: K)
        ensures
            final(self)@ == (Session { scheduled_redraw: Some(source), ..old(self)@ }),
    {
        self.scheduled_redraw = Some(source);
    }

    /// Everything that is registered for the cast, to be removed when it goes away.
    pub fn take_registrations(&mut self) -> (taken: Registrations<K>)
        ensures
            taken.sources@ == old(self)@.inner.fence_sources,
            taken.redraw == old(self)@.scheduled_redraw,
            final(self)@ == (Session {
                scheduled_redraw: None,
                inner: Inner { fence_sources: Map::empty(), ..old(self)@.inner },
                ..old(self)@
            }),
    {
        let mut sources: HashMap<u64, K> = HashMap::new();
        std::mem::swap(&mut self.inner.fence_sources, &mut sources);
        Registrations { sources, redraw: self.scheduled_redraw.take() }
    }

    /// Offers shared memory only, after DMA-BUFs did not work. If that is not possible, the cast
    /// is to be stopped.
    pub fn recover_with_shm(&mut self) -> (recovery: Result<
        Vec<Object>,
        Option<Registrations<K>>,
    >)
        ensures
            ({
                let size = old(self)@.inner.state.format_size();
                let (inner, next) = old(self)@.inner.fallen_back(size, old(self)@.offer_alpha);
                match recovery {
                    Ok(objects) => {
                        &&& next == crate::screencasting::negotiation::NegotiationView::Update(
                            crate::screencasting::params::views(objects@),
                        )
                        &&& final(self)@ == (Session {
                            formats: Seq::empty(),
                            inner,
                            ..old(self)@
                        })
                    },
                    Err(taken) => {
                        &&& next is Stop
                        &&& old(self)@.leaves(taken)
                        &&& final(self)@ == (Session {
                            formats: Seq::empty(),
                            inner,
                            ..old(self)@
                        }).stopped()
                    },
                }
            }),
    {
        self.formats = FormatSet::new();
        let size = self.inner.state.expected_format_size();
        match self.inner.request_shm_fallback(size, self.offer_alpha) {
            Ok(objects) => Ok(objects),
            Err(_) => Err(self.stop_after_sync_failure()),
        }
    }

    /// The damage trackers that have to be made before a frame is shown. There are none before a
    /// format is agreed on, and then no frame can be shown.
    ///
    /// `same_scale` tells whether the present tracker of frames was made for the frame's scale.
    pub fn missing_trackers(&self, same_scale: bool) -> (needed: Option<NeededTrackers>)
        ensures
            needed == self@.needed_trackers(same_scale),
    {
        match &self.inner.state {
            CastState::Ready { damage_tracker, cursor_damage_tracker, .. } => {
                let replaced = damage_tracker.is_some() && !same_scale;
                Some(
                    NeededTrackers {
                        frame: damage_tracker.is_none() || replaced,
                        cursor: cursor_damage_tracker.is_none() || replaced,
                    },
                )
            },
            _ => None,
        }
    }

    /// Keeps trackers that were made.
    pub fn trackers_made(&mut self, frame: Option<T>, cursor: Option<T>)
        ensures
            final(self)@ == old(self)@.with_trackers(frame, cursor),
    {
        match &mut self.inner.state {
            CastState::Ready { damage_tracker, cursor_damage_tracker, .. } => {
                if frame.is_some() {
                    *damage_tracker = frame;
                }
                if cursor.is_some() {
                    *cursor_damage_tracker = cursor;
                }
            },
            _ => {},
        }
    }

    /// Whether there is anything to show, given what the trackers say and where the cursor is.
    pub fn damage_found(&mut self, damaged: bool, cursor_damaged: bool, location: Point) -> (need:
        FrameNeed)
        requires
            old(self)@.inner.state is Ready,
        ensures
            need == old(self)@.frame_need(damaged, cursor_damaged, location),
            final(self)@ == if need is Skip {
                old(self)@
            } else {
                old(self)@.at_location(location)
            },
    {
        let described = self.cursor_mode == CursorMode::Metadata;
        let redraw_cursor = described && cursor_damaged;
        match &mut self.inner.state {
            CastState::Ready { last_cursor_location, .. } => {
                let moved = match last_cursor_location {
                    Some(last) => *last != location,
                    None => true,
                };
                if damaged || redraw_cursor || described && moved {
                    *last_cursor_location = Some(location);
                    FrameNeed::Dequeue { redraw_cursor }
                } else {
                    FrameNeed::Skip
                }
            },
            _ => FrameNeed::Skip,
        }
    }

    /// A buffer was dequeued whose first plane has the given number, or there was none. Without a
    /// buffer the frame does not count as shown, and is drawn when there is one.
    pub fn render_buffer_dequeued(&mut self, fd: Option<i64>) -> (target: Option<RenderTarget>)
        requires
            old(self)@.inner.state is Ready,
        ensures
            final(self)@ == old(self)@.dequeued(fd is Some),
            target == match fd {
                Some(fd) => old(self)@.render_target(fd),
                None => None,
            },
    {
        match fd {
            None => {
                self.inner.state.invalidate_damage();
                self.inner.waiting_for_buffer = true;
                None
            },
            Some(fd) => {
                self.inner.waiting_for_buffer = false;
                match &self.inner.state {
                    CastState::Ready { alpha, extra_negotiation_result, .. } => Some(
                        if extra_negotiation_result.is_some() {
                            RenderTarget::Dma { fd }
                        } else {
                            RenderTarget::Shm { fd, fourcc: Fourcc::for_alpha(*alpha) }
                        },
                    ),
                    _ => None,
                }
            },
        }
    }

    /// A frame was rendered to a buffer, which can now be queued.
    pub fn frame_rendered(&mut self, buffer: &mut StreamBuffer, buf: SharingBuf)
        requires
            old(buffer)@.can_hold(buf),
        ensures
            final(self)@ == (Session {
                sequence_counter: crate::screencasting::spa::next_sequence(
                    old(self)@.sequence_counter,
                ),
                ..old(self)@
            }),
            final(buffer)@ == old(buffer)@.rendered(buf, final(self)@.sequence_counter),
    {
        mark_buffer_after_render(buffer, &mut self.sequence_counter, buf);
    }

    /// A frame could not be rendered to a buffer, which goes back unused. It does not count as
    /// shown.
    pub fn frame_failed(&mut self, buffer: &mut StreamBuffer)
        ensures
            final(self)@ == old(self)@.invalidated(),
            final(buffer)@ == old(buffer)@.unused(),
    {
        self.inner.state.invalidate_damage();
        mark_buffer_unused(buffer);
    }

    /// Forgets the damage trackers, so that whatever is shown afterwards is drawn whole.
    pub fn drop_trackers(&mut self)
        ensures
            final(self)@ == old(self)@.without_trackers(),
    {
        match &mut self.inner.state {
            CastState::Ready { damage_tracker, cursor_damage_tracker, .. } => {
                *damage_tracker = None;
                *cursor_damage_tracker = None;
            },
            _ => {},
        }
    }

    /// What to clear in the buffer that was dequeued.
    pub fn clear_buffer_dequeued(buffer: &StreamBuffer) -> (target: ClearTarget)
        requires
            buffer@.planes.len() > 0,
        ensures
            target == clear_target(buffer@),
    {
        let plane = buffer.planes[0];
        match plane.kind {
            DataKind::DmaBuf => ClearTarget::Dma { fd: plane.fd },
            DataKind::MemFd => if buffer.planes.len() == SHM_BLOCKS {
                ClearTarget::Shm { fd: plane.fd }
            } else {
                ClearTarget::WrongBlocks
            },
            DataKind::Other(_) => ClearTarget::Unknown,
        }
    }
}

/// To ask for a size again changes nothing, and offers nothing anew.
pub proof fn asking_for_a_size_again_changes_nothing<T, D, Y, K, G>(
    session: Session<T, D, Y, K, G>,
    size: FrameSize,
)
    ensures
        ({
            let (after, change, _) = session.resized(size);
            after.resized(size) == (after, change, None::<Seq<ObjectView>>)
        }),
        session.resized(size).1 is Ready ==> session.shows_size(size),
{
}

/// A frame that was not delivered is drawn again even if the scene is static: its trackers are
/// made anew, and the location of the cursor counts as changed.
pub proof fn undelivered_frame_is_drawn_again<T, D, Y, K, G>(
    session: Session<T, D, Y, K, G>,
    same_scale: bool,
    location: Point,
)
    requires
        session.inner.state is Ready,
    ensures
        session.invalidated().needed_trackers(same_scale) == Some(
            NeededTrackers { frame: true, cursor: true },
        ),
        session.dequeued(false).needed_trackers(same_scale) == Some(
            NeededTrackers { frame: true, cursor: true },
        ),
        session.cursor_mode is Metadata ==> session.invalidated().frame_need(
            false,
            false,
            location,
        ) is Dequeue,
{
}

/// Where nothing has changed and the cursor has not moved, no buffer is dequeued.
pub proof fn static_scene_is_not_drawn<T, D, Y, K, G>(session: Session<T, D, Y, K, G>, location: Point)
    requires
        session.last_location() == Some(location),
    ensures
        session.frame_need(false, false, location) is Skip,
{
}

/// The view of a cast tells all that it holds.
pub proof fn cast_view_tells_all<T, D, Y, K, G>(cast: Cast<T, D, Y, K, G>)
    ensures
        cast@.session_id == cast.session_id,
        cast@.stream_id == cast.stream_id,
        cast@.target == cast.target,
        cast@.dynamic_target == cast.dynamic_target,
        cast@.formats == cast.formats@,
        cast@.offer_alpha == cast.offer_alpha,
        cast@.cursor_mode == cast.cursor_mode,
        cast@.last_frame_time == cast.last_frame_time,
        cast@.scheduled_redraw == cast.scheduled_redraw,
        cast@.sequence_counter == cast.sequence_counter,
        cast@.inner == cast.inner@,
{
}

/// A stream has frames of the size that is asked for. What is less than nothing counts from the end
/// of the range of frames.
pub proof fn frame_sizes_are_sizes(size: Size)
    ensures
        size.w >= 0 ==> frame_size(size).w == size.w,
        size.h >= 0 ==> frame_size(size).h == size.h,
        size.w < 0 ==> frame_size(size).w == size.w + 0x1_0000_0000,
        size.h < 0 ==> frame_size(size).h == size.h + 0x1_0000_0000,
{
    let (w, h) = (size.w, size.h);
    assert(w < 0 ==> w as u32 == w + 0x1_0000_0000) by (bit_vector);
    assert(h < 0 ==> h as u32 == h + 0x1_0000_0000) by (bit_vector);
}

/// Only a broken connection to the media server itself is fatal.
pub proof fn broken_connections_are_fatal(id: u32, res: i32, message: Option<PwToNiri>)
    requires
        call_ensures(PipeWire::core_error, (id, res), message),
    ensures
        message is Some <==> id == 0 && res == -32,
        message is Some ==> message->0 is FatalError,
{
}

/// A cast starts with what it is given, has shown nothing, and offers all that is possible in its
/// size. Its pointer is described only if the media server handles that.
pub proof fn casts_start_as_asked<T, D, Y, K, G>(
    pipewire: &PipeWire,
    session_id: u64,
    stream_id: u64,
    target: G,
    formats: FormatSet,
    size: Size,
    refresh: u32,
    alpha: bool,
    cursor_mode: CursorMode,
    started: (Cast<T, D, Y, K, G>, Vec<Object>),
)
    requires
        call_ensures(
            PipeWire::start_cast::<T, D, Y, K, G>,
            (
                pipewire,
                session_id,
                stream_id,
                target,
                formats,
                size,
                refresh,
                alpha,
                cursor_mode,
            ),
            started,
        ),
    ensures
        ({
            let cast = started.0@;
            let wanted = FrameSize { w: size.w as u32, h: size.h as u32 };
            &&& cast.session_id == session_id
            &&& cast.stream_id == stream_id
            &&& cast.target == target
            &&& !cast.dynamic_target
            &&& cast.formats == formats@
            &&& cast.offer_alpha == alpha
            &&& cursor_mode is Metadata && !pipewire.supports_cursor_metadata ==> cast.cursor_mode
                is Embedded
            &&& !(cursor_mode is Metadata) || pipewire.supports_cursor_metadata ==> cast.cursor_mode
                == cursor_mode
            &&& cast.last_frame_time.nanos == 0
            &&& cast.scheduled_redraw is None
            &&& cast.sequence_counter == 0
            &&& cast.inner.state == (CastState::<T>::ResizePending { pending_size: wanted })
            &&& cast.inner.refresh == refresh
            &&& !cast.inner.is_active && !cast.inner.stopping && !cast.inner.waiting_for_buffer
            &&& !cast.inner.dma_failed && cast.inner.node_id is None
            &&& cast.inner.rendering_buffers.len() == 0
            &&& cast.inner.fence_sources == Map::<u64, K>::empty()
            &&& cast.inner.dmabufs == Map::<i64, D>::empty()
            &&& crate::screencasting::params::views(started.1@)
                == crate::screencasting::formats::offers(formats@, wanted, refresh, alpha)
            &&& refresh == 0 ==> cast.inner.min_time_between_frames.nanos == 0
            &&& refresh > 0 ==> {
                let micros = cast.inner.min_time_between_frames.nanos as int / 1000;
                &&& cast.inner.min_time_between_frames.nanos == micros * 1000
                &&& micros * refresh <= 1_000_000_000
                &&& 1_000_000_000 < (micros + 1) * refresh
            }
        }),
{
    crate::screencasting::timing::interval_is_the_length_of_a_frame(
        crate::screencasting::params::Fraction { num: refresh, denom: 1000 },
    );
}

/// After a size is asked for, the stream's format has to have that size. New parameters are handed
/// out exactly if it had to have another one before, and they are the offers in the new size.
pub proof fn asked_size_is_the_size<T, D, Y, K, G>(session: Session<T, D, Y, K, G>, size: FrameSize)
    ensures
        session.resized(size).0.inner.state.format_size() == size,
        session.resized(size).2 is Some <==> session.inner.state.format_size() != size,
        session.resized(size).2 matches Some(offers) ==> offers
            == crate::screencasting::formats::offers(
            session.formats,
            size,
            session.inner.refresh,
            session.offer_alpha,
        ),
{
}

/// After a size is asked for, the cast waits for it or shows it: it goes on as it is exactly if
/// that was so before. Otherwise it waits for the new size, whatever it waited for or showed, and
/// the stream is given the offers in that size. Frames can be shown exactly if they have the size
/// that was agreed on.
pub proof fn size_changes_are_offered<T, D, Y, K, G>(
    cast: &mut Cast<T, D, Y, K, G>,
    size: Size,
    change: (CastSizeChange, Option<Vec<Object>>),
)
    requires
        call_ensures(Cast::<T, D, Y, K, G>::ensure_size, (cast, size), change),
    ensures
        ({
            let wanted = FrameSize { w: size.w as u32, h: size.h as u32 };
            let present = match old(cast)@.inner.state {
                CastState::ResizePending { pending_size } => pending_size,
                CastState::ConfirmationPending { size, .. } => size,
                CastState::Ready { size, .. } => size,
            };
            &&& change.0 is Ready <==> present == wanted && old(cast)@.inner.state is Ready
            &&& change.1 is Some <==> present != wanted
            &&& present == wanted ==> final(cast)@ == old(cast)@
            &&& present != wanted ==> final(cast)@ == (Session {
                inner: Inner {
                    state: CastState::ResizePending { pending_size: wanted },
                    ..old(cast)@.inner
                },
                ..old(cast)@
            })
            &&& change.1 matches Some(objects) ==> crate::screencasting::params::views(objects@)
                == crate::screencasting::formats::offers(
                old(cast)@.formats,
                wanted,
                old(cast)@.inner.refresh,
                old(cast)@.offer_alpha,
            )
        }),
{
}

/// A new limit on the rate is kept, and offered in the size that the format has to have, exactly if
/// it differs from the old one. Nothing else changes.
pub proof fn rate_changes_are_offered<T, D, Y, K, G>(
    cast: &mut Cast<T, D, Y, K, G>,
    refresh: u32,
    objects: Option<Vec<Object>>,
)
    requires
        call_ensures(Cast::<T, D, Y, K, G>::set_refresh, (cast, refresh), objects),
    ensures
        objects is Some <==> refresh != old(cast)@.inner.refresh,
        final(cast)@ == (Session {
            inner: Inner { refresh, ..old(cast)@.inner },
            ..old(cast)@
        }),
        objects matches Some(objects) ==> {
            let present = match old(cast)@.inner.state {
                CastState::ResizePending { pending_size } => pending_size,
                CastState::ConfirmationPending { size, .. } => size,
                CastState::Ready { size, .. } => size,
            };
            crate::screencasting::params::views(objects@) == crate::screencasting::formats::offers(
                old(cast)@.formats,
                present,
                refresh,
                old(cast)@.offer_alpha,
            )
        },
{
}

/// A frame is skipped exactly if it is at least a tenth of a millisecond too soon after the last
/// one. A redraw is then to be scheduled for the time at which it keeps the distance, unless one is
/// scheduled already. A frame that is shown takes a scheduled redraw with it.
pub proof fn frames_too_soon_are_scheduled<T, D, Y, K, G>(
    cast: &mut Cast<T, D, Y, K, G>,
    target: Timespan,
    scheduling: Scheduling<K>,
)
    requires
        crate::screencasting::timing::can_tell_due(
            old(cast)@.last_frame_time,
            old(cast)@.inner.min_time_between_frames,
            target,
        ),
        call_ensures(Cast::<T, D, Y, K, G>::check_time_and_schedule, (cast, target), scheduling),
    ensures
        ({
            let last = old(cast)@.last_frame_time.nanos;
            let min = old(cast)@.inner.min_time_between_frames.nanos;
            let soon = last > 0 && last <= target.nanos && target.nanos + 100_000 <= last + min;
            &&& soon <==> scheduling is Skip
            &&& soon ==> final(cast)@ == old(cast)@
            &&& soon && old(cast)@.scheduled_redraw is Some ==> scheduling == Scheduling::<K>::Skip(
                None,
            )
            &&& soon && old(cast)@.scheduled_redraw is None ==> {
                &&& scheduling matches Scheduling::Skip(Some(time))
                &&& time.nanos == last + min
            }
            &&& !soon ==> {
                &&& scheduling == Scheduling::Render(old(cast)@.scheduled_redraw)
                &&& final(cast)@ == (Session { scheduled_redraw: None, ..old(cast)@ })
            }
        }),
{
}

/// A redraw that is scheduled is kept, and nothing else changes.
pub proof fn scheduled_redraws_are_kept<T, D, Y, K, G>(cast: &mut Cast<T, D, Y, K, G>, source: K)
    requires
        call_ensures(Cast::<T, D, Y, K, G>::redraw_scheduled, (cast, source), ()),
    ensures
        final(cast)@ == (Session { scheduled_redraw: Some(source), ..old(cast)@ }),
{
}

/// A cast that goes away hands back all that is registered, and keeps the rest.
pub proof fn registrations_are_handed_back<T, D, Y, K, G>(
    cast: &mut Cast<T, D, Y, K, G>,
    taken: Registrations<K>,
)
    requires
        call_ensures(Cast::<T, D, Y, K, G>::take_registrations, (cast,), taken),
    ensures
        taken.sources@ == old(cast)@.inner.fence_sources,
        taken.redraw == old(cast)@.scheduled_redraw,
        final(cast)@ == (Session {
            scheduled_redraw: None,
            inner: Inner { fence_sources: Map::empty(), ..old(cast)@.inner },
            ..old(cast)@
        }),
{
}

/// After DMA-BUFs did not work, no format of them is offered any more, and shared memory only is
/// offered in the size that the format has to have. If frames are too large for it, delivery has
/// failed.
pub proof fn recovery_offers_shared_memory<T, D, Y, K, G>(
    cast: &mut Cast<T, D, Y, K, G>,
    recovery: Result<Vec<Object>, Option<Registrations<K>>>,
)
    requires
        call_ensures(Cast::<T, D, Y, K, G>::recover_with_shm, (cast,), recovery),
    ensures
        ({
            let size = match old(cast)@.inner.state {
                CastState::ResizePending { pending_size } => pending_size,
                CastState::ConfirmationPending { size, .. } => size,
                CastState::Ready { size, .. } => size,
            };
            let fits = size.w > 0 && size.h > 0 && size.w * 4 * size.h <= i32::MAX;
            &&& final(cast)@.formats.len() == 0
            &&& fits <==> recovery is Ok
            &&& recovery matches Ok(objects) ==> {
                &&& final(cast)@.inner.state == (CastState::<T>::ConfirmationPending {
                    size,
                    alpha: old(cast)@.offer_alpha,
                    extra_negotiation_result: None,
                })
                &&& final(cast)@ == (Session {
                    formats: final(cast)@.formats,
                    inner: Inner { state: final(cast)@.inner.state, ..old(cast)@.inner },
                    ..old(cast)@
                })
                &&& crate::screencasting::params::views(objects@)
                    == crate::screencasting::formats::offers(
                    Seq::empty(),
                    size,
                    old(cast)@.inner.refresh,
                    old(cast)@.offer_alpha,
                )
            }
            &&& recovery matches Err(taken) ==> {
                &&& final(cast)@.inner.stopping
                &&& final(cast)@.inner.state == old(cast)@.inner.state
                &&& taken is None <==> old(cast)@.inner.stopping
                &&& taken matches Some(taken) ==> {
                    &&& taken.sources@ == old(cast)@.inner.fence_sources
                    &&& taken.redraw == old(cast)@.scheduled_redraw
                    &&& final(cast)@.scheduled_redraw is None
                    &&& !final(cast)@.inner.is_active
                    &&& final(cast)@.inner.fence_sources == Map::<u64, K>::empty()
                }
            }
        }),
{
    let size = old(cast)@.inner.state.format_size();
    let (w, h) = (size.w as int, size.h as int);
    if w > 0 && h > 0 {
        assert(w * 4 * h >= w * 4) by (nonlinear_arith)
            requires
                w > 0,
                h >= 1,
        ;
    }
}

/// Trackers are needed once a format is agreed on: those that are missing, and both if the frame's
/// tracker was made for another scale.
pub proof fn missing_trackers_are_needed<T, D, Y, K, G>(
    cast: &Cast<T, D, Y, K, G>,
    same_scale: bool,
    needed: Option<NeededTrackers>,
)
    requires
        call_ensures(Cast::<T, D, Y, K, G>::missing_trackers, (cast, same_scale), needed),
    ensures
        needed is Some <==> cast@.inner.state is Ready,
        cast@.inner.state matches CastState::Ready { damage_tracker, cursor_damage_tracker, .. }
            ==> {
            &&& needed->0.frame <==> damage_tracker is None || !same_scale
            &&& needed->0.cursor <==> cursor_damage_tracker is None || damage_tracker is Some
                && !same_scale
        },
{
}

/// Trackers that were made replace those that there are, each on its own, and nothing else changes.
pub proof fn made_trackers_are_kept<T, D, Y, K, G>(
    cast: &mut Cast<T, D, Y, K, G>,
    frame: Option<T>,
    cursor: Option<T>,
)
    requires
        call_ensures(Cast::<T, D, Y, K, G>::trackers_made, (cast, frame, cursor), ()),
    ensures
        !(old(cast)@.inner.state is Ready) ==> final(cast)@ == old(cast)@,
        old(cast)@.inner.state matches CastState::Ready {
            size,
            alpha,
            extra_negotiation_result,
            damage_tracker,
            cursor_damage_tracker,
            last_cursor_location,
        } ==> final(cast)@ == (Session {
            inner: Inner {
                state: CastState::Ready {
                    size,
                    alpha,
                    extra_negotiation_result,
                    damage_tracker: if frame is None {
                        damage_tracker
                    } else {
                        frame
                    },
                    cursor_damage_tracker: if cursor is None {
                        cursor_damage_tracker
                    } else {
                        cursor
                    },
                    last_cursor_location,
                },
                ..old(cast)@.inner
            },
            ..old(cast)@
        }),
{
}

/// A buffer is dequeued exactly if the frame has changed, or the pointer is described and has
/// changed or moved. The pointer is then drawn anew exactly if it is described and has changed, and
/// counts as shown where it is.
pub proof fn changes_are_shown<T, D, Y, K, G>(
    cast: &mut Cast<T, D, Y, K, G>,
    damaged: bool,
    cursor_damaged: bool,
    location: Point,
    need: FrameNeed,
)
    requires
        old(cast)@.inner.state is Ready,
        call_ensures(
            Cast::<T, D, Y, K, G>::damage_found,
            (cast, damaged, cursor_damaged, location),
            need,
        ),
    ensures
        old(cast)@.inner.state matches CastState::Ready {
            size,
            alpha,
            extra_negotiation_result,
            damage_tracker,
            cursor_damage_tracker,
            last_cursor_location,
        } ==> {
            let described = old(cast)@.cursor_mode is Metadata;
            &&& need is Dequeue <==> damaged || described && (cursor_damaged
                || last_cursor_location != Some(location))
            &&& need matches FrameNeed::Dequeue { redraw_cursor } ==> {
                &&& redraw_cursor <==> described && cursor_damaged
                &&& final(cast)@ == (Session {
                    inner: Inner {
                        state: CastState::Ready {
                            size,
                            alpha,
                            extra_negotiation_result,
                            damage_tracker,
                            cursor_damage_tracker,
                            last_cursor_location: Some(location),
                        },
                        ..old(cast)@.inner
                    },
                    ..old(cast)@
                })
            }
            &&& need is Skip ==> final(cast)@ == old(cast)@
        },
{
}

/// Frames are rendered to the memory of the buffer that was dequeued, as it was agreed on. Without
/// a buffer the frame waits for one, and does not count as shown.
pub proof fn frames_go_into_the_dequeued_buffer<T, D, Y, K, G>(
    cast: &mut Cast<T, D, Y, K, G>,
    fd: Option<i64>,
    target: Option<RenderTarget>,
)
    requires
        call_ensures(Cast::<T, D, Y, K, G>::render_buffer_dequeued, (cast, fd), target),
    ensures
        old(cast)@.inner.state matches CastState::Ready { size, alpha, extra_negotiation_result, .. }
            ==> {
            &&& fd matches Some(fd) ==> {
                &&& final(cast)@ == (Session {
                    inner: Inner { waiting_for_buffer: false, ..old(cast)@.inner },
                    ..old(cast)@
                })
                &&& extra_negotiation_result is Some ==> target == Some(RenderTarget::Dma { fd })
                &&& extra_negotiation_result is None ==> target == Some(
                    RenderTarget::Shm {
                        fd,
                        fourcc: if alpha {
                            Fourcc::Argb8888
                        } else {
                            Fourcc::Xrgb8888
                        },
                    },
                )
            }
            &&& fd is None ==> {
                &&& target is None
                &&& final(cast)@ == (Session {
                    inner: Inner {
                        waiting_for_buffer: true,
                        state: CastState::Ready {
                            size,
                            alpha,
                            extra_negotiation_result,
                            damage_tracker: None,
                            cursor_damage_tracker: None,
                            last_cursor_location: None,
                        },
                        ..old(cast)@.inner
                    },
                    ..old(cast)@
                })
            }
        },
{
}

/// A frame that was rendered is counted: its number is the one after that of the last frame, and
/// stands in the buffer's header, if it has one. Nothing else of the cast changes.
pub proof fn rendered_frames_are_counted<T, D, Y, K, G>(
    cast: &mut Cast<T, D, Y, K, G>,
    buffer: &mut StreamBuffer,
    buf: SharingBuf,
)
    requires
        call_ensures(Cast::<T, D, Y, K, G>::frame_rendered, (cast, buffer, buf), ()),
    ensures
        old(cast)@.sequence_counter < u64::MAX ==> final(cast)@.sequence_counter == old(
            cast,
        )@.sequence_counter + 1,
        old(cast)@.sequence_counter == u64::MAX ==> final(cast)@.sequence_counter == 0,
        final(cast)@ == (Session {
            sequence_counter: final(cast)@.sequence_counter,
            ..old(cast)@
        }),
        final(buffer)@.header is Some <==> old(buffer)@.header is Some,
        final(buffer)@.header matches Some(header) ==> header.flags == 0 && header.seq
            == final(cast)@.sequence_counter,
        old(buffer)@.can_hold(buf) ==> final(buffer)@.planes.len() == old(buffer)@.planes.len(),
{
}

/// A frame that could not be rendered does not count as shown, and is not counted.
pub proof fn failed_frames_are_forgotten<T, D, Y, K, G>(
    cast: &mut Cast<T, D, Y, K, G>,
    buffer: &mut StreamBuffer,
)
    requires
        call_ensures(Cast::<T, D, Y, K, G>::frame_failed, (cast, buffer), ()),
    ensures
        !(old(cast)@.inner.state is Ready) ==> final(cast)@ == old(cast)@,
        old(cast)@.inner.state matches CastState::Ready { size, alpha, extra_negotiation_result, .. }
            ==> final(cast)@ == (Session {
            inner: Inner {
                state: CastState::Ready {
                    size,
                    alpha,
                    extra_negotiation_result,
                    damage_tracker: None,
                    cursor_damage_tracker: None,
                    last_cursor_location: None,
                },
                ..old(cast)@.inner
            },
            ..old(cast)@
        }),
        final(buffer)@ == old(buffer)@.unused(),
{
}

/// A cast that drops its trackers keeps all else, also where the pointer was shown.
pub proof fn dropped_trackers_are_all_that_goes<T, D, Y, K, G>(cast: &mut Cast<T, D, Y, K, G>)
    requires
        call_ensures(Cast::<T, D, Y, K, G>::drop_trackers, (cast,), ()),
    ensures
        !(old(cast)@.inner.state is Ready) ==> final(cast)@ == old(cast)@,
        old(cast)@.inner.state matches CastState::Ready {
            size,
            alpha,
            extra_negotiation_result,
            last_cursor_location,
            ..
        } ==> final(cast)@ == (Session {
            inner: Inner {
                state: CastState::Ready {
                    size,
                    alpha,
                    extra_negotiation_result,
                    damage_tracker: None,
                    cursor_damage_tracker: None,
                    last_cursor_location,
                },
                ..old(cast)@.inner
            },
            ..old(cast)@
        }),
{
}

/// A buffer is cleared by the kind of its first plane. One in shared memory has no other plane.
pub proof fn buffers_are_cleared_by_their_kind<T, D, Y, K, G>(
    buffer: &StreamBuffer,
    target: ClearTarget,
)
    requires
        call_ensures(Cast::<T, D, Y, K, G>::clear_buffer_dequeued, (buffer,), target),
    ensures
        ({
            let plane = buffer@.planes[0];
            &&& plane.kind is DmaBuf ==> target == (ClearTarget::Dma { fd: plane.fd })
            &&& plane.kind is MemFd && buffer@.planes.len() == 1 ==> target == (ClearTarget::Shm {
                fd: plane.fd,
            })
            &&& plane.kind is MemFd && buffer@.planes.len() != 1 ==> target is WrongBlocks
            &&& plane.kind is Other ==> target is Unknown
        }),
{
}

/// What a cast says of itself is so.
pub proof fn casts_tell_their_state<T, D, Y, K, G>(
    cast: &Cast<T, D, Y, K, G>,
    active: bool,
    id: Option<u32>,
)
    requires
        call_ensures(Cast::<T, D, Y, K, G>::is_active, (cast,), active),
        call_ensures(Cast::<T, D, Y, K, G>::node_id, (cast,), id),
    ensures
        active == cast.inner.is_active,
        id == cast.inner.node_id,
{
}

} // verus!
