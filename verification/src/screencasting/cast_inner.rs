//! The state of a stream that the media server's callbacks work on.

use crate::drm::Fourcc;
use crate::geometry::FrameSize;
use crate::screencasting::cast_state::CastState;
use crate::screencasting::dmabuf_layout::{check_allocation, plane_sizes, DmaPlane, DmabufError};
use crate::screencasting::params::Fraction;
use crate::screencasting::shm_buffer::{Shmbuf, ShmReadback};
use crate::screencasting::spa::{Chunk, DataKind, Plane, StreamBuffer};
use crate::screencasting::timing::{negotiated_frame_interval, Timespan};
use std::collections::HashMap;
use vstd::prelude::*;

verus! {

broadcast use vstd::std_specs::hash::group_hash_axioms;

/// The number of planes of a buffer in shared memory.
pub const SHM_BLOCKS: usize = 1;

/// Mutable state of a cast, shared with the media server's callbacks.
///
/// `T` is a damage tracker, `D` a DMA-BUF, `Y` what tells whether rendering is complete, and `K`
/// what registers a fence with the event loop. Stream buffers are known by number.
pub struct CastInner<T, D, Y, K> {
    pub is_active: bool,
    /// Delivery has failed, and the cast is about to be stopped.
    pub stopping: bool,
    /// A frame could not be shown because no buffer was free.
    pub waiting_for_buffer: bool,
    /// DMA-BUFs do not work, and are not offered any more.
    pub dma_failed: bool,
    pub node_id: Option<u32>,
    pub state: CastState<T>,
    pub refresh: u32,
    pub min_time_between_frames: Timespan,
    pub dmabufs: HashMap<i64, D>,
    pub shmbufs: HashMap<i64, Shmbuf>,
    /// Buffers dequeued from the media server in process of rendering.
    ///
    /// This is an ordered list of buffers that we started rendering to and waiting for the
    /// rendering to complete. The buffers are stored in order from oldest to newest, and the same
    /// ordering is preserved when submitting completed buffers.
    pub rendering_buffers: Vec<(u64, Y)>,
    pub fence_sources: HashMap<u64, K>,
    /// Frames on their way into buffers in shared memory.
    pub pending_shm: HashMap<u64, ShmReadback>,
}

/// The state of a stream, as a mathematical value.
pub struct Inner<T, D, Y, K> {
    pub is_active: bool,
    pub stopping: bool,
    pub waiting_for_buffer: bool,
    pub dma_failed: bool,
    pub node_id: Option<u32>,
    pub state: CastState<T>,
    pub refresh: u32,
    pub min_time_between_frames: Timespan,
    pub dmabufs: Map<i64, D>,
    pub shmbufs: Map<i64, Shmbuf>,
    pub rendering_buffers: Seq<(u64, Y)>,
    pub fence_sources: Map<u64, K>,
    pub pending_shm: Map<u64, ShmReadback>,
}

impl<T, D, Y, K> View for CastInner<T, D, Y, K> {
    type V = Inner<T, D, Y, K>;

    open spec fn view(&self) -> Inner<T, D, Y, K> {
        Inner {
            is_active: self.is_active,
            stopping: self.stopping,
            waiting_for_buffer: self.waiting_for_buffer,
            dma_failed: self.dma_failed,
            node_id: self.node_id,
            state: self.state,
            refresh: self.refresh,
            min_time_between_frames: self.min_time_between_frames,
            dmabufs: self.dmabufs@,
            shmbufs: self.shmbufs@,
            rendering_buffers: self.rendering_buffers@,
            fence_sources: self.fence_sources@,
            pending_shm: self.pending_shm@,
        }
    }
}

/// What the media server says about a stream.
#[derive(Clone, Copy, Debug, PartialEq, Eq, Structural)]
pub enum StreamState {
    Error,
    Unconnected,
    Connecting,
    Paused,
    Streaming,
}

/// What to do when the state of a stream has changed.
#[derive(Clone, Copy, Debug, PartialEq, Eq, Structural)]
pub struct StateAction {
    /// Announce the stream under a node number. If that fails, the cast is stopped.
    pub announce: Option<u32>,
    pub stop: bool,
    pub redraw: bool,
}

/// What to allocate for a new stream buffer.
#[derive(Clone, Copy, Debug, PartialEq, Eq, Structural)]
pub enum BufferRequest {
    /// Nothing, as long as no format is agreed on.
    NotReady,
    Dma { size: FrameSize, fourcc: Fourcc, modifier: u64 },
    Shm { size: FrameSize },
}

impl<T, D, Y, K> Inner<T, D, Y, K> {
    /// A stream that is about to start.
    pub open spec fn starting(size: FrameSize, refresh: u32) -> Inner<T, D, Y, K> {
        Inner {
            is_active: false,
            stopping: false,
            waiting_for_buffer: false,
            dma_failed: false,
            node_id: None,
            state: CastState::ResizePending { pending_size: size },
            refresh,
            min_time_between_frames: match crate::screencasting::timing::frame_interval(
                Fraction { num: refresh, denom: 1000 },
            ) {
                Some(interval) => interval,
                None => Timespan { nanos: 0 },
            },
            dmabufs: Map::empty(),
            shmbufs: Map::empty(),
            rendering_buffers: Seq::empty(),
            fence_sources: Map::empty(),
            pending_shm: Map::empty(),
        }
    }

    /// The state once the media server has said something.
    pub open spec fn after_state(self, new: StreamState, node_id: u32) -> Inner<T, D, Y, K> {
        match new {
            StreamState::Paused => Inner {
                node_id: if self.node_id is None {
                    Some(node_id)
                } else {
                    self.node_id
                },
                is_active: false,
                waiting_for_buffer: false,
                ..self
            },
            StreamState::Error => Inner { is_active: false, ..self },
            StreamState::Streaming => Inner {
                is_active: true,
                state: self.state.invalidated(),
                ..self
            },
            StreamState::Unconnected | StreamState::Connecting => self,
        }
    }

    pub open spec fn state_action(self, new: StreamState, node_id: u32) -> StateAction {
        StateAction {
            announce: if new is Paused && self.node_id is None {
                Some(node_id)
            } else {
                None
            },
            stop: new is Error && self.is_active,
            redraw: new is Streaming,
        }
    }

    /// Whether a frame was skipped that is to be drawn now, and the state in which it no longer
    /// waits.
    pub open spec fn processed(self) -> (Inner<T, D, Y, K>, bool) {
        (
            Inner { waiting_for_buffer: self.waiting_for_buffer && !self.is_active, ..self },
            self.is_active && self.waiting_for_buffer,
        )
    }

    pub open spec fn buffer_request(self) -> BufferRequest {
        match self.state {
            CastState::Ready { size, alpha, extra_negotiation_result, .. } => {
                match extra_negotiation_result {
                    Some(dma) => BufferRequest::Dma {
                        size,
                        fourcc: Fourcc::of_alpha(alpha),
                        modifier: dma.modifier,
                    },
                    None => BufferRequest::Shm { size },
                }
            },
            _ => BufferRequest::NotReady,
        }
    }

    /// Forgets what was shown if there is only one buffer: a resize may leave the stream running
    /// without a state change.
    pub open spec fn first_buffer(self, count: nat) -> Inner<T, D, Y, K> {
        if count == 1 {
            Inner { state: self.state.invalidated(), ..self }
        } else {
            self
        }
    }

    /// The state with another DMA-BUF.
    pub open spec fn with_dmabuf(self, fd: i64, dmabuf: D) -> Inner<T, D, Y, K> {
        let dmabufs = self.dmabufs.insert(fd, dmabuf);
        Inner { dmabufs, ..self }.first_buffer(dmabufs.len())
    }

    /// The state with another buffer in shared memory.
    pub open spec fn with_shmbuf(self, fd: i64, shmbuf: Shmbuf) -> Inner<T, D, Y, K> {
        let shmbufs = self.shmbufs.insert(fd, shmbuf);
        Inner { shmbufs, ..self }.first_buffer(shmbufs.len())
    }

    /// The state without a stream buffer.
    pub open spec fn without_buffer(self, buffer: u64, kind: DataKind, fd: i64) -> Inner<
        T,
        D,
        Y,
        K,
    > {
        Inner {
            fence_sources: self.fence_sources.remove(buffer),
            pending_shm: self.pending_shm.remove(buffer),
            rendering_buffers: without(self.rendering_buffers, buffer),
            dmabufs: if kind is DmaBuf {
                self.dmabufs.remove(fd)
            } else {
                self.dmabufs
            },
            shmbufs: if kind is MemFd {
                self.shmbufs.remove(fd)
            } else {
                self.shmbufs
            },
            ..self
        }
    }
}

/// The list without a buffer.
pub open spec fn without<Y>(buffers: Seq<(u64, Y)>, buffer: u64) -> Seq<(u64, Y)>
    decreases buffers.len(),
{
    if buffers.len() == 0 {
        Seq::empty()
    } else if buffers.last().0 == buffer {
        without(buffers.drop_last(), buffer)
    } else {
        without(buffers.drop_last(), buffer).push(buffers.last())
    }
}

/// A plane of a DMA-BUF as a stream buffer describes it.
pub open spec fn dma_plane(plane: Plane, from: DmaPlane) -> Plane {
    Plane {
        kind: DataKind::DmaBuf,
        shared: true,
        maxsize: from.backing as u32,
        fd: from.fd,
        chunk: Chunk { stride: from.stride as i32, offset: from.offset, ..plane.chunk },
    }
}

/// All planes of a DMA-BUF as a stream buffer describes them.
pub open spec fn dma_planes(planes: Seq<Plane>, from: Seq<DmaPlane>) -> Seq<Plane> {
    Seq::new(planes.len(), |i: int| dma_plane(planes[i], from[i]))
}

/// The plane of a buffer in shared memory as a stream buffer describes it.
pub open spec fn shm_plane(plane: Plane, size: u32, fd: i64) -> Plane {
    Plane { kind: DataKind::MemFd, shared: true, maxsize: size, fd, chunk: plane.chunk }
}

/// What is wrong with a DMA-BUF that was allocated for an agreed modifier.
pub open spec fn dmabuf_error(agreed: u64, allocated: u64, planes: Seq<DmaPlane>, error: DmabufError) -> bool {
    if allocated != agreed {
        error == DmabufError::ModifierDiffers
    } else if !crate::screencasting::dmabuf_layout::strides_fit(planes) {
        error == DmabufError::ExceedsStrideRange
    } else {
        exists|i: int|
            #[trigger] crate::screencasting::dmabuf_layout::first_misfit(planes, i, error)
    }
}

/// Whether a DMA-BUF can be shared that was allocated for an agreed modifier.
pub open spec fn dmabuf_usable(agreed: u64, allocated: u64, planes: Seq<DmaPlane>) -> bool {
    &&& allocated == agreed
    &&& crate::screencasting::dmabuf_layout::strides_fit(planes)
    &&& crate::screencasting::dmabuf_layout::planes_fit(planes)
}

fn remove_from<Y>(buffers: &mut Vec<(u64, Y)>, buffer: u64)
    ensures
        final(buffers)@ == without(old(buffers)@, buffer),
{
    let ghost all = buffers@;
    let ghost mut seen: int = 0;
    let mut kept: usize = 0;
    assert(buffers@.take(0) =~= without(all.take(0), buffer));
    assert(buffers@.skip(0) =~= all.skip(0));
    while kept < buffers.len()
        invariant
            0 <= seen <= all.len(),
            kept <= buffers@.len(),
            buffers@.take(kept as int) == without(all.take(seen), buffer),
            buffers@.skip(kept as int) == all.skip(seen),
        decreases all.len() - seen,
    {
        proof {
            assert(buffers@.skip(kept as int).len() == all.skip(seen).len());
            assert(buffers@.skip(kept as int)[0] == all.skip(seen)[0]);
            assert(all.take(seen + 1).drop_last() =~= all.take(seen));
        }
        let ghost before = buffers@;
        if buffers[kept].0 == buffer {
            buffers.remove(kept);
            assert(buffers@.take(kept as int) =~= before.take(kept as int));
            assert(buffers@.skip(kept as int) =~= before.skip(kept as int).skip(1));
        } else {
            kept = kept + 1;
            assert(buffers@.take(kept as int) =~= before.take(kept - 1).push(before[kept - 1]));
            assert(buffers@.skip(kept as int) =~= before.skip(kept - 1).skip(1));
        }
        proof {
            assert(all.skip(seen).skip(1) =~= all.skip(seen + 1));
            seen = seen + 1;
        }
    }
    proof {
        assert(buffers@.skip(kept as int).len() == 0);
        assert(seen == all.len());
        assert(all.take(seen) =~= all);
        assert(buffers@.take(kept as int) =~= buffers@);
    }
}

impl<T, D, Y, K> CastInner<T, D, Y, K> {
    /// A stream that is about to start.
    pub fn new(size: FrameSize, refresh: u32) -> (inner: CastInner<T, D, Y, K>)
        ensures
            inner@ == Inner::<T, D, Y, K>::starting(size, refresh),
    {
        let min_time_between_frames = match negotiated_frame_interval(
            Fraction { num: refresh, denom: 1000 },
        ) {
            Some(interval) => interval,
            None => Timespan::zero(),
        };
        CastInner {
            is_active: false,
            stopping: false,
            waiting_for_buffer: false,
            dma_failed: false,
            node_id: None,
            state: CastState::ResizePending { pending_size: size },
            refresh,
            min_time_between_frames,
            dmabufs: HashMap::new(),
            shmbufs: HashMap::new(),
            rendering_buffers: Vec::new(),
            fence_sources: HashMap::new(),
            pending_shm: HashMap::new(),
        }
    }

    /// The media server wants to go on. Returns whether to redraw: it is so if a frame was skipped
    /// for want of a buffer.
    pub fn process(&mut self) -> (redraw: bool)
        ensures
            (final(self)@, redraw) == old(self)@.processed(),
    {
        if self.is_active && self.waiting_for_buffer {
            self.waiting_for_buffer = false;
            true
        } else {
            false
        }
    }

    /// The state of the stream has changed; `node_id` is its node number.
    pub fn state_changed(&mut self, new: StreamState, node_id: u32) -> (action: StateAction)
        ensures
            action == old(self)@.state_action(new, node_id),
            final(self)@ == old(self)@.after_state(new, node_id),
    {
        let mut action = StateAction { announce: None, stop: false, redraw: false };
        match new {
            StreamState::Paused => {
                if self.node_id.is_none() {
                    self.node_id = Some(node_id);
                    action.announce = Some(node_id);
                }
                self.is_active = false;
                self.waiting_for_buffer = false;
            },
            StreamState::Error => {
                if self.is_active {
                    self.is_active = false;
                    action.stop = true;
                }
            },
            StreamState::Unconnected => {},
            StreamState::Connecting => {},
            StreamState::Streaming => {
                self.is_active = true;
                self.state.invalidate_damage();
                action.redraw = true;
            },
        }
        action
    }

    /// What to allocate for a new stream buffer.
    pub fn add_buffer(&self) -> (request: BufferRequest)
        ensures
            request == self@.buffer_request(),
    {
        match &self.state {
            CastState::Ready { size, alpha, extra_negotiation_result, .. } => {
                match extra_negotiation_result {
                    Some(dma) => BufferRequest::Dma {
                        size: *size,
                        fourcc: Fourcc::for_alpha(*alpha),
                        modifier: dma.modifier,
                    },
                    None => BufferRequest::Shm { size: *size },
                }
            },
            _ => BufferRequest::NotReady,
        }
    }

    /// Describes a DMA-BUF in the stream buffer that it was allocated for, and keeps it. Returns
    /// whether to redraw. If the DMA-BUF cannot be shared, the cast is to be stopped.
    pub fn dmabuf_allocated(
        &mut self,
        buffer: &mut StreamBuffer,
        dmabuf: D,
        agreed: u64,
        allocated: u64,
        planes: &[DmaPlane],
        streaming: bool,
    ) -> (added: Result<bool, DmabufError>)
        requires
            dmabuf_usable(agreed, allocated, planes@) ==> {
                &&& planes@.len() == old(buffer)@.planes.len()
                &&& planes@.len() > 0
                &&& !old(self)@.dmabufs.contains_key(planes@[0].fd)
            },
        ensures
            added is Ok <==> dmabuf_usable(agreed, allocated, planes@),
            final(buffer)@.header == old(buffer)@.header,
            match added {
                Ok(redraw) => {
                    &&& final(buffer)@.planes == dma_planes(old(buffer)@.planes, planes@)
                    &&& final(self)@ == old(self)@.with_dmabuf(planes@[0].fd, dmabuf)
                    &&& redraw == (streaming && final(self)@.dmabufs.len() == 1)
                },
                Err(error) => {
                    &&& dmabuf_error(agreed, allocated, planes@, error)
                    &&& final(buffer)@.planes == old(buffer)@.planes
                    &&& final(self)@ == old(self)@
                },
            },
    {
        if let Err(error) = check_allocation(agreed, allocated, planes) {
            return Err(error);
        }
        let sizes = match plane_sizes(planes) {
            Ok(sizes) => sizes,
            Err(error) => {
                return Err(error);
            },
        };
        let ghost before = buffer@.planes;
        let mut i: usize = 0;
        while i < planes.len()
            invariant
                i <= planes@.len() == before.len(),
                buffer.planes@.len() == before.len(),
                buffer.header == old(buffer).header,
                sizes@.len() == planes@.len(),
                forall|j: int| 0 <= j < planes@.len() ==> #[trigger] sizes@[j] == planes@[j].backing,
                forall|j: int|
                    0 <= j < i ==> #[trigger] buffer.planes@[j] == dma_plane(before[j], planes@[j]),
                forall|j: int| i <= j < before.len() ==> #[trigger] buffer.planes@[j] == before[j],
            decreases planes@.len() - i,
        {
            let chunk = buffer.planes[i].chunk;
            buffer.planes[i] = Plane {
                kind: DataKind::DmaBuf,
                shared: true,
                // Consumers may use this extent to locate the planes.
                maxsize: sizes[i],
                fd: planes[i].fd,
                chunk: Chunk {
                    offset: planes[i].offset,
                    size: chunk.size,
                    stride: planes[i].stride as i32,
                    flags: chunk.flags,
                },
            };
            i = i + 1;
        }
        assert(buffer.planes@ =~= dma_planes(before, planes@));
        self.dmabufs.insert(planes[0].fd, dmabuf);
        if self.dmabufs.len() == 1 {
            self.state.invalidate_damage();
            Ok(streaming)
        } else {
            Ok(false)
        }
    }

    /// Describes a buffer in shared memory in the stream buffer that it was allocated for, and
    /// keeps it. Returns whether to redraw.
    pub fn shmbuf_allocated(
        &mut self,
        buffer: &mut StreamBuffer,
        shmbuf: Shmbuf,
        fd: i64,
        streaming: bool,
    ) -> (redraw: bool)
        requires
            old(buffer)@.planes.len() == SHM_BLOCKS,
            !old(self)@.shmbufs.contains_key(fd),
        ensures
            final(buffer)@.header == old(buffer)@.header,
            final(buffer)@.planes == seq![
                shm_plane(old(buffer)@.planes[0], shmbuf.layout.size, fd),
            ],
            final(self)@ == old(self)@.with_shmbuf(fd, shmbuf),
            redraw == (streaming && final(self)@.shmbufs.len() == 1),
    {
        let chunk = buffer.planes[0].chunk;
        buffer.planes[0] = Plane {
            kind: DataKind::MemFd,
            shared: true,
            maxsize: shmbuf.layout.size,
            fd,
            chunk,
        };
        self.shmbufs.insert(fd, shmbuf);
        if self.shmbufs.len() == 1 {
            self.state.invalidate_damage();
            streaming
        } else {
            false
        }
    }

    /// Forgets a stream buffer, whose first plane is of the given kind and number. Returns what
    /// registered its fence.
    pub fn remove_buffer(&mut self, buffer: u64, kind: DataKind, fd: i64) -> (source: Option<K>)
        ensures
            final(self)@ == old(self)@.without_buffer(buffer, kind, fd),
            source == if old(self)@.fence_sources.contains_key(buffer) {
                Some(old(self)@.fence_sources[buffer])
            } else {
                None
            },
    {
        let source = self.fence_sources.remove(&buffer);
        self.pending_shm.remove(&buffer);
        remove_from(&mut self.rendering_buffers, buffer);
        match kind {
            DataKind::DmaBuf => {
                self.dmabufs.remove(&fd);
            },
            DataKind::MemFd => {
                self.shmbufs.remove(&fd);
            },
            DataKind::Other(_) => {},
        }
        source
    }
}

/// A frame that was skipped for want of a buffer is drawn once when there is one again, and only
/// while the stream is active.
pub proof fn skipped_frame_is_drawn_once<T, D, Y, K>(inner: Inner<T, D, Y, K>)
    ensures
        inner.is_active && inner.waiting_for_buffer ==> inner.processed().1,
        !inner.is_active ==> inner.processed() == (inner, false),
        !inner.processed().0.processed().1,
{
}

/// A stream that starts, or starts again, forgets what was shown and is drawn, but keeps what was
/// agreed on.
pub proof fn resuming_draws_a_static_scene<T, D, Y, K>(inner: Inner<T, D, Y, K>, node_id: u32)
    ensures
        inner.state_action(StreamState::Streaming, node_id).redraw,
        inner.after_state(StreamState::Streaming, node_id).state == inner.state.invalidated(),
        inner.after_state(StreamState::Streaming, node_id).is_active,
{
}

/// A stream is announced once, with its first node number.
pub proof fn stream_is_announced_once<T, D, Y, K>(inner: Inner<T, D, Y, K>, first: u32, later: u32)
    requires
        inner.node_id is None,
    ensures
        inner.state_action(StreamState::Paused, first).announce == Some(first),
        inner.after_state(StreamState::Paused, first).node_id == Some(first),
        inner.after_state(StreamState::Paused, first).state_action(
            StreamState::Paused,
            later,
        ).announce is None,
{
}

/// A frame can be announced in a stream buffer that describes a DMA-BUF.
pub proof fn described_dmabuf_can_hold_frames(
    planes: Seq<Plane>,
    header: Option<crate::screencasting::spa::Header>,
    from: Seq<DmaPlane>,
)
    requires
        planes.len() == from.len(),
        crate::screencasting::dmabuf_layout::planes_fit(from),
    ensures
        (crate::screencasting::spa::BufferState {
            planes: dma_planes(planes, from),
            header,
        }).can_hold(crate::screencasting::spa::SharingBuf::Dma),
{
    let described = dma_planes(planes, from);
    assert forall|i: int| 0 <= i < described.len() implies (#[trigger] described[i]).chunk.offset
        <= described[i].maxsize by {
        assert(crate::screencasting::dmabuf_layout::storage_size(from[i].backing, from[i].offset)
            is Ok);
    }
}

/// A buffer that the media server has retired is forgotten: it is not waited for, nothing is
/// copied to it, and it is never queued.
pub proof fn retired_buffer_is_forgotten<T, D, Y, K>(
    inner: Inner<T, D, Y, K>,
    buffer: u64,
    kind: DataKind,
    fd: i64,
)
    ensures
        !inner.without_buffer(buffer, kind, fd).fence_sources.contains_key(buffer),
        !inner.without_buffer(buffer, kind, fd).pending_shm.contains_key(buffer),
        forall|i: int|
            0 <= i < inner.without_buffer(buffer, kind, fd).rendering_buffers.len() ==> (
            #[trigger] inner.without_buffer(buffer, kind, fd).rendering_buffers[i]).0 != buffer,
{
    without_leaves_others(inner.rendering_buffers, buffer);
}

proof fn without_leaves_others<Y>(buffers: Seq<(u64, Y)>, buffer: u64)
    ensures
        forall|i: int|
            0 <= i < without(buffers, buffer).len() ==> (#[trigger] without(buffers, buffer)[i]).0
                != buffer,
    decreases buffers.len(),
{
    if buffers.len() > 0 {
        let shorter = without(buffers.drop_last(), buffer);
        without_leaves_others(buffers.drop_last(), buffer);
        assert forall|i: int| 0 <= i < without(buffers, buffer).len() implies (
        #[trigger] without(buffers, buffer)[i]).0 != buffer by {
            if i < shorter.len() {
                assert(without(buffers, buffer)[i] == shorter[i]);
            }
        }
    }
}

/// The view of a stream's state tells all that it holds.
pub proof fn inner_view_tells_all<T, D, Y, K>(inner: CastInner<T, D, Y, K>)
    ensures
        inner@.is_active == inner.is_active,
        inner@.stopping == inner.stopping,
        inner@.waiting_for_buffer == inner.waiting_for_buffer,
        inner@.dma_failed == inner.dma_failed,
        inner@.node_id == inner.node_id,
        inner@.state == inner.state,
        inner@.refresh == inner.refresh,
        inner@.min_time_between_frames == inner.min_time_between_frames,
        inner@.dmabufs == inner.dmabufs@,
        inner@.shmbufs == inner.shmbufs@,
        inner@.rendering_buffers == inner.rendering_buffers@,
        inner@.fence_sources == inner.fence_sources@,
        inner@.pending_shm == inner.pending_shm@,
{
}

/// A stream starts inactive, without a node, without buffers, and waiting for a format of its size.
/// Frames come no closer than at its refresh rate, which is in thousandths of a frame per second.
pub proof fn streams_start_waiting_for_a_format<T, D, Y, K>(
    size: FrameSize,
    refresh: u32,
    inner: CastInner<T, D, Y, K>,
)
    requires
        call_ensures(CastInner::<T, D, Y, K>::new, (size, refresh), inner),
    ensures
        !inner.is_active && !inner.stopping && !inner.waiting_for_buffer && !inner.dma_failed,
        inner.node_id is None,
        inner.state == (CastState::<T>::ResizePending { pending_size: size }),
        inner.refresh == refresh,
        refresh == 0 ==> inner.min_time_between_frames.nanos == 0,
        refresh > 0 ==> {
            let micros = inner.min_time_between_frames.nanos as int / 1000;
            &&& inner.min_time_between_frames.nanos == micros * 1000
            &&& micros * refresh <= 1_000_000_000
            &&& 1_000_000_000 < (micros + 1) * refresh
        },
        inner.dmabufs@ == Map::<i64, D>::empty(),
        inner.shmbufs@ == Map::<i64, Shmbuf>::empty(),
        inner.rendering_buffers@.len() == 0,
        inner.fence_sources@ == Map::<u64, K>::empty(),
        inner.pending_shm@ == Map::<u64, ShmReadback>::empty(),
{
    crate::screencasting::timing::interval_is_the_length_of_a_frame(
        Fraction { num: refresh, denom: 1000 },
    );
}

/// A stream that wants to go on is drawn exactly if it is active and a frame was skipped for want
/// of a buffer; that frame then waits no longer. Nothing else changes.
pub proof fn going_on_draws_a_skipped_frame<T, D, Y, K>(
    inner: &mut CastInner<T, D, Y, K>,
    redraw: bool,
)
    requires
        call_ensures(CastInner::<T, D, Y, K>::process, (inner,), redraw),
    ensures
        redraw <==> old(inner)@.is_active && old(inner)@.waiting_for_buffer,
        redraw ==> final(inner)@ == (Inner { waiting_for_buffer: false, ..old(inner)@ }),
        !redraw ==> final(inner)@ == old(inner)@,
{
}

/// A stream that is paused takes its first node number and announces it, is inactive, and waits for
/// nothing. One that fails stops if it was active. One that streams is active, forgets what was
/// shown, and is drawn. Other states change nothing.
pub proof fn stream_follows_the_media_server<T, D, Y, K>(
    inner: &mut CastInner<T, D, Y, K>,
    new: StreamState,
    node_id: u32,
    action: StateAction,
)
    requires
        call_ensures(CastInner::<T, D, Y, K>::state_changed, (inner, new, node_id), action),
    ensures
        ({
            let before = old(inner)@;
            let after = final(inner)@;
            match new {
                StreamState::Paused => {
                    &&& !action.stop && !action.redraw
                    &&& before.node_id is None ==> action.announce == Some(node_id) && after
                        == (Inner {
                        node_id: Some(node_id),
                        is_active: false,
                        waiting_for_buffer: false,
                        ..before
                    })
                    &&& before.node_id is Some ==> action.announce is None && after == (Inner {
                        is_active: false,
                        waiting_for_buffer: false,
                        ..before
                    })
                },
                StreamState::Error => {
                    &&& action.announce is None && !action.redraw
                    &&& action.stop <==> before.is_active
                    &&& after == (Inner { is_active: false, ..before })
                },
                StreamState::Streaming => {
                    &&& action.announce is None && !action.stop && action.redraw
                    &&& after.is_active
                    &&& after == (Inner { is_active: true, state: after.state, ..before })
                    &&& match before.state {
                        CastState::Ready { size, alpha, extra_negotiation_result, .. } => after.state
                            == (CastState::<T>::Ready {
                            size,
                            alpha,
                            extra_negotiation_result,
                            damage_tracker: None,
                            cursor_damage_tracker: None,
                            last_cursor_location: None,
                        }),
                        _ => after.state == before.state,
                    }
                },
                _ => {
                    &&& action.announce is None && !action.stop && !action.redraw
                    &&& after == before
                },
            }
        }),
{
}

/// A buffer is what was agreed on: a DMA-BUF in the agreed size, format and layout, or shared
/// memory in the agreed size, and nothing before a format is agreed on.
pub proof fn buffers_are_what_was_agreed_on<T, D, Y, K>(
    inner: &CastInner<T, D, Y, K>,
    request: BufferRequest,
)
    requires
        call_ensures(CastInner::<T, D, Y, K>::add_buffer, (inner,), request),
    ensures
        request is NotReady <==> !(inner@.state is Ready),
        inner@.state matches CastState::Ready { size, alpha, extra_negotiation_result, .. } ==> {
            &&& extra_negotiation_result is None ==> request == (BufferRequest::Shm { size })
            &&& extra_negotiation_result matches Some(dma) ==> request == (BufferRequest::Dma {
                size,
                fourcc: if alpha {
                    Fourcc::Argb8888
                } else {
                    Fourcc::Xrgb8888
                },
                modifier: dma.modifier,
            })
        },
{
}

/// A DMA-BUF is shared exactly if it has the agreed layout, its rows have a length that a stream
/// buffer can tell, and each plane begins inside storage whose size it can tell. It is then known
/// by the number of its first plane. The first buffer of a stream makes it forget what was shown,
/// and is drawn if the stream runs.
pub proof fn usable_dmabufs_are_kept<T, D, Y, K>(
    inner: &mut CastInner<T, D, Y, K>,
    buffer: &mut StreamBuffer,
    dmabuf: D,
    agreed: u64,
    allocated: u64,
    planes: &[DmaPlane],
    streaming: bool,
    added: Result<bool, DmabufError>,
)
    requires
        call_ensures(
            CastInner::<T, D, Y, K>::dmabuf_allocated,
            (inner, buffer, dmabuf, agreed, allocated, planes, streaming),
            added,
        ),
    ensures
        added is Ok <==> allocated == agreed && (forall|i: int|
            0 <= i < planes@.len() ==> {
                &&& (#[trigger] planes@[i]).stride <= 0x7fff_ffff
                &&& planes@[i].offset < planes@[i].backing <= 0xffff_ffff
            }),
        added matches Ok(redraw) ==> {
            let dmabufs = old(inner)@.dmabufs.insert(planes@[0].fd, dmabuf);
            let (before, after) = (old(inner)@, final(inner)@);
            &&& redraw <==> streaming && dmabufs.len() == 1
            &&& after == (Inner { dmabufs, state: after.state, ..before })
            &&& dmabufs.len() != 1 || !(before.state is Ready) ==> after.state == before.state
            &&& dmabufs.len() == 1 ==> (before.state matches CastState::Ready {
                size,
                alpha,
                extra_negotiation_result,
                ..
            } ==> after.state == (CastState::<T>::Ready {
                size,
                alpha,
                extra_negotiation_result,
                damage_tracker: None,
                cursor_damage_tracker: None,
                last_cursor_location: None,
            }))
        },
        added is Err ==> final(inner)@ == old(inner)@ && final(buffer)@.planes == old(
            buffer,
        )@.planes,
        final(buffer)@.header == old(buffer)@.header,
        allocated != agreed ==> added == Err::<bool, DmabufError>(DmabufError::ModifierDiffers),
        allocated == agreed ==> (added == Err::<bool, DmabufError>(DmabufError::ExceedsStrideRange)
            <==> exists|i: int| 0 <= i < planes@.len() && (#[trigger] planes@[i]).stride
            > 0x7fff_ffff),
{
    if forall|i: int|
        0 <= i < planes@.len() ==> {
            &&& (#[trigger] planes@[i]).stride <= 0x7fff_ffff
            &&& planes@[i].offset < planes@[i].backing <= 0xffff_ffff
        } {
        assert(crate::screencasting::dmabuf_layout::planes_fit(planes@));
    } else if crate::screencasting::dmabuf_layout::planes_fit(planes@)
        && crate::screencasting::dmabuf_layout::strides_fit(planes@) {
        let i = choose|i: int|
            0 <= i < planes@.len() && !{
                &&& (#[trigger] planes@[i]).stride <= 0x7fff_ffff
                &&& planes@[i].offset < planes@[i].backing <= 0xffff_ffff
            };
        assert(crate::screencasting::dmabuf_layout::storage_size(
            planes@[i].backing,
            planes@[i].offset,
        ) is Ok);
    }
}

/// A stream buffer describes each plane of a DMA-BUF with its number, its stride, where it begins,
/// and the whole size of its storage, and leaves what it says of the frame.
pub proof fn dmabuf_planes_are_described<T, D, Y, K>(
    inner: &mut CastInner<T, D, Y, K>,
    buffer: &mut StreamBuffer,
    dmabuf: D,
    agreed: u64,
    allocated: u64,
    planes: &[DmaPlane],
    streaming: bool,
    added: Result<bool, DmabufError>,
    i: int,
)
    requires
        call_ensures(
            CastInner::<T, D, Y, K>::dmabuf_allocated,
            (inner, buffer, dmabuf, agreed, allocated, planes, streaming),
            added,
        ),
        added is Ok,
        planes@.len() == old(buffer)@.planes.len(),
        0 <= i < planes@.len(),
    ensures
        final(buffer)@.planes.len() == planes@.len(),
        ({
            let (before, after) = (old(buffer)@.planes[i], final(buffer)@.planes[i]);
            &&& after.kind is DmaBuf
            &&& after.shared
            &&& after.maxsize == planes@[i].backing
            &&& after.fd == planes@[i].fd
            &&& after.chunk.offset == planes@[i].offset
            &&& after.chunk.stride == planes@[i].stride
            &&& after.chunk.size == before.chunk.size
            &&& after.chunk.flags == before.chunk.flags
        }),
{
    assert(crate::screencasting::dmabuf_layout::storage_size(
        planes@[i].backing,
        planes@[i].offset,
    ) is Ok);
}

/// A buffer in shared memory is known by its number and described with its whole size, and what the
/// stream buffer says of the frame stays. The first one makes the stream forget what was shown, and
/// is drawn if the stream runs.
pub proof fn shared_memory_is_described_and_kept<T, D, Y, K>(
    inner: &mut CastInner<T, D, Y, K>,
    buffer: &mut StreamBuffer,
    shmbuf: Shmbuf,
    fd: i64,
    streaming: bool,
    redraw: bool,
)
    requires
        call_ensures(
            CastInner::<T, D, Y, K>::shmbuf_allocated,
            (inner, buffer, shmbuf, fd, streaming),
            redraw,
        ),
    ensures
        final(buffer)@.header == old(buffer)@.header,
        final(buffer)@.planes.len() == 1,
        ({
            let after = final(buffer)@.planes[0];
            &&& after.kind is MemFd
            &&& after.shared
            &&& after.maxsize == shmbuf.layout.size
            &&& after.fd == fd
            &&& after.chunk == old(buffer)@.planes[0].chunk
        }),
        ({
            let shmbufs = old(inner)@.shmbufs.insert(fd, shmbuf);
            let (before, after) = (old(inner)@, final(inner)@);
            &&& redraw <==> streaming && shmbufs.len() == 1
            &&& after == (Inner { shmbufs, state: after.state, ..before })
            &&& shmbufs.len() != 1 || !(before.state is Ready) ==> after.state == before.state
            &&& shmbufs.len() == 1 ==> (before.state matches CastState::Ready {
                size,
                alpha,
                extra_negotiation_result,
                ..
            } ==> after.state == (CastState::<T>::Ready {
                size,
                alpha,
                extra_negotiation_result,
                damage_tracker: None,
                cursor_damage_tracker: None,
                last_cursor_location: None,
            }))
        }),
        SHM_BLOCKS == 1,
{
}

/// Of two lists one after the other, what is left without a buffer is what is left of the first and
/// then what is left of the second.
pub proof fn leaving_out_keeps_the_order<Y>(
    first: Seq<(u64, Y)>,
    second: Seq<(u64, Y)>,
    buffer: u64,
)
    ensures
        without(first + second, buffer) == without(first, buffer) + without(second, buffer),
    decreases second.len(),
{
    if second.len() == 0 {
        assert(first + second =~= first);
        assert(without(first, buffer) + without(second, buffer) =~= without(first, buffer));
    } else {
        leaving_out_keeps_the_order(first, second.drop_last(), buffer);
        assert((first + second).drop_last() =~= first + second.drop_last());
        assert(without(first + second, buffer) =~= without(first, buffer) + without(
            second,
            buffer,
        ));
    }
}

/// A list of one buffer is empty without that buffer, and stays as it is without another.
pub proof fn leaving_out_one_buffer<Y>(entry: (u64, Y), buffer: u64)
    ensures
        without(Seq::<(u64, Y)>::empty(), buffer) == Seq::<(u64, Y)>::empty(),
        entry.0 == buffer ==> without(seq![entry], buffer) == Seq::<(u64, Y)>::empty(),
        entry.0 != buffer ==> without(seq![entry], buffer) == seq![entry],
{
    assert(seq![entry].drop_last() =~= Seq::empty());
    assert(without(seq![entry].drop_last(), buffer) =~= Seq::empty());
    if entry.0 != buffer {
        assert(without(seq![entry], buffer) =~= seq![entry]);
    }
}

/// A retired buffer is forgotten, with its fence, which is handed back, its pending readback, and
/// the memory of its kind. All other buffers, and all else, stay.
pub proof fn retiring_forgets_one_buffer<T, D, Y, K>(
    inner: &mut CastInner<T, D, Y, K>,
    buffer: u64,
    kind: DataKind,
    fd: i64,
    source: Option<K>,
)
    requires
        call_ensures(CastInner::<T, D, Y, K>::remove_buffer, (inner, buffer, kind, fd), source),
    ensures
        ({
            let (before, after) = (old(inner)@, final(inner)@);
            &&& source is Some <==> before.fence_sources.contains_key(buffer)
            &&& source matches Some(source) ==> before.fence_sources[buffer] == source
            &&& after == (Inner {
                fence_sources: before.fence_sources.remove(buffer),
                pending_shm: before.pending_shm.remove(buffer),
                rendering_buffers: without(before.rendering_buffers, buffer),
                dmabufs: after.dmabufs,
                shmbufs: after.shmbufs,
                ..before
            })
            &&& kind is DmaBuf ==> after.dmabufs == before.dmabufs.remove(fd) && after.shmbufs
                == before.shmbufs
            &&& kind is MemFd ==> after.shmbufs == before.shmbufs.remove(fd) && after.dmabufs
                == before.dmabufs
            &&& kind is Other ==> after.dmabufs == before.dmabufs && after.shmbufs
                == before.shmbufs
        }),
{
}

} // verus!
