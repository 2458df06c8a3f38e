//! Handing rendered frames to the media server, in their order and not before they are complete.

use crate::screencasting::cast::{Cast, Session};
use crate::screencasting::cast_inner::{CastInner, Inner};
use crate::screencasting::fence_export::UnfinishedFence;
use crate::screencasting::queue_result::check_queue_result;
use crate::screencasting::shm_buffer::ShmReadback;
use std::collections::HashMap;
use vstd::prelude::*;

verus! {

broadcast use vstd::std_specs::hash::group_hash_axioms;

/// What has to be removed from the event loop when a cast stops.
#[derive(Debug)]
pub struct Registrations<K> {
    /// What registers the fences of buffers.
    pub sources: HashMap<u64, K>,
    /// What registers a redraw.
    pub redraw: Option<K>,
}

/// Completed buffers on their way to the media server.
#[derive(Clone, Copy, Debug, PartialEq, Eq, Structural)]
pub struct QueueRun {
    /// How many buffers were complete at first and are not queued yet.
    pub left: usize,
}

/// What to do next with completed buffers.
#[derive(Debug)]
pub enum QueueStep<K> {
    /// Nothing: the cast is about to be stopped.
    Stopped,
    /// Nothing: no further buffer is complete.
    Done,
    /// Remove the source, if there is one, and queue the buffer.
    Queue { buffer: u64, source: Option<K> },
}

/// What to do with a buffer that has been rendered to.
#[derive(Debug)]
pub enum AfterSync<K> {
    /// Nothing: the cast is about to be stopped.
    Stopping,
    /// Stop the cast. What was registered for it, if it was not stopping yet, is to be removed.
    Stop(Option<Registrations<K>>),
    /// Queue the buffers that are complete.
    QueueCompleted,
    /// Wait for the fence.
    Register,
}

/// What to do with a frame on its way into shared memory.
#[derive(Clone, Copy, Debug, PartialEq, Eq, Structural)]
pub enum Submitted {
    /// Wait for the fence.
    Register,
    /// Complete the readback.
    Complete,
}

impl<T, D, Y, K> Inner<T, D, Y, K> {
    /// The state once delivery has failed.
    pub open spec fn stopped(self) -> Inner<T, D, Y, K> {
        if self.stopping {
            self
        } else {
            Inner {
                stopping: true,
                is_active: false,
                waiting_for_buffer: false,
                fence_sources: Map::empty(),
                pending_shm: Map::empty(),
                ..self
            }
        }
    }

    /// What registered the fence of a buffer.
    pub open spec fn source_of(self, buffer: u64) -> Option<K> {
        if self.fence_sources.contains_key(buffer) {
            Some(self.fence_sources[buffer])
        } else {
            None
        }
    }

    /// The state with one more buffer that has been rendered to.
    pub open spec fn rendering(self, buffer: u64, sync: Y) -> Inner<T, D, Y, K> {
        Inner { rendering_buffers: self.rendering_buffers.push((buffer, sync)), ..self }
    }

    /// The state without the oldest buffer that has been rendered to.
    pub open spec fn queued_first(self) -> Inner<T, D, Y, K> {
        Inner {
            rendering_buffers: self.rendering_buffers.skip(1),
            fence_sources: self.fence_sources.remove(self.rendering_buffers[0].0),
            ..self
        }
    }
}

impl<T, D, Y, K, G> Session<T, D, Y, K, G> {
    /// The cast with another state of its stream.
    pub open spec fn with_inner(self, inner: Inner<T, D, Y, K>) -> Session<T, D, Y, K, G> {
        Session { inner, ..self }
    }

    /// The cast once delivery has failed. No redraw is scheduled any more.
    pub open spec fn stopped(self) -> Session<T, D, Y, K, G> {
        if self.inner.stopping {
            self
        } else {
            Session { scheduled_redraw: None, inner: self.inner.stopped(), ..self }
        }
    }

    /// Whether `taken` is what has to be removed when delivery fails: everything that is
    /// registered, the first time, and nothing later.
    pub open spec fn leaves(self, taken: Option<Registrations<K>>) -> bool {
        match taken {
            None => self.inner.stopping,
            Some(taken) => {
                &&& !self.inner.stopping
                &&& taken.sources@ == self.inner.fence_sources
                &&& taken.redraw == self.scheduled_redraw
            },
        }
    }
}

impl<T, D, Y, K, G> Cast<T, D, Y, K, G> {
    /// Delivery has failed. Whatever is registered is handed back to be removed, and the cast is
    /// to be stopped, but only the first time.
    pub fn stop_after_sync_failure(&mut self) -> (taken: Option<Registrations<K>>)
        ensures
            final(self)@ == old(self)@.stopped(),
            old(self)@.leaves(taken),
    {
        if self.inner.stopping {
            return None;
        }
        self.inner.stopping = true;
        self.inner.is_active = false;
        self.inner.waiting_for_buffer = false;
        let mut sources: HashMap<u64, K> = HashMap::new();
        std::mem::swap(&mut self.inner.fence_sources, &mut sources);
        self.inner.pending_shm.clear();
        Some(Registrations { sources, redraw: self.scheduled_redraw.take() })
    }

    /// Begins to queue the buffers that are complete.
    ///
    /// We want to queue buffers in order, so everything is queued up to the first still-rendering
    /// buffer. Completed buffers past that one wait for it.
    pub fn queue_completed_buffers<F: Fn(&Y) -> bool>(&self, is_reached: F) -> (run: Option<QueueRun>)
        requires
            forall|i: int|
                0 <= i < self@.inner.rendering_buffers.len() ==> call_requires(
                    is_reached,
                    (&(#[trigger] self@.inner.rendering_buffers[i]).1,),
                ),
        ensures
            run is None <==> self@.inner.stopping,
            run matches Some(run) ==> {
                &&& run.left <= self@.inner.rendering_buffers.len()
                &&& forall|i: int|
                    0 <= i < run.left ==> call_ensures(
                        is_reached,
                        (&(#[trigger] self@.inner.rendering_buffers[i]).1,),
                        true,
                    )
                &&& run.left < self@.inner.rendering_buffers.len() ==> call_ensures(
                    is_reached,
                    (&self@.inner.rendering_buffers[run.left as int].1,),
                    false,
                )
            },
    {
        if self.inner.stopping {
            return None;
        }
        let mut left: usize = 0;
        while left < self.inner.rendering_buffers.len()
            invariant
                left <= self.inner.rendering_buffers@.len(),
                !self.inner.stopping,
                forall|i: int|
                    0 <= i < self@.inner.rendering_buffers.len() ==> call_requires(
                        is_reached,
                        (&(#[trigger] self@.inner.rendering_buffers[i]).1,),
                    ),
                forall|i: int|
                    0 <= i < left ==> call_ensures(
                        is_reached,
                        (&(#[trigger] self@.inner.rendering_buffers[i]).1,),
                        true,
                    ),
            decreases self.inner.rendering_buffers@.len() - left,
        {
            assert(call_requires(is_reached, (&self@.inner.rendering_buffers[left as int].1,)));
            if !is_reached(&self.inner.rendering_buffers[left].1) {
                return Some(QueueRun { left });
            }
            left = left + 1;
        }
        Some(QueueRun { left })
    }

    /// The next buffer to queue. Queueing one may have retired others or stopped the cast, so the
    /// first buffer is looked at again.
    pub fn next_completed<F: Fn(&Y) -> bool>(&mut self, run: &mut QueueRun, is_reached: F) -> (step:
        QueueStep<K>)
        requires
            old(self)@.inner.rendering_buffers.len() > 0 ==> call_requires(
                is_reached,
                (&old(self)@.inner.rendering_buffers[0].1,),
            ),
        ensures
            match step {
                QueueStep::Stopped => {
                    &&& old(run).left > 0 && old(self)@.inner.stopping
                    &&& final(self)@ == old(self)@
                    &&& *final(run) == *old(run)
                },
                QueueStep::Done => {
                    &&& old(run).left == 0 || !old(self)@.inner.stopping && (
                    old(self)@.inner.rendering_buffers.len() == 0 || call_ensures(
                        is_reached,
                        (&old(self)@.inner.rendering_buffers[0].1,),
                        false,
                    ))
                    &&& final(self)@ == old(self)@
                    &&& *final(run) == *old(run)
                },
                QueueStep::Queue { buffer, source } => {
                    &&& old(run).left > 0 && !old(self)@.inner.stopping
                    &&& old(self)@.inner.rendering_buffers.len() > 0
                    &&& call_ensures(is_reached, (&old(self)@.inner.rendering_buffers[0].1,), true)
                    &&& buffer == old(self)@.inner.rendering_buffers[0].0
                    &&& source == old(self)@.inner.source_of(buffer)
                    &&& final(self)@ == old(self)@.with_inner(
                        old(self)@.inner.queued_first(),
                    )
                    &&& final(run).left == old(run).left - 1
                },
            },
    {
        if run.left == 0 {
            return QueueStep::Done;
        }
        if self.inner.stopping {
            return QueueStep::Stopped;
        }
        if self.inner.rendering_buffers.len() == 0 || !is_reached(&self.inner.rendering_buffers[0].1) {
            return QueueStep::Done;
        }
        let ghost before = self.inner.rendering_buffers@;
        let (buffer, _) = self.inner.rendering_buffers.remove(0);
        assert(self.inner.rendering_buffers@ =~= before.skip(1));
        // A previous fence can complete several frames before their own callbacks run.
        let source = self.inner.fence_sources.remove(&buffer);
        run.left = run.left - 1;
        QueueStep::Queue { buffer, source }
    }

    /// The media server has answered to a buffer that was queued or returned. If it did not take
    /// it, the cast is to be stopped.
    pub fn buffer_queued(&mut self, result: i32) -> (queued: Result<(), Option<Registrations<K>>>)
        ensures
            queued is Ok <==> result >= 0,
            match queued {
                Ok(_) => final(self)@ == old(self)@,
                Err(taken) => final(self)@ == old(self)@.stopped() && old(self)@.leaves(taken),
            },
    {
        match check_queue_result(result) {
            Ok(_) => Ok(()),
            Err(_) => Err(self.stop_after_sync_failure()),
        }
    }

    /// A buffer has been rendered to. `fence` tells whether there is something to wait for.
    pub fn queue_after_sync(
        &mut self,
        buffer: u64,
        sync: Y,
        fence: Result<bool, UnfinishedFence>,
    ) -> (next: AfterSync<K>)
        ensures
            ({
                let rendering = old(self)@.with_inner(old(self)@.inner.rendering(buffer, sync));
                match next {
                    AfterSync::Stopping => {
                        &&& old(self)@.inner.stopping
                        &&& final(self)@ == old(self)@
                    },
                    AfterSync::Stop(taken) => {
                        &&& !old(self)@.inner.stopping && fence is Err
                        &&& final(self)@ == rendering.stopped()
                        &&& old(self)@.leaves(taken)
                    },
                    AfterSync::QueueCompleted => {
                        &&& !old(self)@.inner.stopping
                        &&& fence == Ok::<bool, UnfinishedFence>(false)
                        &&& final(self)@ == rendering
                    },
                    AfterSync::Register => {
                        &&& !old(self)@.inner.stopping
                        &&& fence == Ok::<bool, UnfinishedFence>(true)
                        &&& final(self)@ == rendering
                    },
                }
            }),
    {
        if self.inner.stopping {
            return AfterSync::Stopping;
        }
        self.inner.rendering_buffers.push((buffer, sync));
        match fence {
            Err(_) => AfterSync::Stop(self.stop_after_sync_failure()),
            // In case this is the only buffer in the list, it is queued right away.
            Ok(false) => AfterSync::QueueCompleted,
            Ok(true) => AfterSync::Register,
        }
    }

    /// The fence of a buffer is registered, if there is a source. Otherwise the cast is to be
    /// stopped.
    pub fn fence_registered(&mut self, buffer: u64, source: Option<K>) -> (registered: Result<
        (),
        Option<Registrations<K>>,
    >)
        ensures
            registered is Ok <==> source is Some,
            match registered {
                Ok(_) => final(self)@ == old(self)@.with_inner(
                    (Inner {
                        fence_sources: old(self)@.inner.fence_sources.insert(buffer, source->0),
                        ..old(self)@.inner
                    }),
                ),
                Err(taken) => final(self)@ == old(self)@.stopped() && old(self)@.leaves(taken),
            },
    {
        match source {
            Some(source) => {
                self.inner.fence_sources.insert(buffer, source);
                Ok(())
            },
            None => Err(self.stop_after_sync_failure()),
        }
    }

    /// A readback has been waited for, and was completed and delivered or not. If not, the cast is
    /// to be stopped. Tells whether to redraw: it is so if a frame was skipped meanwhile.
    pub fn shm_fence_handled(&mut self, delivered: bool) -> (next: (
        Option<Option<Registrations<K>>>,
        bool,
    ))
        ensures
            next.0 is None <==> delivered,
            next.0 matches Some(taken) ==> old(self)@.leaves(taken),
            ({
                let handled = if delivered {
                    old(self)@
                } else {
                    old(self)@.stopped()
                };
                let (inner, redraw) = handled.inner.processed();
                final(self)@ == handled.with_inner(inner) && next.1 == redraw
            }),
    {
        let stop: Option<Option<Registrations<K>>> = if delivered {
            None
        } else {
            Some(self.stop_after_sync_failure())
        };
        let redraw = self.inner.process();
        (stop, redraw)
    }
}

impl<T, D, Y, K> CastInner<T, D, Y, K> {
    /// The fence of a buffer is reached.
    pub fn fence_reached(&mut self, buffer: u64)
        ensures
            final(self)@ == (Inner {
                fence_sources: old(self)@.fence_sources.remove(buffer),
                ..old(self)@
            }),
    {
        self.fence_sources.remove(&buffer);
    }

    /// A frame is on its way into the shared memory of a buffer.
    pub fn submit_shm_readback(&mut self, buffer: u64, readback: ShmReadback, waits: bool) -> (next:
        Submitted)
        ensures
            final(self)@ == (Inner {
                pending_shm: old(self)@.pending_shm.insert(buffer, readback),
                ..old(self)@
            }),
            next == if waits {
                Submitted::Register
            } else {
                Submitted::Complete
            },
    {
        self.pending_shm.insert(buffer, readback);
        if waits {
            Submitted::Register
        } else {
            Submitted::Complete
        }
    }

    /// The frame that is on its way into the shared memory of a buffer. It is to be completed now.
    pub fn take_shm_readback(&mut self, buffer: u64) -> (readback: Option<ShmReadback>)
        ensures
            readback == if old(self)@.pending_shm.contains_key(buffer) {
                Some(old(self)@.pending_shm[buffer])
            } else {
                None
            },
            final(self)@ == (Inner {
                pending_shm: old(self)@.pending_shm.remove(buffer),
                ..old(self)@
            }),
    {
        self.pending_shm.remove(&buffer)
    }

    /// DMA-BUFs do not work. Returns whether shared memory is to be tried: that is done only once.
    /// The buffers stay with the media server until it retires them.
    pub fn schedule_shm_fallback(&mut self) -> (schedule: bool)
        ensures
            schedule == !old(self)@.dma_failed,
            final(self)@ == if schedule {
                Inner {
                    dma_failed: true,
                    is_active: false,
                    waiting_for_buffer: false,
                    ..old(self)@
                }
            } else {
                old(self)@
            },
    {
        if self.dma_failed {
            return false;
        }
        self.dma_failed = true;
        self.is_active = false;
        self.waiting_for_buffer = false;
        true
    }
}

/// What happens to buffers on their way to the media server.
pub enum DeliveryEvent {
    /// A frame has been rendered to a buffer.
    Rendered { buffer: u64 },
    /// The oldest buffer is queued.
    Queued,
    /// The media server has retired a buffer.
    Removed { buffer: u64, kind: crate::screencasting::spa::DataKind, fd: i64 },
}

/// A stream that knows each buffer that waits by the number of its frame, and the buffers that were
/// queued.
pub struct DeliveryLog<T, D, K> {
    pub inner: Inner<T, D, int, K>,
    pub queued: Seq<(u64, int)>,
    pub next: int,
}

impl<T, D, K> DeliveryLog<T, D, K> {
    pub open spec fn after(self, event: DeliveryEvent) -> DeliveryLog<T, D, K> {
        match event {
            DeliveryEvent::Rendered { buffer } => DeliveryLog {
                inner: self.inner.rendering(buffer, self.next),
                next: self.next + 1,
                ..self
            },
            DeliveryEvent::Queued => if self.inner.rendering_buffers.len() > 0 {
                DeliveryLog {
                    inner: self.inner.queued_first(),
                    queued: self.queued.push(self.inner.rendering_buffers[0]),
                    ..self
                }
            } else {
                self
            },
            DeliveryEvent::Removed { buffer, kind, fd } => DeliveryLog {
                inner: self.inner.without_buffer(buffer, kind, fd),
                ..self
            },
        }
    }

    pub open spec fn after_all(self, events: Seq<DeliveryEvent>) -> DeliveryLog<T, D, K>
        decreases events.len(),
    {
        if events.len() == 0 {
            self
        } else {
            self.after_all(events.drop_last()).after(events.last())
        }
    }

    /// Whether frames are queued in the order in which they were rendered, and those that wait are
    /// newer than all that were queued.
    pub open spec fn in_order(self) -> bool {
        let waiting = self.inner.rendering_buffers;
        &&& rising(self.queued)
        &&& rising(waiting)
        &&& forall|i: int, j: int|
            0 <= i < self.queued.len() && 0 <= j < waiting.len() ==> (#[trigger] self.queued[i]).1
                < (#[trigger] waiting[j]).1
        &&& forall|i: int| 0 <= i < self.queued.len() ==> (#[trigger] self.queued[i]).1 < self.next
        &&& forall|j: int| 0 <= j < waiting.len() ==> (#[trigger] waiting[j]).1 < self.next
    }
}

/// Whether each frame is newer than the ones before it.
pub open spec fn rising(frames: Seq<(u64, int)>) -> bool {
    forall|i: int, j: int|
        0 <= i < j < frames.len() ==> (#[trigger] frames[i]).1 < (#[trigger] frames[j]).1
}

/// Whatever stays in the list was in it before, in the same order.
proof fn removing_keeps_order(frames: Seq<(u64, int)>, buffer: u64)
    requires
        rising(frames),
    ensures
        rising(crate::screencasting::cast_inner::without(frames, buffer)),
        forall|j: int|
            0 <= j < crate::screencasting::cast_inner::without(frames, buffer).len()
                ==> frames.contains(
                #[trigger] crate::screencasting::cast_inner::without(frames, buffer)[j],
            ),
    decreases frames.len(),
{
    if frames.len() > 0 {
        let shorter = frames.drop_last();
        removing_keeps_order(shorter, buffer);
        let kept = crate::screencasting::cast_inner::without(shorter, buffer);
        assert forall|j: int| 0 <= j < kept.len() implies frames.contains(#[trigger] kept[j])
            && kept[j].1 < frames.last().1 by {
            let i = shorter.index_of(kept[j]);
            assert(frames[i] == kept[j]);
        }
        let all = crate::screencasting::cast_inner::without(frames, buffer);
        assert forall|j: int| 0 <= j < all.len() implies frames.contains(#[trigger] all[j]) by {
            if j < kept.len() {
                assert(all[j] == kept[j]);
            } else {
                assert(frames[frames.len() - 1] == all[j]);
            }
        }
    }
}

/// Frames reach the media server in the order in which they were rendered, whichever buffers are
/// retired meanwhile.
pub proof fn frames_are_delivered_in_order<T, D, K>(
    start: DeliveryLog<T, D, K>,
    events: Seq<DeliveryEvent>,
)
    requires
        start.in_order(),
    ensures
        start.after_all(events).in_order(),
        rising(start.after_all(events).queued),
    decreases events.len(),
{
    if events.len() > 0 {
        frames_are_delivered_in_order(start, events.drop_last());
        let before = start.after_all(events.drop_last());
        match events.last() {
            DeliveryEvent::Removed { buffer, .. } => {
                let waiting = before.inner.rendering_buffers;
                removing_keeps_order(waiting, buffer);
                let kept = crate::screencasting::cast_inner::without(waiting, buffer);
                assert forall|j: int| 0 <= j < kept.len() implies (#[trigger] kept[j]).1
                    < before.next && forall|i: int|
                    0 <= i < before.queued.len() ==> (#[trigger] before.queued[i]).1
                        < kept[j].1 by {
                    let k = waiting.index_of(kept[j]);
                    assert(waiting[k] == kept[j]);
                }
            },
            _ => {},
        }
    }
}

/// Once delivery has failed, no redraw is scheduled and the stream stays stopped, whatever its
/// callbacks do, and to fail again changes nothing.
pub proof fn failure_is_final<T, D, Y, K, G>(
    cast: Session<T, D, Y, K, G>,
    new: crate::screencasting::cast_inner::StreamState,
    node_id: u32,
    param: crate::screencasting::negotiation::ChangedParam,
    cursor_mode: crate::screencasting::cursor::CursorMode,
    buffer: u64,
    kind: crate::screencasting::spa::DataKind,
    fd: i64,
)
    ensures
        cast.stopped().inner.stopping,
        !cast.inner.stopping ==> cast.stopped().scheduled_redraw is None,
        cast.stopped().stopped() == cast.stopped(),
        cast.stopped().inner.after_state(new, node_id).stopping,
        cast.stopped().inner.after_param(param, cursor_mode).0.stopping,
        cast.stopped().inner.without_buffer(buffer, kind, fd).stopping,
{
}

/// Delivery fails once: the stream then stops, is not active, waits for nothing and has nothing on
/// its way, and whatever was registered is handed back. To fail again changes nothing and hands
/// back nothing.
pub proof fn failed_delivery_stops_the_stream<T, D, Y, K, G>(
    cast: &mut Cast<T, D, Y, K, G>,
    taken: Option<Registrations<K>>,
)
    requires
        call_ensures(Cast::<T, D, Y, K, G>::stop_after_sync_failure, (cast,), taken),
    ensures
        taken is None <==> old(cast)@.inner.stopping,
        taken matches Some(taken) ==> {
            &&& taken.sources@ == old(cast)@.inner.fence_sources
            &&& taken.redraw == old(cast)@.scheduled_redraw
            &&& final(cast)@ == (Session {
                scheduled_redraw: None,
                inner: Inner {
                    stopping: true,
                    is_active: false,
                    waiting_for_buffer: false,
                    fence_sources: Map::empty(),
                    pending_shm: Map::empty(),
                    ..old(cast)@.inner
                },
                ..old(cast)@
            })
        },
        taken is None ==> final(cast)@ == old(cast)@,
{
}

/// The oldest buffer that has been rendered to is the one that is queued, and nothing else changes
/// but that its fence is not registered any more.
pub proof fn the_oldest_buffer_is_queued<T, D, Y, K, G, F: Fn(&Y) -> bool>(
    cast: &mut Cast<T, D, Y, K, G>,
    run: &mut QueueRun,
    is_reached: F,
    step: QueueStep<K>,
    i: int,
)
    requires
        call_ensures(Cast::<T, D, Y, K, G>::next_completed::<F>, (cast, run, is_reached), step),
    ensures
        step matches QueueStep::Queue { buffer, source } ==> {
            let (before, after) = (old(cast)@.inner, final(cast)@.inner);
            let (waiting, left) = (before.rendering_buffers, after.rendering_buffers);
            &&& buffer == waiting[0].0
            &&& source is Some <==> before.fence_sources.contains_key(buffer)
            &&& source matches Some(source) ==> source == before.fence_sources[buffer]
            &&& left.len() == waiting.len() - 1
            &&& 0 <= i < left.len() ==> left[i] == waiting[i + 1]
            &&& after.fence_sources == before.fence_sources.remove(buffer)
            &&& final(cast)@ == (Session {
                inner: Inner {
                    rendering_buffers: left,
                    fence_sources: after.fence_sources,
                    ..before
                },
                ..old(cast)@
            })
            &&& final(run).left + 1 == old(run).left
        },
        !(step is Queue) ==> final(cast)@ == old(cast)@ && *final(run) == *old(run),
{
}

/// The media server's refusal of a buffer stops the stream, and so does a fence that cannot be
/// registered. Otherwise nothing changes but what is registered.
pub proof fn refusals_stop_the_stream<T, D, Y, K, G>(
    cast: &mut Cast<T, D, Y, K, G>,
    result: i32,
    queued: Result<(), Option<Registrations<K>>>,
    other: &mut Cast<T, D, Y, K, G>,
    buffer: u64,
    source: Option<K>,
    registered: Result<(), Option<Registrations<K>>>,
)
    requires
        call_ensures(Cast::<T, D, Y, K, G>::buffer_queued, (cast, result), queued),
        call_ensures(Cast::<T, D, Y, K, G>::fence_registered, (other, buffer, source), registered),
    ensures
        queued is Err <==> result < 0,
        queued is Ok ==> final(cast)@ == old(cast)@,
        queued is Err ==> final(cast)@ == old(cast)@.stopped() && final(cast)@.inner.stopping,
        registered is Err <==> source is None,
        registered is Err ==> final(other)@ == old(other)@.stopped() && final(other)@.inner.stopping,
        source matches Some(source) ==> final(other)@ == (Session {
            inner: Inner {
                fence_sources: old(other)@.inner.fence_sources.insert(buffer, source),
                ..old(other)@.inner
            },
            ..old(other)@
        }),
{
}

/// A buffer that has been rendered to waits behind all others. If it has something to wait for,
/// that is registered; otherwise complete buffers are queued. A fence that nothing can wait for
/// stops the stream. A stream that is stopping takes no buffer.
pub proof fn rendered_buffers_wait_in_line<T, D, Y, K, G>(
    cast: &mut Cast<T, D, Y, K, G>,
    buffer: u64,
    sync: Y,
    fence: Result<bool, UnfinishedFence>,
    next: AfterSync<K>,
)
    requires
        call_ensures(Cast::<T, D, Y, K, G>::queue_after_sync, (cast, buffer, sync, fence), next),
    ensures
        next is Stopping <==> old(cast)@.inner.stopping,
        old(cast)@.inner.stopping ==> final(cast)@ == old(cast)@,
        !old(cast)@.inner.stopping ==> {
            let waiting = old(cast)@.inner.rendering_buffers.push((buffer, sync));
            &&& next is Stop <==> fence is Err
            &&& next is QueueCompleted <==> fence == Ok::<bool, UnfinishedFence>(false)
            &&& next is Register <==> fence == Ok::<bool, UnfinishedFence>(true)
            &&& final(cast)@.inner.rendering_buffers == waiting
            &&& fence is Ok ==> final(cast)@ == (Session {
                inner: Inner { rendering_buffers: waiting, ..old(cast)@.inner },
                ..old(cast)@
            })
            &&& next matches AfterSync::Stop(taken) ==> {
                &&& final(cast)@.inner.stopping
                &&& final(cast)@ == (Session {
                    inner: Inner { rendering_buffers: waiting, ..old(cast)@.inner },
                    ..old(cast)@
                }).stopped()
                &&& taken is Some
                &&& taken->0.sources@ == old(cast)@.inner.fence_sources
                &&& taken->0.redraw == old(cast)@.scheduled_redraw
            }
        },
{
}

/// After a readback was waited for, a frame that was skipped is drawn by a stream that still goes
/// on. If the readback was not delivered, the stream stops.
pub proof fn handled_readbacks_draw_skipped_frames<T, D, Y, K, G>(
    cast: &mut Cast<T, D, Y, K, G>,
    delivered: bool,
    next: (Option<Option<Registrations<K>>>, bool),
)
    requires
        call_ensures(Cast::<T, D, Y, K, G>::shm_fence_handled, (cast, delivered), next),
    ensures
        next.0 is Some <==> !delivered,
        delivered || old(cast)@.inner.stopping ==> {
            &&& next.1 <==> old(cast)@.inner.is_active && old(cast)@.inner.waiting_for_buffer
            &&& next.1 ==> final(cast)@ == (Session {
                inner: Inner { waiting_for_buffer: false, ..old(cast)@.inner },
                ..old(cast)@
            })
            &&& !next.1 ==> final(cast)@ == old(cast)@
        },
        !delivered && !old(cast)@.inner.stopping ==> !next.1 && final(cast)@ == old(cast)@.stopped(),
        next.0 matches Some(taken) ==> {
            &&& taken is None <==> old(cast)@.inner.stopping
            &&& taken is Some ==> taken->0.sources@ == old(cast)@.inner.fence_sources
                && taken->0.redraw == old(cast)@.scheduled_redraw
        },
{
}

/// A fence that is reached is not registered any more, a frame on its way into shared memory is
/// kept until it is taken, and shared memory is tried once. Nothing else of the stream changes.
pub proof fn readbacks_are_kept_until_taken<T, D, Y, K>(
    reached: &mut CastInner<T, D, Y, K>,
    submitted: &mut CastInner<T, D, Y, K>,
    taken: &mut CastInner<T, D, Y, K>,
    buffer: u64,
    readback: ShmReadback,
    waits: bool,
    next: Submitted,
    found: Option<ShmReadback>,
)
    requires
        call_ensures(CastInner::<T, D, Y, K>::fence_reached, (reached, buffer), ()),
        call_ensures(
            CastInner::<T, D, Y, K>::submit_shm_readback,
            (submitted, buffer, readback, waits),
            next,
        ),
        call_ensures(CastInner::<T, D, Y, K>::take_shm_readback, (taken, buffer), found),
    ensures
        final(reached)@ == (Inner {
            fence_sources: old(reached)@.fence_sources.remove(buffer),
            ..old(reached)@
        }),
        next is Register <==> waits,
        final(submitted)@ == (Inner {
            pending_shm: old(submitted)@.pending_shm.insert(buffer, readback),
            ..old(submitted)@
        }),
        found is Some <==> old(taken)@.pending_shm.contains_key(buffer),
        found matches Some(found) ==> found == old(taken)@.pending_shm[buffer],
        final(taken)@ == (Inner {
            pending_shm: old(taken)@.pending_shm.remove(buffer),
            ..old(taken)@
        }),
{
}

/// Shared memory is tried in place of DMA-BUFs only once. The stream is not active until then.
pub proof fn shared_memory_is_tried_once<T, D, Y, K>(
    inner: &mut CastInner<T, D, Y, K>,
    schedule: bool,
)
    requires
        call_ensures(CastInner::<T, D, Y, K>::schedule_shm_fallback, (inner,), schedule),
    ensures
        schedule <==> !old(inner)@.dma_failed,
        final(inner)@.dma_failed,
        schedule ==> final(inner)@ == (Inner {
            dma_failed: true,
            is_active: false,
            waiting_for_buffer: false,
            ..old(inner)@
        }),
        !schedule ==> final(inner)@ == old(inner)@,
{
}

/// The run of complete buffers ends before the first one that is not complete.
pub proof fn incomplete_buffers_hold_up_later_ones<T, D, Y, K, G, F: Fn(&Y) -> bool>(
    cast: &Cast<T, D, Y, K, G>,
    is_reached: F,
    run: Option<QueueRun>,
    i: int,
)
    requires
        call_ensures(Cast::<T, D, Y, K, G>::queue_completed_buffers::<F>, (cast, is_reached), run),
        0 <= i < cast@.inner.rendering_buffers.len(),
    ensures
        run is None <==> cast@.inner.stopping,
        run matches Some(run) && i < run.left ==> call_ensures(
            is_reached,
            (&cast@.inner.rendering_buffers[i].1,),
            true,
        ),
        run matches Some(run) && i == run.left ==> call_ensures(
            is_reached,
            (&cast@.inner.rendering_buffers[i].1,),
            false,
        ),
{
}

} // verus!
