use screencast::drm::{Format, FormatSet, Fourcc};
use screencast::geometry::{FrameSize, Point, Size};
use screencast::screencasting::cast::{
    Cast, CastSizeChange, ClearTarget, FrameNeed, NeededTrackers, PipeWire, PwToNiri, RenderTarget,
    Scheduling,
};
use screencast::screencasting::cast_inner::{BufferRequest, StateAction, StreamState};
use screencast::screencasting::cast_state::{CastState, DmaNegotiationResult};
use screencast::screencasting::cursor::CursorMode;
use screencast::screencasting::delivery::{AfterSync, QueueStep};
use screencast::screencasting::dmabuf_layout::{DmaPlane, DmabufError};
use screencast::screencasting::fence_export::{
    export_pending_fence, FenceReply, FenceRequest, FenceStep, UnfinishedFence,
};
use screencast::screencasting::formats::make_video_params_for_initial_negotiation;
use screencast::screencasting::shm_buffer::allocate_shmbuf;
use screencast::screencasting::spa::{
    Chunk, DataKind, Header, Plane, SharingBuf, StreamBuffer, CHUNK_FLAG_CORRUPTED,
    CHUNK_FLAG_NONE,
};
use screencast::screencasting::timing::{Timespan, MAX_NANOS};
use std::cell::{Cell, RefCell};

/// Trackers, DMA-BUFs and sources are numbers; a frame is complete if its flag is set. What is shown
/// has a name.
type TestCast = Cast<u32, u32, bool, u32, &'static str>;

const FORMATS: [Format; 1] = [Format {
    code: Fourcc::Xrgb8888,
    modifier: 5,
}];

fn cast() -> TestCast {
    PipeWire::new(true)
        .start_cast(
            1,
            2,
            "output",
            FormatSet::from_slice(&FORMATS),
            Size { w: 16, h: 8 },
            60_000,
            false,
            CursorMode::Metadata,
        )
        .0
}

fn ready(cast: &mut TestCast, dma: bool) {
    cast.inner.state = CastState::Ready {
        size: FrameSize { w: 16, h: 8 },
        alpha: false,
        extra_negotiation_result: if dma {
            Some(DmaNegotiationResult {
                modifier: 5,
                plane_count: 1,
            })
        } else {
            None
        },
        damage_tracker: None,
        cursor_damage_tracker: None,
        last_cursor_location: None,
    };
}

fn stream_buffer(planes: usize) -> StreamBuffer {
    let plane = Plane {
        kind: DataKind::Other(8),
        shared: false,
        maxsize: 0,
        fd: -1,
        chunk: Chunk {
            offset: 0,
            size: 0,
            stride: 0,
            flags: 0,
        },
    };
    StreamBuffer {
        planes: vec![plane; planes],
        header: Some(Header { flags: 0, seq: 0 }),
    }
}

fn dma_plane(fd: i64, offset: u32) -> DmaPlane {
    DmaPlane {
        fd,
        stride: 64,
        offset,
        backing: 4096,
    }
}

/// Queues whatever is complete, and returns the buffers and the sources that were handed out.
fn queue_all(cast: &mut TestCast) -> (Vec<u64>, Vec<u32>) {
    let (mut buffers, mut sources) = (Vec::new(), Vec::new());
    let Some(mut run) = cast.queue_completed_buffers(|done: &bool| *done) else {
        return (buffers, sources);
    };
    while let QueueStep::Queue { buffer, source } =
        cast.next_completed(&mut run, |done: &bool| *done)
    {
        buffers.push(buffer);
        sources.extend(source);
        assert!(cast.buffer_queued(0).is_ok());
    }
    (buffers, sources)
}

/// A fence that may be reached when it is asked for a descriptor, and what it was asked.
struct TestFence {
    reached: Cell<bool>,
    reached_by_export: bool,
    descriptor: Option<u32>,
    asked: RefCell<Vec<FenceRequest>>,
}

impl TestFence {
    fn new(reached: bool, reached_by_export: bool, descriptor: Option<u32>) -> TestFence {
        TestFence {
            reached: Cell::new(reached),
            reached_by_export,
            descriptor,
            asked: RefCell::new(Vec::new()),
        }
    }

    /// Answers until the export ends. The fence is never asked to block.
    fn export(&self) -> Result<Option<u32>, UnfinishedFence> {
        let (mut export, mut request) = export_pending_fence();
        loop {
            self.asked.borrow_mut().push(request);
            let reply = match request {
                FenceRequest::Look => FenceReply::Reached(self.reached.get()),
                FenceRequest::Export => {
                    if self.reached_by_export {
                        self.reached.set(true);
                    }
                    FenceReply::Exported(self.descriptor)
                }
            };
            match export.step(reply) {
                FenceStep::Ask(next) => request = next,
                FenceStep::Finished(outcome) => return outcome,
            }
        }
    }
}

#[test]
fn fence_completing_during_failed_export_is_deliverable() {
    let fence = TestFence::new(false, true, None);
    assert!(fence.export().unwrap().is_none());
    assert_eq!(
        fence.asked.into_inner(),
        vec![FenceRequest::Look, FenceRequest::Export, FenceRequest::Look]
    );
}

#[test]
fn failed_fence_export_does_not_imply_gpu_completion() {
    assert!(TestFence::new(false, false, None).export().is_err());
    assert!(TestFence::new(true, false, None).export().unwrap().is_none());
    let signaled = TestFence::new(true, false, Some(3));
    assert!(signaled.export().unwrap().is_none());
    assert_eq!(
        signaled.asked.into_inner(),
        vec![FenceRequest::Look],
        "a reached fence is not exported"
    );
}

#[test]
fn pending_fences_are_waited_for() {
    let fence = TestFence::new(false, true, Some(3));
    assert_eq!(fence.export(), Ok(Some(3)));
    assert_eq!(
        fence.asked.into_inner(),
        vec![FenceRequest::Look, FenceRequest::Export]
    );
}

#[test]
fn casts_start_by_offering_their_formats() {
    let (cast, offers): (TestCast, _) = PipeWire::new(false).start_cast(
        1,
        2,
        "output",
        FormatSet::from_slice(&FORMATS),
        Size { w: 16, h: 8 },
        60_000,
        true,
        CursorMode::Metadata,
    );
    assert_eq!(
        offers,
        make_video_params_for_initial_negotiation(
            &FormatSet::from_slice(&FORMATS),
            FrameSize { w: 16, h: 8 },
            60_000,
            true
        )
    );
    assert_eq!(cast.target, "output");
    assert!(!cast.dynamic_target);
    assert_eq!(cast.cursor_mode, CursorMode::Embedded);
    assert!(!cast.is_active());
    assert_eq!(cast.node_id(), None);
    assert_eq!(
        cast.inner.min_time_between_frames,
        Timespan::from_micros(16_666)
    );
    assert!(matches!(
        cast.inner.state,
        CastState::ResizePending {
            pending_size: FrameSize { w: 16, h: 8 }
        }
    ));
}

#[test]
fn only_a_broken_connection_is_fatal() {
    assert_eq!(PipeWire::core_error(0, -32), Some(PwToNiri::FatalError));
    assert_eq!(PipeWire::core_error(1, -32), None);
    assert_eq!(PipeWire::core_error(0, -2), None);
}

#[test]
fn sizes_are_asked_for_once() {
    let mut cast = cast();
    let size = Size { w: 16, h: 8 };
    assert_eq!(cast.ensure_size(size), (CastSizeChange::Pending, None));
    ready(&mut cast, true);
    assert_eq!(cast.ensure_size(size), (CastSizeChange::Ready, None));
    let other = Size { w: 20, h: 8 };
    let (change, objects) = cast.ensure_size(other);
    assert_eq!(change, CastSizeChange::Pending);
    assert_eq!(
        objects,
        Some(make_video_params_for_initial_negotiation(
            &FormatSet::from_slice(&FORMATS),
            FrameSize { w: 20, h: 8 },
            60_000,
            false
        ))
    );
    assert_eq!(cast.ensure_size(other), (CastSizeChange::Pending, None));
}

#[test]
fn rates_are_offered_in_the_expected_size() {
    let mut cast = cast();
    assert_eq!(cast.set_refresh(60_000), None);
    assert_eq!(
        cast.set_refresh(30_000),
        Some(make_video_params_for_initial_negotiation(
            &FormatSet::from_slice(&FORMATS),
            FrameSize { w: 16, h: 8 },
            30_000,
            false
        ))
    );
    assert_eq!(cast.set_refresh(30_000), None);
}

#[test]
fn early_frames_schedule_one_redraw() {
    let mut cast = cast();
    assert!(matches!(
        cast.check_time_and_schedule(Timespan::from_micros(5)),
        Scheduling::Render(None)
    ));
    cast.last_frame_time = Timespan::from_micros(1000);
    let Scheduling::Skip(Some(time)) = cast.check_time_and_schedule(Timespan::from_micros(2000))
    else {
        panic!("the frame is too soon")
    };
    assert_eq!(time, Timespan::from_micros(17_666));
    cast.redraw_scheduled(77);
    assert!(matches!(
        cast.check_time_and_schedule(Timespan::from_micros(3000)),
        Scheduling::Skip(None)
    ));
    assert!(matches!(
        cast.check_time_and_schedule(Timespan::from_micros(18_000)),
        Scheduling::Render(Some(77))
    ));
    assert!(cast.scheduled_redraw.is_none());
}

#[test]
fn stream_states_drive_activity() {
    let mut cast = cast();
    let nothing = StateAction {
        announce: None,
        stop: false,
        redraw: false,
    };
    assert_eq!(
        cast.inner.state_changed(StreamState::Connecting, 9),
        nothing
    );
    assert_eq!(
        cast.inner.state_changed(StreamState::Paused, 9),
        StateAction {
            announce: Some(9),
            ..nothing
        }
    );
    assert_eq!(cast.node_id(), Some(9));
    assert_eq!(
        cast.inner.state_changed(StreamState::Streaming, 9),
        StateAction {
            redraw: true,
            ..nothing
        }
    );
    assert!(cast.is_active());
    cast.inner.waiting_for_buffer = true;
    assert_eq!(cast.inner.state_changed(StreamState::Paused, 10), nothing);
    assert!(!cast.is_active());
    assert!(!cast.inner.waiting_for_buffer);
    assert_eq!(cast.node_id(), Some(9));
    assert_eq!(cast.inner.state_changed(StreamState::Error, 9), nothing);
    cast.inner.state_changed(StreamState::Streaming, 9);
    assert_eq!(
        cast.inner.state_changed(StreamState::Error, 9),
        StateAction {
            stop: true,
            ..nothing
        }
    );
    assert!(!cast.is_active());
    assert_eq!(
        cast.inner.state_changed(StreamState::Unconnected, 9),
        nothing
    );
}

#[test]
fn skipped_frames_are_redrawn_once() {
    let mut cast = cast();
    ready(&mut cast, true);
    cast.inner.state_changed(StreamState::Streaming, 9);
    assert_eq!(cast.render_buffer_dequeued(None), None);
    assert!(cast.inner.process());
    assert!(!cast.inner.process());
    cast.inner.is_active = false;
    cast.inner.waiting_for_buffer = true;
    assert!(!cast.inner.process());
    assert!(cast.inner.waiting_for_buffer);
}

#[test]
fn dma_buffers_are_described_and_the_first_one_forces_a_redraw() {
    let mut cast = cast();
    assert_eq!(cast.inner.add_buffer(), BufferRequest::NotReady);
    ready(&mut cast, true);
    cast.trackers_made(Some(1), Some(2));
    assert_eq!(
        cast.inner.add_buffer(),
        BufferRequest::Dma {
            size: FrameSize { w: 16, h: 8 },
            fourcc: Fourcc::Xrgb8888,
            modifier: 5,
        }
    );
    let mut buffer = stream_buffer(2);
    let planes = [dma_plane(40, 0), dma_plane(41, 1024)];
    assert_eq!(
        cast.inner
            .dmabuf_allocated(&mut buffer, 100, 5, 5, &planes, true),
        Ok(true)
    );
    assert_eq!(
        buffer.planes[1],
        Plane {
            kind: DataKind::DmaBuf,
            shared: true,
            maxsize: 4096,
            fd: 41,
            chunk: Chunk {
                offset: 1024,
                size: 0,
                stride: 64,
                flags: 0
            },
        }
    );
    assert_eq!(cast.inner.dmabufs.get(&40), Some(&100));
    assert!(matches!(
        cast.inner.state,
        CastState::Ready {
            damage_tracker: None,
            ..
        }
    ));
    let mut second = stream_buffer(1);
    assert_eq!(
        cast.inner
            .dmabuf_allocated(&mut second, 101, 5, 5, &[dma_plane(50, 0)], true),
        Ok(false)
    );
    assert_eq!(
        cast.inner
            .dmabuf_allocated(&mut second, 102, 5, 6, &[dma_plane(51, 0)], true),
        Err(DmabufError::ModifierDiffers)
    );
    assert_eq!(
        cast.inner
            .dmabuf_allocated(&mut second, 102, 5, 5, &[dma_plane(51, 4096)], true),
        Err(DmabufError::OffsetExceedsStorage)
    );
    assert_eq!(cast.inner.dmabufs.len(), 2);
}

#[test]
fn shared_buffers_are_described_and_the_first_one_forces_a_redraw() {
    let mut cast = cast();
    ready(&mut cast, false);
    let BufferRequest::Shm { size } = cast.inner.add_buffer() else {
        panic!("shared memory was agreed on")
    };
    let mut buffer = stream_buffer(1);
    let shmbuf = allocate_shmbuf(size).ok().unwrap();
    assert!(cast
        .inner
        .shmbuf_allocated(&mut buffer, shmbuf, 40, true));
    assert_eq!(buffer.planes[0].kind, DataKind::MemFd);
    assert_eq!(buffer.planes[0].maxsize, 16 * 8 * 4);
    assert_eq!(buffer.planes[0].fd, 40);
    let shmbuf = allocate_shmbuf(size).ok().unwrap();
    assert!(!cast
        .inner
        .shmbuf_allocated(&mut stream_buffer(1), shmbuf, 41, true));
    assert_eq!(cast.inner.shmbufs.len(), 2);
    assert_eq!(
        cast.inner.remove_buffer(1, DataKind::MemFd, 41),
        None
    );
    assert_eq!(cast.inner.shmbufs.len(), 1);
    let shmbuf = allocate_shmbuf(size).ok().unwrap();
    cast.inner.remove_buffer(1, DataKind::MemFd, 40);
    assert!(!cast
        .inner
        .shmbuf_allocated(&mut stream_buffer(1), shmbuf, 42, false));
}

#[test]
fn buffers_are_delivered_in_order_and_wait_for_earlier_ones() {
    let mut cast = cast();
    for (buffer, done) in [(10, true), (11, false), (12, true)] {
        assert!(matches!(
            cast.queue_after_sync(buffer, done, Ok(true)),
            AfterSync::Register
        ));
        assert!(cast
            
            .fence_registered(buffer, Some(buffer as u32 * 10))
            .is_ok());
    }
    assert_eq!(queue_all(&mut cast), (vec![10], vec![100]));
    assert_eq!(queue_all(&mut cast), (vec![], vec![]));
    // The fence of the buffer in between is reached.
    cast.inner.fence_reached(11);
    cast.inner.rendering_buffers[0].1 = true;
    assert_eq!(queue_all(&mut cast), (vec![11, 12], vec![120]));
    assert!(matches!(
        cast.queue_after_sync(13, true, Ok(false)),
        AfterSync::QueueCompleted
    ));
    assert_eq!(queue_all(&mut cast), (vec![13], vec![]));
}

#[test]
fn retired_buffers_are_not_delivered() {
    let mut cast = cast();
    cast.queue_after_sync(10, true, Ok(true));
    assert!(cast.fence_registered(10, Some(100)).is_ok());
    cast.queue_after_sync(11, true, Ok(false));
    assert_eq!(
        cast.inner.remove_buffer(10, DataKind::Other(1), 0),
        Some(100)
    );
    assert_eq!(queue_all(&mut cast), (vec![11], vec![]));
}

#[test]
fn buffers_retired_while_queueing_end_the_run() {
    let mut cast = cast();
    cast.queue_after_sync(10, true, Ok(false));
    cast.queue_after_sync(11, true, Ok(false));
    let mut run = cast
        
        .queue_completed_buffers(|done: &bool| *done)
        .unwrap();
    assert_eq!(run.left, 2);
    assert!(matches!(
        cast.next_completed(&mut run, |done: &bool| *done),
        QueueStep::Queue { buffer: 10, .. }
    ));
    cast.inner.remove_buffer(11, DataKind::DmaBuf, 0);
    assert!(matches!(
        cast.next_completed(&mut run, |done: &bool| *done),
        QueueStep::Done
    ));
}

#[test]
fn failed_deliveries_stop_once_and_hand_back_all_sources() {
    let mut cast = cast();
    cast.inner.state_changed(StreamState::Streaming, 9);
    cast.inner.waiting_for_buffer = true;
    cast.redraw_scheduled(7);
    cast.queue_after_sync(10, true, Ok(false));
    cast.queue_after_sync(11, false, Ok(true));
    assert!(cast.fence_registered(11, Some(110)).is_ok());
    let mut run = cast
        
        .queue_completed_buffers(|done: &bool| *done)
        .unwrap();
    assert!(matches!(
        cast.next_completed(&mut run, |done: &bool| *done),
        QueueStep::Queue { buffer: 10, .. }
    ));
    let Err(Some(taken)) = cast.buffer_queued(-32) else {
        panic!("the media server did not take the buffer")
    };
    assert_eq!(taken.sources.get(&11), Some(&110));
    assert_eq!(taken.sources.len(), 1);
    assert_eq!(taken.redraw, Some(7));
    assert_eq!(cast.scheduled_redraw, None);
    assert!(!cast.is_active());
    assert!(!cast.inner.waiting_for_buffer);
    assert!(cast.inner.stopping);
    // From now on nothing is delivered, and there is nothing left to hand back.
    assert!(cast
        
        .queue_completed_buffers(|done: &bool| *done)
        .is_none());
    assert!(matches!(
        cast.queue_after_sync(12, true, Ok(false)),
        AfterSync::Stopping
    ));
    assert!(cast.stop_after_sync_failure().is_none());
    assert!(matches!(cast.buffer_queued(-5), Err(None)));
}

#[test]
fn stopping_while_queueing_ends_the_run() {
    let mut cast = cast();
    cast.queue_after_sync(10, true, Ok(false));
    let mut run = cast
        
        .queue_completed_buffers(|done: &bool| *done)
        .unwrap();
    cast.stop_after_sync_failure();
    assert!(matches!(
        cast.next_completed(&mut run, |done: &bool| *done),
        QueueStep::Stopped
    ));
}

#[test]
fn unfinished_fences_and_failed_registrations_stop() {
    let mut cast = cast();
    assert!(matches!(
        cast.queue_after_sync(10, false, Err(UnfinishedFence)),
        AfterSync::Stop(Some(_))
    ));
    assert!(cast.inner.stopping);
    let mut other = self::cast();
    other.queue_after_sync(10, false, Ok(true));
    assert!(other.fence_registered(10, None).is_err());
    assert!(other.inner.stopping);
}

#[test]
fn handled_fences_redraw_or_stop() {
    let mut cast = cast();
    cast.inner.state_changed(StreamState::Streaming, 9);
    cast.inner.waiting_for_buffer = true;
    let (stop, redraw) = cast.shm_fence_handled(true);
    assert!(stop.is_none());
    assert!(redraw);
    cast.inner.waiting_for_buffer = true;
    let (stop, redraw) = cast.shm_fence_handled(false);
    assert!(stop.is_some());
    assert!(!redraw);
    assert!(cast.inner.take_shm_readback(3).is_none());
}

#[test]
fn dma_failures_fall_back_once() {
    let mut cast = cast();
    ready(&mut cast, true);
    cast.inner.state_changed(StreamState::Streaming, 9);
    assert!(cast.inner.schedule_shm_fallback());
    assert!(!cast.inner.schedule_shm_fallback());
    assert!(cast.inner.dma_failed);
    assert!(!cast.is_active());
    let objects = cast.recover_with_shm().ok().unwrap();
    assert_eq!(
        objects,
        make_video_params_for_initial_negotiation(
            &FormatSet::new(),
            FrameSize { w: 16, h: 8 },
            60_000,
            false
        )
    );
    assert!(cast.formats.is_empty());
    assert!(matches!(
        cast.inner.state,
        CastState::ConfirmationPending {
            extra_negotiation_result: None,
            ..
        }
    ));
    let mut empty: TestCast = PipeWire::new(true)
        .start_cast(
            1,
            2,
            "output",
            FormatSet::new(),
            Size { w: 0, h: 8 },
            60_000,
            false,
            CursorMode::Hidden,
        )
        .0;
    assert!(empty.recover_with_shm().is_err());
    assert!(empty.inner.stopping);
}

#[test]
fn trackers_are_made_when_needed() {
    let mut cast = cast();
    assert_eq!(cast.missing_trackers(true), None);
    ready(&mut cast, true);
    let both = NeededTrackers {
        frame: true,
        cursor: true,
    };
    assert_eq!(cast.missing_trackers(true), Some(both));
    cast.trackers_made(Some(1), Some(2));
    assert_eq!(
        cast.missing_trackers(true),
        Some(NeededTrackers {
            frame: false,
            cursor: false
        })
    );
    assert_eq!(cast.missing_trackers(false), Some(both));
    cast.drop_trackers();
    assert_eq!(cast.missing_trackers(true), Some(both));
}

#[test]
fn frames_are_shown_when_they_or_the_cursor_change() {
    let mut cast = cast();
    ready(&mut cast, true);
    let here = Point { x: 1, y: 1 };
    let there = Point { x: 2, y: 1 };
    let moved = FrameNeed::Dequeue {
        redraw_cursor: false,
    };
    assert_eq!(cast.damage_found(false, false, here), moved);
    assert_eq!(cast.damage_found(false, false, here), FrameNeed::Skip);
    assert_eq!(cast.damage_found(true, false, here), moved);
    assert_eq!(cast.damage_found(false, false, there), moved);
    assert_eq!(
        cast.damage_found(false, true, there),
        FrameNeed::Dequeue {
            redraw_cursor: true
        }
    );
    cast.cursor_mode = CursorMode::Hidden;
    assert_eq!(cast.damage_found(false, true, here), FrameNeed::Skip);
}

#[test]
fn targets_follow_the_agreed_sharing() {
    let mut cast = cast();
    ready(&mut cast, true);
    cast.inner.waiting_for_buffer = true;
    assert_eq!(
        cast.render_buffer_dequeued(Some(40)),
        Some(RenderTarget::Dma { fd: 40 })
    );
    assert!(!cast.inner.waiting_for_buffer);
    ready(&mut cast, false);
    assert_eq!(
        cast.render_buffer_dequeued(Some(40)),
        Some(RenderTarget::Shm {
            fd: 40,
            fourcc: Fourcc::Xrgb8888
        })
    );
}

#[test]
fn frames_are_counted_and_failures_are_forgotten() {
    let mut cast = cast();
    ready(&mut cast, true);
    cast.trackers_made(Some(1), Some(2));
    let mut buffer = stream_buffer(1);
    buffer.planes[0].maxsize = 100;
    cast.frame_rendered(&mut buffer, SharingBuf::Dma);
    assert_eq!(cast.sequence_counter, 1);
    assert_eq!(buffer.header, Some(Header { flags: 0, seq: 1 }));
    assert_eq!(buffer.planes[0].chunk.size, 100);
    assert_eq!(buffer.planes[0].chunk.flags, CHUNK_FLAG_NONE);
    cast.frame_failed(&mut buffer);
    assert_eq!(cast.sequence_counter, 1);
    assert_eq!(buffer.planes[0].chunk.flags, CHUNK_FLAG_CORRUPTED);
    assert!(matches!(
        cast.inner.state,
        CastState::Ready {
            damage_tracker: None,
            cursor_damage_tracker: None,
            ..
        }
    ));
}

#[test]
fn buffers_are_cleared_by_their_kind() {
    let mut buffer = stream_buffer(1);
    buffer.planes[0].fd = 40;
    assert_eq!(
        TestCast::clear_buffer_dequeued(&buffer),
        ClearTarget::Unknown
    );
    buffer.planes[0].kind = DataKind::DmaBuf;
    assert_eq!(
        TestCast::clear_buffer_dequeued(&buffer),
        ClearTarget::Dma { fd: 40 }
    );
    buffer.planes[0].kind = DataKind::MemFd;
    assert_eq!(
        TestCast::clear_buffer_dequeued(&buffer),
        ClearTarget::Shm { fd: 40 }
    );
    buffer.planes.push(buffer.planes[0]);
    assert_eq!(
        TestCast::clear_buffer_dequeued(&buffer),
        ClearTarget::WrongBlocks
    );
}

#[test]
fn registrations_are_handed_back_at_the_end() {
    let mut cast = cast();
    cast.redraw_scheduled(7);
    cast.queue_after_sync(10, false, Ok(true));
    assert!(cast.fence_registered(10, Some(8)).is_ok());
    let taken = cast.take_registrations();
    assert_eq!(taken.redraw, Some(7));
    assert_eq!(taken.sources.get(&10), Some(&8));
    let taken = cast.take_registrations();
    assert_eq!(taken.redraw, None);
    assert!(taken.sources.is_empty());
}

#[test]
fn every_failure_of_delivery_takes_the_scheduled_redraw() {
    let scheduled = || {
        let mut cast = cast();
        cast.redraw_scheduled(7);
        cast
    };
    let mut stopped = scheduled();
    assert_eq!(stopped.stop_after_sync_failure().unwrap().redraw, Some(7));
    assert_eq!(stopped.scheduled_redraw, None);
    // A redraw that is scheduled later is not taken by another failure.
    stopped.redraw_scheduled(8);
    assert!(stopped.stop_after_sync_failure().is_none());
    assert_eq!(stopped.scheduled_redraw, Some(8));

    let mut unfinished = scheduled();
    let AfterSync::Stop(Some(taken)) = unfinished.queue_after_sync(10, false, Err(UnfinishedFence))
    else {
        panic!("an unfinished fence stops the cast")
    };
    assert_eq!(taken.redraw, Some(7));
    assert_eq!(unfinished.scheduled_redraw, None);

    let mut unregistered = scheduled();
    let Err(Some(taken)) = unregistered.fence_registered(10, None) else {
        panic!("a fence that is not registered stops the cast")
    };
    assert_eq!(taken.redraw, Some(7));
    assert_eq!(unregistered.scheduled_redraw, None);

    let mut undelivered = scheduled();
    let (Some(Some(taken)), false) = undelivered.shm_fence_handled(false) else {
        panic!("a frame that is not delivered stops the cast")
    };
    assert_eq!(taken.redraw, Some(7));
    assert_eq!(undelivered.scheduled_redraw, None);

    let mut empty: TestCast = PipeWire::new(true)
        .start_cast(
            1,
            2,
            "output",
            FormatSet::new(),
            Size { w: 0, h: 8 },
            60_000,
            false,
            CursorMode::Hidden,
        )
        .0;
    empty.redraw_scheduled(7);
    let Err(Some(taken)) = empty.recover_with_shm() else {
        panic!("a cast without a size cannot recover")
    };
    assert_eq!(taken.redraw, Some(7));
    assert_eq!(empty.scheduled_redraw, None);
}

#[test]
fn refused_dmabufs_need_not_match_the_stream_buffer() {
    let mut cast = cast();
    ready(&mut cast, true);
    let mut buffer = stream_buffer(2);
    // Another modifier, no plane at all, and storage that ends before its plane.
    for (allocated, planes) in [
        (6, vec![dma_plane(50, 0)]),
        (6, vec![]),
        (5, vec![dma_plane(51, 4096)]),
    ] {
        assert!(cast
            .inner
            .dmabuf_allocated(&mut buffer, 100, 5, allocated, &planes, true)
            .is_err());
        assert!(cast.inner.dmabufs.is_empty());
        assert_eq!(buffer.planes, stream_buffer(2).planes);
    }
}

#[test]
fn frames_at_the_end_of_time_are_shown() {
    let mut cast = cast();
    let end = Timespan { nanos: MAX_NANOS };
    assert!(matches!(
        cast.check_time_and_schedule(end),
        Scheduling::Render(None)
    ));
    // Less than the allowance too soon, so nothing is put off to a time that cannot be told.
    cast.last_frame_time = Timespan {
        nanos: MAX_NANOS - cast.inner.min_time_between_frames.nanos + 1,
    };
    assert!(matches!(
        cast.check_time_and_schedule(end),
        Scheduling::Render(None)
    ));
}
