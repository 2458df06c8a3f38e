use screencast::drm::{FormatSet, Fourcc};
use screencast::geometry::{FrameSize, Point, Rect, Size};
use screencast::screencasting::cast::{Cast, ClearTarget, NeededTrackers, PipeWire, RenderTarget};
use screencast::screencasting::cast_state::{CastState, DmaNegotiationResult};
use screencast::screencasting::cursor::{CursorData, CursorMode};
use screencast::screencasting::passes::{
    ClearEvent, ClearRequest, ClearStep, PassEnd, RenderEvent, RenderPass, RenderRequest,
    RenderStep,
};
use screencast::screencasting::shm_buffer::allocate_shmbuf;
use screencast::screencasting::spa::{
    Chunk, DataKind, Header, Plane, StreamBuffer, CHUNK_FLAG_CORRUPTED, CHUNK_FLAG_NONE,
};

type TestCast = Cast<u32, u32, bool, u32, ()>;

const SIZE: FrameSize = FrameSize { w: 16, h: 8 };

fn cast(mode: CursorMode, dma: bool) -> TestCast {
    let mut cast: TestCast = PipeWire::new(true)
        .start_cast(
            1,
            2,
            (),
            FormatSet::new(),
            Size { w: 16, h: 8 },
            60_000,
            false,
            mode,
        )
        .0;
    cast.inner.state = CastState::Ready {
        size: SIZE,
        alpha: true,
        extra_negotiation_result: if dma {
            Some(DmaNegotiationResult {
                modifier: 0,
                plane_count: 1,
            })
        } else {
            None
        },
        damage_tracker: None,
        cursor_damage_tracker: None,
        last_cursor_location: None,
    };
    cast
}

fn cursor() -> CursorData {
    CursorData::compute(
        2,
        Point { x: 5, y: 5 },
        Rect {
            x: 4,
            y: 4,
            w: 3,
            h: 3,
        },
    )
}

fn buffer(kind: DataKind) -> StreamBuffer {
    StreamBuffer {
        planes: vec![Plane {
            kind,
            shared: true,
            maxsize: 512,
            fd: 40,
            chunk: Chunk {
                offset: 12,
                size: 0,
                stride: 64,
                flags: CHUNK_FLAG_CORRUPTED,
            },
        }],
        header: Some(Header { flags: 2, seq: 0 }),
    }
}

fn asked(step: RenderStep) -> RenderRequest {
    match step {
        RenderStep::Ask(request) => request,
        RenderStep::Finished(_) => panic!("the pass is over"),
    }
}

fn ended(step: RenderStep) -> PassEnd {
    match step {
        RenderStep::Ask(_) => panic!("the pass is not over"),
        RenderStep::Finished(end) => end,
    }
}

/// A pass up to where a buffer is asked for.
fn dequeuing(cast: &mut TestCast) -> RenderPass {
    let (mut pass, step) = cast.dequeue_buffer_and_render(cursor(), false);
    assert_eq!(
        asked(step),
        RenderRequest::MakeTrackers(NeededTrackers {
            frame: true,
            cursor: true
        })
    );
    let step = pass.step(
        cast,
        RenderEvent::TrackersMade {
            frame: Some(1),
            cursor: Some(2),
        },
    );
    assert_eq!(
        asked(step),
        RenderRequest::FindDamage {
            skip: if cast.cursor_mode == CursorMode::Embedded {
                0
            } else {
                2
            },
            cursor: cast.cursor_mode == CursorMode::Metadata,
        }
    );
    let step = pass.step(
        cast,
        RenderEvent::Damage {
            frame: true,
            cursor: true,
        },
    );
    assert_eq!(asked(step), RenderRequest::Dequeue);
    pass
}

#[test]
fn dma_frames_are_described_rendered_and_delivered() {
    let mut cast = cast(CursorMode::Metadata, true);
    let mut pass = dequeuing(&mut cast);
    let step = pass.step(
        &mut cast,
        RenderEvent::Dequeued(Some(buffer(DataKind::DmaBuf))),
    );
    assert_eq!(asked(step), RenderRequest::DescribeCursor { redraw: true });
    let step = pass.step(&mut cast, RenderEvent::CursorDescribed);
    assert_eq!(
        asked(step),
        RenderRequest::Render(RenderTarget::Dma { fd: 40 })
    );
    let PassEnd::Deliver(buffer) = ended(pass.step(&mut cast, RenderEvent::Rendered(true))) else {
        panic!("the frame is to be delivered")
    };
    assert_eq!(cast.sequence_counter, 1);
    assert_eq!(buffer.header, Some(Header { flags: 0, seq: 1 }));
    assert_eq!(
        buffer.planes[0].chunk,
        Chunk {
            offset: 12,
            size: 500,
            stride: 64,
            flags: CHUNK_FLAG_NONE
        }
    );
    assert!(matches!(
        cast.inner.state,
        CastState::Ready {
            damage_tracker: Some(1),
            cursor_damage_tracker: Some(2),
            last_cursor_location: Some(Point { x: 5, y: 5 }),
            ..
        }
    ));
}

#[test]
fn shm_frames_are_submitted() {
    let mut cast = cast(CursorMode::Embedded, false);
    let mut pass = dequeuing(&mut cast);
    let step = pass.step(
        &mut cast,
        RenderEvent::Dequeued(Some(buffer(DataKind::MemFd))),
    );
    assert_eq!(
        asked(step),
        RenderRequest::Render(RenderTarget::Shm {
            fd: 40,
            fourcc: Fourcc::Argb8888
        })
    );
    let PassEnd::Submit(buffer) = ended(pass.step(&mut cast, RenderEvent::Rendered(true))) else {
        panic!("the frame is to be submitted")
    };
    assert_eq!(cast.sequence_counter, 0);
    assert_eq!(buffer.planes[0].chunk.flags, CHUNK_FLAG_CORRUPTED);
}

#[test]
fn failed_frames_are_returned_and_forgotten() {
    let mut cast = cast(CursorMode::Hidden, true);
    let mut pass = dequeuing(&mut cast);
    pass.step(
        &mut cast,
        RenderEvent::Dequeued(Some(buffer(DataKind::DmaBuf))),
    );
    let PassEnd::Return(buffer) = ended(pass.step(&mut cast, RenderEvent::Rendered(false))) else {
        panic!("the buffer is to be returned")
    };
    assert_eq!(buffer.planes[0].chunk.size, 0);
    assert_eq!(buffer.planes[0].chunk.flags, CHUNK_FLAG_CORRUPTED);
    assert_eq!(cast.sequence_counter, 0);
    assert!(matches!(
        cast.inner.state,
        CastState::Ready {
            damage_tracker: None,
            last_cursor_location: None,
            ..
        }
    ));
}

#[test]
fn frames_without_a_buffer_are_awaited() {
    let mut cast = cast(CursorMode::Hidden, true);
    let mut pass = dequeuing(&mut cast);
    let end = ended(pass.step(&mut cast, RenderEvent::Dequeued(None)));
    assert!(matches!(end, PassEnd::NoBuffer));
    assert!(cast.inner.waiting_for_buffer);
    assert!(matches!(
        cast.inner.state,
        CastState::Ready {
            damage_tracker: None,
            ..
        }
    ));
}

#[test]
fn unchanged_frames_take_no_buffer() {
    let mut cast = cast(CursorMode::Hidden, true);
    let (mut pass, _) = cast.dequeue_buffer_and_render(cursor(), false);
    pass.step(
        &mut cast,
        RenderEvent::TrackersMade {
            frame: Some(1),
            cursor: Some(2),
        },
    );
    let end = ended(pass.step(
        &mut cast,
        RenderEvent::Damage {
            frame: false,
            cursor: false,
        },
    ));
    assert!(matches!(end, PassEnd::Unchanged));
}

#[test]
fn nothing_is_shown_before_a_format_is_agreed_on() {
    let mut cast = cast(CursorMode::Hidden, true);
    cast.inner.state = CastState::ResizePending { pending_size: SIZE };
    let (_, step) = cast.dequeue_buffer_and_render(cursor(), true);
    assert!(matches!(ended(step), PassEnd::NotReady));
}

#[test]
fn cleared_buffers_are_delivered_by_their_kind() {
    for (kind, target, size) in [
        (DataKind::DmaBuf, ClearTarget::Dma { fd: 40 }, 500),
        (DataKind::MemFd, ClearTarget::Shm { fd: 40 }, 512),
    ] {
        let mut cast = cast(CursorMode::Metadata, kind == DataKind::DmaBuf);
        cast.trackers_made(Some(1), Some(2));
        cast.inner
            .shmbufs
            .insert(40, allocate_shmbuf(SIZE).ok().unwrap());
        let (mut pass, step) = cast.dequeue_buffer_and_clear();
        assert!(matches!(step, ClearStep::Ask(ClearRequest::Dequeue)));
        assert!(matches!(
            cast.inner.state,
            CastState::Ready {
                damage_tracker: None,
                cursor_damage_tracker: None,
                ..
            }
        ));
        let step = pass.step(&mut cast, ClearEvent::Dequeued(Some(buffer(kind))));
        assert!(matches!(step, ClearStep::Ask(ClearRequest::HideCursor)));
        let step = pass.step(&mut cast, ClearEvent::CursorHidden);
        assert!(matches!(step, ClearStep::Ask(ClearRequest::Clear(found)) if found == target));
        let step = pass.step(&mut cast, ClearEvent::Cleared(true));
        let ClearStep::Finished(PassEnd::Deliver(buffer)) = step else {
            panic!("the buffer is to be delivered")
        };
        assert_eq!(buffer.planes[0].chunk.size, size);
        assert_eq!(cast.sequence_counter, 1);
    }
}

#[test]
fn buffers_that_cannot_be_cleared_are_returned_or_refused() {
    let mut cast = cast(CursorMode::Hidden, true);
    let (mut pass, _) = cast.dequeue_buffer_and_clear();
    let step = pass.step(&mut cast, ClearEvent::Dequeued(None));
    assert!(matches!(step, ClearStep::Finished(PassEnd::NoBuffer)));
    let (mut pass, _) = cast.dequeue_buffer_and_clear();
    let step = pass.step(
        &mut cast,
        ClearEvent::Dequeued(Some(buffer(DataKind::Other(1)))),
    );
    assert!(matches!(step, ClearStep::Finished(PassEnd::Refused)));
    let (mut pass, _) = cast.dequeue_buffer_and_clear();
    pass.step(
        &mut cast,
        ClearEvent::Dequeued(Some(buffer(DataKind::DmaBuf))),
    );
    let step = pass.step(&mut cast, ClearEvent::Cleared(false));
    let ClearStep::Finished(PassEnd::Return(buffer)) = step else {
        panic!("the buffer is to be returned")
    };
    assert_eq!(buffer.planes[0].chunk.size, 0);
    assert_eq!(cast.sequence_counter, 0);
}

#[test]
fn failed_passes_do_not_look_at_the_extent() {
    // The plane begins after its end, which matters only to what is announced as rendered.
    let broken = || {
        let mut buffer = buffer(DataKind::DmaBuf);
        buffer.planes[0].chunk.offset = buffer.planes[0].maxsize + 1;
        buffer
    };
    let mut cast = cast(CursorMode::Hidden, true);
    let mut pass = dequeuing(&mut cast);
    pass.step(&mut cast, RenderEvent::Dequeued(Some(broken())));
    let PassEnd::Return(returned) = ended(pass.step(&mut cast, RenderEvent::Rendered(false)))
    else {
        panic!("the buffer is to be returned")
    };
    assert_eq!(returned.planes[0].chunk.size, 0);
    let (mut pass, _) = cast.dequeue_buffer_and_clear();
    pass.step(&mut cast, ClearEvent::Dequeued(Some(broken())));
    let step = pass.step(&mut cast, ClearEvent::Cleared(false));
    assert!(matches!(step, ClearStep::Finished(PassEnd::Return(_))));
}
