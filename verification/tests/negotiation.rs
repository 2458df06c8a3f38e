use screencast::drm::{Format, FormatSet, Fourcc};
use screencast::geometry::FrameSize;
use screencast::screencasting::cast_inner::CastInner;
use screencast::screencasting::cast_state::{CastState, DmaNegotiationResult};
use screencast::screencasting::cursor::CursorMode;
use screencast::screencasting::formats::{
    make_video_params, make_video_params_for_initial_negotiation,
};
use screencast::screencasting::negotiation::{
    AllocationTest, ChangedParam, FormatModifiers, ModifierChoice, Negotiation, RawFormat,
};
use screencast::screencasting::params::{
    Fraction, Key, MetaKind, Object, ObjectKind, Property, Value, VideoFormat,
};
use screencast::screencasting::shm_layout::ShmLayoutError;
use screencast::screencasting::spa::DataKind;
use screencast::screencasting::timing::Timespan;

type Inner = CastInner<u8, u8, u8, u8>;

const SIZE: FrameSize = FrameSize { w: 640, h: 480 };

fn inner() -> Inner {
    Inner::new(SIZE, 60_000)
}

fn format(modifiers: FormatModifiers) -> RawFormat {
    RawFormat {
        format: VideoFormat::Bgrx,
        size: SIZE,
        max_framerate: Fraction { num: 30, denom: 1 },
        modifier: 5,
        modifiers,
    }
}

fn change(inner: &mut Inner, format: RawFormat) -> Negotiation {
    inner.param_changed(ChangedParam::RawVideo(format), CursorMode::Hidden)
}

fn plain(key: Key, value: Value) -> Property {
    Property {
        key,
        mandatory: false,
        dont_fixate: false,
        value,
    }
}

fn buffers(preferred: i32, blocks: i32, kind: DataKind) -> Object {
    Object {
        kind: ObjectKind::Buffers,
        properties: vec![
            plain(
                Key::Buffers,
                Value::IntRange {
                    preferred,
                    least: 2,
                    most: 16,
                },
            ),
            plain(Key::Blocks, Value::Int(blocks)),
            plain(Key::DataType, Value::Data(kind)),
        ],
    }
}

fn meta(kind: MetaKind, size: i32) -> Object {
    Object {
        kind: ObjectKind::Meta,
        properties: vec![
            plain(Key::MetaType, Value::Meta(kind)),
            plain(Key::MetaSize, Value::Int(size)),
        ],
    }
}

#[test]
fn irrelevant_parameters_are_ignored_and_broken_formats_stop() {
    let mut inner = inner();
    for param in [
        ChangedParam::NotFormat,
        ChangedParam::Cleared,
        ChangedParam::Unparsable,
        ChangedParam::NotRawVideo,
    ] {
        assert_eq!(
            inner.param_changed(param, CursorMode::Hidden),
            Negotiation::Ignore
        );
    }
    assert_eq!(
        inner.param_changed(ChangedParam::InvalidRawVideo, CursorMode::Hidden),
        Negotiation::Stop
    );
    let mut unsupported = format(FormatModifiers::Absent);
    unsupported.format = VideoFormat::Other(7);
    assert_eq!(change(&mut inner, unsupported), Negotiation::Stop);
    assert!(matches!(inner.state, CastState::ResizePending { .. }));
}

#[test]
fn wrong_sizes_are_waited_out_only_while_resizing() {
    let mut inner = inner();
    let mut wrong = format(FormatModifiers::Absent);
    wrong.size.w = 1;
    assert_eq!(change(&mut inner, wrong), Negotiation::Ignore);
    // The limit stays as it was.
    assert_eq!(
        inner.min_time_between_frames,
        Timespan::from_micros(16_666)
    );
    change(&mut inner, format(FormatModifiers::Absent));
    let mut wrong = format(FormatModifiers::Absent);
    wrong.size.w = 1;
    assert_eq!(change(&mut inner, wrong), Negotiation::Stop);
}

#[test]
fn formats_without_modifiers_are_ready_in_shared_memory() {
    let mut inner = inner();
    let next = change(&mut inner, format(FormatModifiers::Absent));
    assert_eq!(
        next,
        Negotiation::Update(vec![
            buffers(16, 1, DataKind::MemFd),
            meta(MetaKind::Header, 32)
        ])
    );
    assert!(matches!(
        inner.state,
        CastState::Ready {
            size: SIZE,
            alpha: false,
            extra_negotiation_result: None,
            damage_tracker: None,
            ..
        }
    ));
    assert_eq!(
        inner.min_time_between_frames,
        Timespan::from_micros(33_333)
    );
}

#[test]
fn unspecified_rates_keep_the_limit() {
    let mut inner = inner();
    let mut variable = format(FormatModifiers::Absent);
    variable.max_framerate = Fraction { num: 0, denom: 1 };
    change(&mut inner, variable);
    assert_eq!(
        inner.min_time_between_frames,
        Timespan::from_micros(16_666)
    );
}

#[test]
fn metadata_cursors_ask_for_room() {
    let mut inner = inner();
    let next = inner.param_changed(
        ChangedParam::RawVideo(format(FormatModifiers::Absent)),
        CursorMode::Metadata,
    );
    assert_eq!(
        next,
        Negotiation::Update(vec![
            buffers(16, 1, DataKind::MemFd),
            meta(MetaKind::Header, 32),
            meta(MetaKind::Cursor, 28 + 20 + 384 * 384 * 4),
        ])
    );
}

#[test]
fn open_modifiers_are_tried_offered_and_confirmed() {
    let mut inner = inner();
    let open = FormatModifiers::Open(ModifierChoice::OneOf(vec![5, 6]));
    let Negotiation::Test(test) = change(&mut inner, format(open)) else {
        panic!("an allocation has to be tried")
    };
    assert_eq!(
        test,
        AllocationTest {
            size: SIZE,
            alpha: false,
            fixate: true,
            modifiers: vec![5, 6],
        }
    );
    let formats = FormatSet::from_slice(&[Format {
        code: Fourcc::Xrgb8888,
        modifier: 6,
    }]);
    let Negotiation::Update(objects) =
        inner.allocation_tested(test, Some((5, 2)), &formats, CursorMode::Hidden)
    else {
        panic!("the modifier has to be offered")
    };
    let mut expected = vec![make_video_params(
        &[VideoFormat::Bgrx],
        &[5],
        SIZE,
        60_000,
        true,
    )];
    expected.extend(make_video_params_for_initial_negotiation(
        &formats, SIZE, 60_000, false,
    ));
    assert_eq!(objects, expected);
    let dma = Some(DmaNegotiationResult {
        modifier: 5,
        plane_count: 2,
    });
    assert!(matches!(
        inner.state,
        CastState::ConfirmationPending { size: SIZE, alpha: false, extra_negotiation_result }
            if extra_negotiation_result == dma
    ));
    let next = change(&mut inner, format(FormatModifiers::Fixed));
    assert_eq!(
        next,
        Negotiation::Update(vec![
            buffers(8, 2, DataKind::DmaBuf),
            meta(MetaKind::Header, 32)
        ])
    );
    assert!(matches!(
        inner.state,
        CastState::Ready { extra_negotiation_result, .. } if extra_negotiation_result == dma
    ));
}

#[test]
fn confirming_again_keeps_the_trackers() {
    let mut inner = inner();
    inner.state = CastState::Ready {
        size: SIZE,
        alpha: false,
        extra_negotiation_result: Some(DmaNegotiationResult {
            modifier: 5,
            plane_count: 1,
        }),
        damage_tracker: Some(1),
        cursor_damage_tracker: Some(2),
        last_cursor_location: Some(screencast::geometry::Point { x: 1, y: 2 }),
    };
    change(&mut inner, format(FormatModifiers::Fixed));
    assert!(matches!(
        inner.state,
        CastState::Ready {
            damage_tracker: Some(1),
            cursor_damage_tracker: Some(2),
            last_cursor_location: None,
            ..
        }
    ));
}

#[test]
fn unconfirmed_modifiers_are_tried() {
    let mut inner = inner();
    let Negotiation::Test(test) = change(&mut inner, format(FormatModifiers::Fixed)) else {
        panic!("an allocation has to be tried")
    };
    assert_eq!(test.modifiers, vec![5]);
    assert!(!test.fixate);
    let next = inner.allocation_tested(test, Some((5, 1)), &FormatSet::new(), CursorMode::Hidden);
    assert_eq!(
        next,
        Negotiation::Update(vec![
            buffers(8, 1, DataKind::DmaBuf),
            meta(MetaKind::Header, 32)
        ])
    );
    assert!(matches!(inner.state, CastState::Ready { .. }));
}

#[test]
fn broken_modifier_choices_stop() {
    for choice in [ModifierChoice::NotNumbers, ModifierChoice::NotEnum] {
        let mut inner = inner();
        assert_eq!(
            change(&mut inner, format(FormatModifiers::Open(choice))),
            Negotiation::Stop
        );
    }
}

#[test]
fn failed_allocations_fall_back_to_shared_memory_and_do_not_go_back() {
    let mut inner = inner();
    let Negotiation::Test(test) = change(&mut inner, format(FormatModifiers::Fixed)) else {
        panic!("an allocation has to be tried")
    };
    let next = inner.allocation_tested(test, None, &FormatSet::new(), CursorMode::Hidden);
    assert_eq!(
        next,
        Negotiation::Update(make_video_params_for_initial_negotiation(
            &FormatSet::new(), SIZE, 60_000, false
        ))
    );
    assert!(matches!(
        inner.state,
        CastState::ConfirmationPending {
            extra_negotiation_result: None,
            ..
        }
    ));
    assert_eq!(
        change(&mut inner, format(FormatModifiers::Fixed)),
        Negotiation::Stop
    );
    assert!(matches!(
        change(&mut inner, format(FormatModifiers::Absent)),
        Negotiation::Update(_)
    ));
    inner.dma_failed = true;
    assert_eq!(
        change(&mut inner, format(FormatModifiers::Fixed)),
        Negotiation::Stop
    );
}

#[test]
fn frames_too_large_for_shared_memory_stop() {
    let large = FrameSize {
        w: 500_000_000,
        h: 3,
    };
    let mut inner = Inner::new(large, 60_000);
    assert_eq!(
        inner.request_shm_fallback(large, false),
        Err(ShmLayoutError::BufferSizeOverflow)
    );
    let test = AllocationTest {
        size: large,
        alpha: false,
        fixate: true,
        modifiers: vec![1],
    };
    assert_eq!(
        inner.allocation_tested(test, None, &FormatSet::new(), CursorMode::Hidden),
        Negotiation::Stop
    );
    assert!(matches!(inner.state, CastState::ResizePending { .. }));
}
