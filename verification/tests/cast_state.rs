use screencast::drm::MODIFIER_LINEAR;
use screencast::geometry::{FrameSize, Point};
use screencast::screencasting::cast_state::{CastState, DmaNegotiationResult};

/// Reports damage for the first frame only, as a tracker does on a static scene.
#[derive(Default)]
struct Tracker {
    seen: bool,
}

impl Tracker {
    fn damaged(&mut self) -> bool {
        !std::mem::replace(&mut self.seen, true)
    }
}

#[test]
fn invalidating_an_undelivered_frame_restores_static_scene_damage() {
    let mut state: CastState<Tracker> = CastState::Ready {
        size: FrameSize { w: 16, h: 8 },
        alpha: false,
        extra_negotiation_result: None,
        damage_tracker: None,
        cursor_damage_tracker: None,
        last_cursor_location: None,
    };
    let damaged = |state: &mut CastState<Tracker>| {
        let CastState::Ready { damage_tracker, .. } = state else {
            unreachable!()
        };
        damage_tracker.get_or_insert_with(Tracker::default).damaged()
    };
    assert!(damaged(&mut state));
    assert!(!damaged(&mut state));
    state.invalidate_damage();
    assert!(damaged(&mut state));
    assert!(!damaged(&mut state));
}

#[test]
fn resuming_clears_damage_history_without_changing_negotiated_layout() {
    let size = FrameSize { w: 16, h: 8 };
    let mut state = CastState::Ready {
        size,
        alpha: false,
        extra_negotiation_result: Some(DmaNegotiationResult {
            modifier: MODIFIER_LINEAR,
            plane_count: 1,
        }),
        damage_tracker: Some(1u32),
        cursor_damage_tracker: Some(2u32),
        last_cursor_location: Some(Point { x: 4, y: 4 }),
    };
    state.invalidate_damage();
    let CastState::Ready {
        size: actual_size,
        alpha,
        extra_negotiation_result,
        damage_tracker,
        cursor_damage_tracker,
        last_cursor_location,
    } = state
    else {
        panic!("negotiation state changed")
    };
    assert_eq!(actual_size, size);
    assert!(!alpha);
    assert_eq!(extra_negotiation_result.unwrap().modifier, MODIFIER_LINEAR);
    assert!(damage_tracker.is_none());
    assert!(cursor_damage_tracker.is_none());
    assert!(last_cursor_location.is_none());
}

#[test]
fn sizes_are_awaited_until_a_format_is_agreed_on() {
    let size = FrameSize { w: 3, h: 4 };
    let mut pending: CastState<()> = CastState::ResizePending { pending_size: size };
    assert_eq!(pending.pending_size(), Some(size));
    assert_eq!(pending.expected_format_size(), size);
    pending.invalidate_damage();
    assert!(matches!(pending, CastState::ResizePending { .. }));
    let confirming: CastState<()> = CastState::ConfirmationPending {
        size,
        alpha: true,
        extra_negotiation_result: None,
    };
    assert_eq!(confirming.pending_size(), Some(size));
    assert_eq!(confirming.expected_format_size(), size);
    let ready: CastState<()> = CastState::Ready {
        size,
        alpha: true,
        extra_negotiation_result: None,
        damage_tracker: None,
        cursor_damage_tracker: None,
        last_cursor_location: None,
    };
    assert_eq!(ready.pending_size(), None);
    assert_eq!(ready.expected_format_size(), size);
}
