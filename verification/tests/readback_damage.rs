use screencast::geometry::{Rect, Size};
use screencast::render_helpers::readback_damage::ReadbackDamage;

fn rect(x: i32, y: i32, w: i32, h: i32) -> Rect {
    Rect { x, y, w, h }
}

#[test]
fn tracks_each_destination_and_bounds_history() {
    let mut history = ReadbackDamage::default();
    let size = Size { w: 100, h: 100 };
    let full = Rect::from_size(size);
    history.record(&[full]);
    let (first, region) = history.since(None, size);
    assert_eq!(region, Some(full));
    let a = rect(2, 3, 4, 5);
    history.record(&[a]);
    let (second, region) = history.since(Some(&first), size);
    assert_eq!(region, Some(a));
    history.record(&[]);
    assert_eq!(history.since(Some(&first), size).1, Some(a));
    assert_eq!(history.since(Some(&second), size).1, None);
    for _ in 0..16 {
        history.record(&[]);
    }
    assert_eq!(history.since(Some(&first), size).1, Some(full));
    history.reset();
    history.record(&[]);
    assert_eq!(history.since(Some(&second), size).1, Some(full));
}

#[test]
fn merges_missed_frames_and_falls_back_for_large_bounds() {
    let size = Size { w: 100, h: 100 };
    let full = Rect::from_size(size);
    let mut history = ReadbackDamage::default();
    history.record(&[full]);
    let (stamp, _) = history.since(None, size);
    let a = rect(10, 10, 2, 3);
    let b = rect(20, 20, 2, 3);
    history.record(&[a]);
    history.record(&[b]);
    assert_eq!(history.since(Some(&stamp), size).1, Some(a.merge(b)));
    assert_eq!(a.merge(b), rect(10, 10, 12, 13));
    history.record(&[rect(90, 90, 2, 3)]);
    assert_eq!(history.since(Some(&stamp), size).1, Some(full));
}

#[test]
fn newest_stamp_needs_nothing_and_clones_count_as_the_same() {
    let mut history = ReadbackDamage::default();
    let size = Size { w: 10, h: 10 };
    history.record(&[rect(1, 1, 2, 2)]);
    let (stamp, _) = history.since(None, size);
    assert_eq!(history.since(Some(&stamp), size).1, None);
    assert_eq!(history.since(Some(&stamp.clone()), size).1, None);
}

#[test]
fn stamps_of_another_history_are_unknown() {
    let size = Size { w: 10, h: 10 };
    let mut one = ReadbackDamage::default();
    let mut other = ReadbackDamage::default();
    one.record(&[]);
    other.record(&[]);
    let (stamp, _) = one.since(None, size);
    assert_eq!(
        other.since(Some(&stamp), size).1,
        Some(Rect::from_size(size))
    );
}

#[test]
fn damage_outside_the_frame_needs_a_full_copy() {
    let size = Size { w: 100, h: 100 };
    let mut history = ReadbackDamage::default();
    history.record(&[]);
    let (stamp, _) = history.since(None, size);
    history.record(&[rect(-1, 0, 3, 3)]);
    assert_eq!(
        history.since(Some(&stamp), size).1,
        Some(Rect::from_size(size))
    );
}

#[test]
fn half_of_the_frame_is_copied_whole() {
    let size = Size { w: 100, h: 100 };
    let mut history = ReadbackDamage::default();
    history.record(&[]);
    let (stamp, _) = history.since(None, size);
    history.record(&[rect(0, 0, 100, 49)]);
    assert_eq!(
        history.since(Some(&stamp), size).1,
        Some(rect(0, 0, 100, 49))
    );
    history.record(&[rect(0, 0, 100, 50)]);
    assert_eq!(
        history.since(Some(&stamp), size).1,
        Some(Rect::from_size(size))
    );
}

#[test]
fn fifteen_further_frames_are_still_remembered() {
    let size = Size { w: 100, h: 100 };
    let mut history = ReadbackDamage::default();
    history.record(&[]);
    let (stamp, _) = history.since(None, size);
    for _ in 0..15 {
        history.record(&[rect(5, 5, 1, 1)]);
    }
    assert_eq!(history.since(Some(&stamp), size).1, Some(rect(5, 5, 1, 1)));
    history.record(&[]);
    assert_eq!(
        history.since(Some(&stamp), size).1,
        Some(Rect::from_size(size))
    );
}
