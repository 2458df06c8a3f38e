use screencast::geometry::{FrameSize, Point, Rect, Size};

#[test]
fn union_is_the_bounding_box_of_all_corners() {
    let a = Rect { x: 1, y: 2, w: 3, h: 4 };
    let b = Rect { x: -5, y: 4, w: 2, h: 20 };
    assert_eq!(a.merge(b), Rect { x: -5, y: 2, w: 9, h: 22 });
    assert_eq!(a.merge(a), a);
}

#[test]
fn edges_beyond_the_range_count_as_its_end() {
    let a = Rect { x: i32::MAX - 1, y: 0, w: 10, h: 1 };
    let b = Rect { x: i32::MAX - 2, y: 0, w: 2, h: 1 };
    assert!(b.contains_rect(a) || !a.contains_rect(b));
    assert_eq!(a.merge(b), Rect { x: i32::MAX - 2, y: 0, w: 2, h: 1 });
}

#[test]
fn containment_includes_shared_edges() {
    let outer = Rect::from_size(Size { w: 10, h: 10 });
    assert!(outer.contains_rect(outer));
    assert!(outer.contains_rect(Rect { x: 9, y: 9, w: 1, h: 1 }));
    assert!(!outer.contains_rect(Rect { x: 9, y: 9, w: 2, h: 1 }));
    assert!(!outer.contains_rect(Rect { x: -1, y: 0, w: 1, h: 1 }));
}

#[test]
fn offsets_are_clamped() {
    let p = Point { x: i32::MAX, y: 5 };
    assert_eq!(
        p.offset_from(Point { x: -1, y: 2 }),
        Point { x: i32::MAX, y: 3 }
    );
    assert_eq!(
        Point { x: i32::MIN, y: 7 }.opposite(),
        Point { x: i32::MAX, y: -7 }
    );
}

#[test]
fn frame_sizes_keep_dimensions() {
    assert_eq!(
        Size { w: 1920, h: 1080 }.to_frame_size(),
        FrameSize { w: 1920, h: 1080 }
    );
}
