//! Integer geometry in physical pixels.

use vstd::prelude::*;

verus! {

/// A location in physical pixels.
#[derive(Clone, Copy, Debug, PartialEq, Eq, Structural)]
pub struct Point {
    pub x: i32,
    pub y: i32,
}

/// A width and a height in physical pixels.
#[derive(Clone, Copy, Debug, PartialEq, Eq, Structural)]
pub struct Size {
    pub w: i32,
    pub h: i32,
}

/// The dimensions of a video frame.
#[derive(Clone, Copy, Debug, PartialEq, Eq, Structural)]
pub struct FrameSize {
    pub w: u32,
    pub h: u32,
}

/// A rectangle given by its top-left corner and its dimensions. Edges that lie beyond the
/// coordinate range count as lying at its end.
#[derive(Clone, Copy, Debug, PartialEq, Eq, Structural)]
pub struct Rect {
    pub x: i32,
    pub y: i32,
    pub w: i32,
    pub h: i32,
}

/// The coordinate closest to `value`.
pub open spec fn clamp(value: int) -> int {
    if value > i32::MAX {
        i32::MAX as int
    } else if value < i32::MIN {
        i32::MIN as int
    } else {
        value
    }
}

/// The smallest of four coordinates.
pub open spec fn least(a: int, b: int, c: int, d: int) -> int {
    let ab = if a < b { a } else { b };
    let cd = if c < d { c } else { d };
    if ab < cd { ab } else { cd }
}

/// The largest of four coordinates.
pub open spec fn greatest(a: int, b: int, c: int, d: int) -> int {
    let ab = if a > b { a } else { b };
    let cd = if c > d { c } else { d };
    if ab > cd { ab } else { cd }
}

fn clamped_sum(a: i32, b: i32) -> (sum: i32)
    ensures
        sum == clamp(a + b),
{
    match a.checked_add(b) {
        Some(sum) => sum,
        None => if b > 0 {
            i32::MAX
        } else {
            i32::MIN
        },
    }
}

fn clamped_difference(a: i32, b: i32) -> (difference: i32)
    ensures
        difference == clamp(a - b),
{
    match a.checked_sub(b) {
        Some(difference) => difference,
        None => if b < 0 {
            i32::MAX
        } else {
            i32::MIN
        },
    }
}

fn least_of(a: i32, b: i32, c: i32, d: i32) -> (r: i32)
    ensures
        r == least(a as int, b as int, c as int, d as int),
{
    let ab: i32 = if a < b { a } else { b };
    let cd: i32 = if c < d { c } else { d };
    if ab < cd { ab } else { cd }
}

fn greatest_of(a: i32, b: i32, c: i32, d: i32) -> (r: i32)
    ensures
        r == greatest(a as int, b as int, c as int, d as int),
{
    let ab: i32 = if a > b { a } else { b };
    let cd: i32 = if c > d { c } else { d };
    if ab > cd { ab } else { cd }
}

impl Point {
    /// The offset from `origin` to this point, clamped to the coordinate range.
    pub fn offset_from(self, origin: Point) -> (offset: Point)
        ensures
            offset.x == clamp(self.x - origin.x),
            offset.y == clamp(self.y - origin.y),
    {
        Point {
            x: clamped_difference(self.x, origin.x),
            y: clamped_difference(self.y, origin.y),
        }
    }

    /// The opposite offset, clamped to the coordinate range.
    pub fn opposite(self) -> (offset: Point)
        ensures
            offset.x == clamp(-self.x),
            offset.y == clamp(-self.y),
    {
        Point { x: clamped_difference(0, self.x), y: clamped_difference(0, self.y) }
    }
}

impl Size {
    /// The dimensions as a stream format carries them.
    pub fn to_frame_size(self) -> (size: FrameSize)
        ensures
            size == (FrameSize { w: self.w as u32, h: self.h as u32 }),
    {
        FrameSize { w: self.w as u32, h: self.h as u32 }
    }
}

impl Rect {
    /// Whether the dimensions are those of an area.
    pub open spec fn valid(self) -> bool {
        self.w >= 0 && self.h >= 0
    }

    pub open spec fn right(self) -> int {
        clamp(self.x + self.w)
    }

    pub open spec fn bottom(self) -> int {
        clamp(self.y + self.h)
    }

    /// Whether the pixel in column `px` and row `py` lies in the rectangle.
    pub open spec fn has_pixel(self, px: int, py: int) -> bool {
        self.x <= px < self.x + self.w && self.y <= py < self.y + self.h
    }

    /// Whether `inner` neither starts before nor ends after this rectangle.
    pub open spec fn encloses(self, inner: Rect) -> bool {
        &&& self.x <= inner.x
        &&& self.y <= inner.y
        &&& inner.right() <= self.right()
        &&& inner.bottom() <= self.bottom()
    }

    /// The smallest rectangle around the corners of both rectangles.
    pub open spec fn union(self, other: Rect) -> Rect {
        let left = least(self.x as int, self.right(), other.x as int, other.right());
        let right = greatest(self.x as int, self.right(), other.x as int, other.right());
        let top = least(self.y as int, self.bottom(), other.y as int, other.bottom());
        let bottom = greatest(self.y as int, self.bottom(), other.y as int, other.bottom());
        Rect {
            x: left as i32,
            y: top as i32,
            w: clamp(right - left) as i32,
            h: clamp(bottom - top) as i32,
        }
    }

    /// The rectangle of this size at the origin.
    pub open spec fn at_origin(size: Size) -> Rect {
        Rect { x: 0, y: 0, w: size.w, h: size.h }
    }

    pub fn from_size(size: Size) -> (rect: Rect)
        ensures
            rect == Rect::at_origin(size),
    {
        Rect { x: 0, y: 0, w: size.w, h: size.h }
    }

    pub fn contains_rect(self, inner: Rect) -> (contains: bool)
        ensures
            contains == self.encloses(inner),
    {
        inner.x >= self.x && inner.y >= self.y && clamped_sum(inner.x, inner.w) <= clamped_sum(
            self.x,
            self.w,
        ) && clamped_sum(inner.y, inner.h) <= clamped_sum(self.y, self.h)
    }

    pub fn merge(self, other: Rect) -> (merged: Rect)
        ensures
            merged == self.union(other),
    {
        let (right, bottom) = (clamped_sum(self.x, self.w), clamped_sum(self.y, self.h));
        let (other_right, other_bottom) = (
            clamped_sum(other.x, other.w),
            clamped_sum(other.y, other.h),
        );
        let left: i32 = least_of(self.x, right, other.x, other_right);
        let top: i32 = least_of(self.y, bottom, other.y, other_bottom);
        Rect {
            x: left,
            y: top,
            w: clamped_difference(greatest_of(self.x, right, other.x, other_right), left),
            h: clamped_difference(greatest_of(self.y, bottom, other.y, other_bottom), top),
        }
    }
}

/// The union of two areas is an area. Unless it starts before the origin, it encloses both.
pub proof fn union_encloses_both(a: Rect, b: Rect)
    ensures
        a.union(b).valid(),
        a.union(b).x <= a.x && a.union(b).x <= b.x,
        a.union(b).y <= a.y && a.union(b).y <= b.y,
        a.union(b).x >= 0 && a.union(b).y >= 0 ==> a.union(b).encloses(a) && a.union(b).encloses(b),
{
}

/// A pixel of an area that is enclosed by another area lies in that other area too, except at the
/// very end of the coordinate range.
pub proof fn enclosing_keeps_pixels(outer: Rect, inner: Rect, px: int, py: int)
    requires
        outer.encloses(inner),
        inner.has_pixel(px, py),
        px < i32::MAX,
        py < i32::MAX,
    ensures
        outer.has_pixel(px, py),
{
}

/// Coordinates in the range stay as they are. Others become the end of the range that is closest.
pub proof fn coordinates_stay_in_range(value: int)
    ensures
        -0x8000_0000 <= value <= 0x7fff_ffff ==> clamp(value) == value,
        value > 0x7fff_ffff ==> clamp(value) == 0x7fff_ffff,
        value < -0x8000_0000 ==> clamp(value) == -0x8000_0000,
{
}

/// The smallest and the largest of four coordinates are among them, and the others lie between.
pub proof fn extremes_are_among_the_coordinates(a: int, b: int, c: int, d: int)
    ensures
        ({
            let (low, high) = (least(a, b, c, d), greatest(a, b, c, d));
            &&& low == a || low == b || low == c || low == d
            &&& high == a || high == b || high == c || high == d
            &&& low <= a <= high
            &&& low <= b <= high
            &&& low <= c <= high
            &&& low <= d <= high
        }),
{
}

/// Two areas in range are merged to the area that starts where the first of them starts and ends
/// where the last of them ends, in each direction.
pub proof fn merged_area_is_the_smallest(a: Rect, b: Rect, merged: Rect)
    requires
        call_ensures(Rect::merge, (a, b), merged),
        a.w >= 0 && a.h >= 0 && b.w >= 0 && b.h >= 0,
        a.x + a.w <= i32::MAX && a.y + a.h <= i32::MAX,
        b.x + b.w <= i32::MAX && b.y + b.h <= i32::MAX,
    ensures
        merged.x <= a.x && merged.x <= b.x,
        merged.x == a.x || merged.x == b.x,
        merged.y <= a.y && merged.y <= b.y,
        merged.y == a.y || merged.y == b.y,
        merged.x >= 0 ==> {
            let right = merged.x + merged.w;
            &&& a.x + a.w <= right && b.x + b.w <= right
            &&& right == a.x + a.w || right == b.x + b.w
        },
        merged.y >= 0 ==> {
            let bottom = merged.y + merged.h;
            &&& a.y + a.h <= bottom && b.y + b.h <= bottom
            &&& bottom == a.y + a.h || bottom == b.y + b.h
        },
{
}

/// The order in which areas are merged does not matter, nor whether one is merged twice.
pub proof fn merging_is_symmetric(a: Rect, b: Rect)
    ensures
        a.union(b) == b.union(a),
        a.w >= 0 && a.h >= 0 && a.x + a.w <= i32::MAX && a.y + a.h <= i32::MAX ==> a.union(a) == a,
{
}

/// Pixels of either area are pixels of the merged area.
pub proof fn merging_keeps_pixels(a: Rect, b: Rect, px: int, py: int)
    requires
        a.x >= 0 && a.y >= 0 && b.x >= 0 && b.y >= 0,
        a.w >= 0 && a.h >= 0 && b.w >= 0 && b.h >= 0,
        px < i32::MAX,
        py < i32::MAX,
        a.x <= px < a.x + a.w && a.y <= py < a.y + a.h || b.x <= px < b.x + b.w && b.y <= py < b.y
            + b.h,
    ensures
        a.union(b).x <= px < a.union(b).x + a.union(b).w,
        a.union(b).y <= py < a.union(b).y + a.union(b).h,
{
}

/// A rectangle contains another one exactly if that one starts nowhere before it and ends nowhere
/// after it, where edges beyond the range count as lying at its end.
pub proof fn contained_areas_do_not_stick_out(outer: Rect, inner: Rect, contains: bool)
    requires
        call_ensures(Rect::contains_rect, (outer, inner), contains),
    ensures
        i32::MIN <= outer.x + outer.w <= i32::MAX && i32::MIN <= outer.y + outer.h <= i32::MAX
            && i32::MIN <= inner.x + inner.w <= i32::MAX && i32::MIN <= inner.y + inner.h
            <= i32::MAX ==> (contains <==> outer.x <= inner.x && outer.y <= inner.y && inner.x
            + inner.w <= outer.x + outer.w && inner.y + inner.h <= outer.y + outer.h),
        contains <==> outer.x <= inner.x && outer.y <= inner.y && inner.right() <= outer.right()
            && inner.bottom() <= outer.bottom(),
{
}

/// Edges beyond the range count as lying at its end.
pub proof fn edges_stay_in_range(rect: Rect)
    ensures
        i32::MIN <= rect.x + rect.w <= i32::MAX ==> rect.right() == rect.x + rect.w,
        rect.x + rect.w > i32::MAX ==> rect.right() == i32::MAX,
        rect.x + rect.w < i32::MIN ==> rect.right() == i32::MIN,
        i32::MIN <= rect.y + rect.h <= i32::MAX ==> rect.bottom() == rect.y + rect.h,
        rect.y + rect.h > i32::MAX ==> rect.bottom() == i32::MAX,
        rect.y + rect.h < i32::MIN ==> rect.bottom() == i32::MIN,
{
}

/// An offset leads from the origin to the point, and the opposite one back, as long as both are in
/// range. Otherwise the offset is the closest one that is.
pub proof fn offsets_lead_to_the_point(point: Point, origin: Point, offset: Point, opposite: Point)
    requires
        call_ensures(Point::offset_from, (point, origin), offset),
        call_ensures(Point::opposite, (point,), opposite),
    ensures
        i32::MIN <= point.x - origin.x <= i32::MAX ==> origin.x + offset.x == point.x,
        i32::MIN <= point.y - origin.y <= i32::MAX ==> origin.y + offset.y == point.y,
        point.x - origin.x > i32::MAX ==> offset.x == i32::MAX,
        point.x - origin.x < i32::MIN ==> offset.x == i32::MIN,
        point.y - origin.y > i32::MAX ==> offset.y == i32::MAX,
        point.y - origin.y < i32::MIN ==> offset.y == i32::MIN,
        point.x > i32::MIN ==> point.x + opposite.x == 0,
        point.x == i32::MIN ==> opposite.x == i32::MAX,
        point.y > i32::MIN ==> point.y + opposite.y == 0,
        point.y == i32::MIN ==> opposite.y == i32::MAX,
{
}

/// A size is turned into a frame's size or into an area as it is. What is less than nothing counts
/// from the end of the range of frames.
pub proof fn sizes_are_kept(size: Size, frame: FrameSize, rect: Rect)
    requires
        call_ensures(Size::to_frame_size, (size,), frame),
        call_ensures(Rect::from_size, (size,), rect),
    ensures
        size.w >= 0 ==> frame.w == size.w,
        size.h >= 0 ==> frame.h == size.h,
        size.w < 0 ==> frame.w == size.w + 0x1_0000_0000,
        size.h < 0 ==> frame.h == size.h + 0x1_0000_0000,
        rect == (Rect { x: 0, y: 0, w: size.w, h: size.h }),
{
    let (w, h) = (size.w, size.h);
    assert(w < 0 ==> w as u32 == w + 0x1_0000_0000) by (bit_vector);
    assert(h < 0 ==> h as u32 == h + 0x1_0000_0000) by (bit_vector);
}

/// An area has the pixels that are inside in both directions.
pub proof fn areas_have_their_pixels(rect: Rect, px: int, py: int)
    ensures
        rect.has_pixel(px, py) <==> px >= rect.x && px - rect.x < rect.w && py >= rect.y && py
            - rect.y < rect.h,
        rect.valid() <==> rect.w >= 0 && rect.h >= 0,
{
}

/// Whatever two rectangles are merged, also such that reach beyond the range, or start behind their
/// end: the merged one starts at the first of their edges and ends at the last one, in each
/// direction, unless that is further away than a dimension can tell.
pub proof fn merged_edges_are_the_outermost(a: Rect, b: Rect, merged: Rect, edge: int)
    requires
        call_ensures(Rect::merge, (a, b), merged),
    ensures
        ({
            let end = merged.x + merged.w;
            &&& edge == a.x || edge == b.x || edge == a.right() || edge == b.right() ==> merged.x
                <= edge && (edge <= end || merged.w == i32::MAX)
            &&& merged.x == a.x || merged.x == b.x || merged.x == a.right() || merged.x == b.right()
            &&& merged.w < i32::MAX ==> end == a.x || end == b.x || end == a.right() || end
                == b.right()
            &&& merged.w == i32::MAX ==> a.x >= end || b.x >= end || a.right() >= end || b.right()
                >= end
        }),
        ({
            let end = merged.y + merged.h;
            &&& edge == a.y || edge == b.y || edge == a.bottom() || edge == b.bottom() ==> merged.y
                <= edge && (edge <= end || merged.h == i32::MAX)
            &&& merged.y == a.y || merged.y == b.y || merged.y == a.bottom() || merged.y
                == b.bottom()
            &&& merged.h < i32::MAX ==> end == a.y || end == b.y || end == a.bottom() || end
                == b.bottom()
            &&& merged.h == i32::MAX ==> a.y >= end || b.y >= end || a.bottom() >= end || b.bottom()
                >= end
        }),
{
}

} // verus!
