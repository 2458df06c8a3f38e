//! Which part of a frame a destination misses.
//!
//! Every rendered frame gets a stamp. A destination remembers the stamp of the content it holds;
//! the history then tells what has to be copied to bring that destination up to date.

use crate::geometry::{Rect, Size};
use std::collections::VecDeque;
use std::rc::Rc;
use vstd::prelude::*;

verus! {

/// The number of frames that are remembered.
pub const HISTORY_LEN: usize = 16;

/// Identity of successfully copied content, without wrapping sequence counters.
///
/// Stamps are the same exactly if they share their token. The ghost number tells which of the
/// program's allocations, counted in the order in which they are made, the token owns.
pub struct ContentStamp {
    token: Rc<()>,
    allocation: Ghost<int>,
}

impl ContentStamp {
    /// Two stamps are the same if they have the same identity.
    pub closed spec fn identity(&self) -> int {
        self.allocation@
    }

    /// A new stamp.
    ///
    /// Calls `Rc::new`. Trusted: it makes an allocation of its own, which comes after the one
    /// that the stamp `previous` still owns. It also differs from the allocations of all other
    /// stamps that are still held, such as those of another history; that is not stated.
    #[verifier::external_body]
    fn after(previous: &Option<ContentStamp>) -> (stamp: ContentStamp)
        ensures
            *previous matches Some(previous) ==> previous.identity() < stamp.identity(),
    {
        ContentStamp { token: Rc::new(()), allocation: Ghost(arbitrary()) }
    }

    /// Whether both stamps are the same.
    ///
    /// Calls `Rc::ptr_eq`. Trusted: it tells whether both tokens own the same allocation.
    #[verifier::external_body]
    fn same(&self, other: &ContentStamp) -> (same: bool)
        ensures
            same == (self.identity() == other.identity()),
    {
        Rc::ptr_eq(&self.token, &other.token)
    }
}

impl Clone for ContentStamp {
    fn clone(&self) -> (copy: Self)
        ensures
            copy.identity() == self.identity(),
    {
        ContentStamp { token: self.token.clone(), allocation: self.allocation }
    }
}

/// What one rendered frame changed.
struct FrameDamage {
    stamp: ContentStamp,
    bounds: Option<Rect>,
}

/// The damage of the most recent frames, oldest first.
pub struct ReadbackDamage {
    frames: VecDeque<FrameDamage>,
    /// The stamp of the newest frame, held across a reset so that later stamps differ from it.
    newest: Option<ContentStamp>,
}

/// The bounding rectangle of all given rectangles.
pub open spec fn bounding(rects: Seq<Rect>) -> Option<Rect>
    decreases rects.len(),
{
    if rects.len() == 0 {
        None
    } else {
        add_bounds(bounding(rects.drop_last()), Some(rects.last()))
    }
}

/// Extends bounds by another rectangle.
pub open spec fn add_bounds(bounds: Option<Rect>, more: Option<Rect>) -> Option<Rect> {
    match (bounds, more) {
        (Some(a), Some(b)) => Some(a.union(b)),
        (Some(a), None) => Some(a),
        (None, more) => more,
    }
}

/// One frame of a history: the identity of its stamp, and the bounds of what it changed.
pub struct Change {
    pub stamp: int,
    pub bounds: Option<Rect>,
}

/// The remembered frames, oldest first, and the last stamp that was given out.
pub struct History {
    pub frames: Seq<Change>,
    pub newest: Option<int>,
}

impl History {
    /// At most `HISTORY_LEN` frames, with rising stamps up to the newest, and with the bounds of
    /// areas.
    pub open spec fn wf(self) -> bool {
        &&& self.frames.len() <= HISTORY_LEN
        &&& forall|i: int, j: int|
            0 <= i < j < self.frames.len() ==> (#[trigger] self.frames[i]).stamp < (
            #[trigger] self.frames[j]).stamp
        &&& self.frames.len() > 0 ==> self.newest == Some(self.frames.last().stamp)
        &&& forall|i: int|
            0 <= i < self.frames.len() && (#[trigger] self.frames[i]).bounds is Some
                ==> self.frames[i].bounds->0.valid()
    }

    /// Whether `after` is this history with one more frame that changed `bounds`. The oldest frame
    /// is forgotten if there were `HISTORY_LEN` already.
    pub open spec fn recorded(self, bounds: Option<Rect>, after: History) -> bool {
        &&& after.frames.len() > 0
        &&& after.frames.drop_last() == if self.frames.len() < HISTORY_LEN {
            self.frames
        } else {
            self.frames.drop_first()
        }
        &&& after.frames.last().bounds == bounds
        &&& after.newest == Some(after.frames.last().stamp)
        &&& self.newest matches Some(newest) ==> newest < after.frames.last().stamp
    }
}

/// The bounds of everything that the given frames changed.
pub open spec fn changed(frames: Seq<Change>) -> Option<Rect>
    decreases frames.len(),
{
    if frames.len() == 0 {
        None
    } else {
        add_bounds(changed(frames.drop_last()), frames.last().bounds)
    }
}

/// Whether a bounding rectangle is not worth a partial copy.
pub open spec fn needs_full_copy(rect: Rect, size: Size) -> bool {
    !Rect::at_origin(size).encloses(rect) || rect.w * rect.h * 2 >= size.w * size.h
}

/// What to copy to a destination that misses the given frames.
pub open spec fn region_of(missing: Seq<Change>, size: Size) -> Option<Rect> {
    match changed(missing) {
        None => None,
        Some(rect) => Some(
            if needs_full_copy(rect, size) {
                Rect::at_origin(size)
            } else {
                rect
            },
        ),
    }
}

/// Whether frame number `index` is the oldest one that carries `stamp`.
pub open spec fn first_at(frames: Seq<Change>, stamp: int, index: int) -> bool {
    &&& 0 <= index < frames.len()
    &&& frames[index].stamp == stamp
    &&& forall|j: int| 0 <= j < index ==> #[trigger] frames[j].stamp != stamp
}

/// The oldest frame that carries `stamp`.
pub open spec fn position(frames: Seq<Change>, stamp: int) -> Option<int> {
    if exists|index: int| first_at(frames, stamp, index) {
        Some(choose|index: int| first_at(frames, stamp, index))
    } else {
        None
    }
}

/// What to copy to a destination that holds the content of `stamp`, if it holds any: everything,
/// unless the stamp is still remembered.
pub open spec fn region_since(frames: Seq<Change>, stamp: Option<int>, size: Size) -> Option<Rect> {
    match stamp {
        None => Some(Rect::at_origin(size)),
        Some(stamp) => match position(frames, stamp) {
            None => Some(Rect::at_origin(size)),
            Some(index) => region_of(frames.skip(index + 1), size),
        },
    }
}

/// The identity of an optional stamp.
pub open spec fn identity_of(stamp: Option<&ContentStamp>) -> Option<int> {
    match stamp {
        None => None,
        Some(stamp) => Some(stamp.identity()),
    }
}

impl View for ReadbackDamage {
    type V = History;

    closed spec fn view(&self) -> History {
        History {
            frames: Seq::new(
                self.frames@.len(),
                |i: int|
                    Change {
                        stamp: self.frames@[i].stamp.identity(),
                        bounds: self.frames@[i].bounds,
                    },
            ),
            newest: match self.newest {
                None => None,
                Some(stamp) => Some(stamp.identity()),
            },
        }
    }
}

impl Default for ReadbackDamage {
    fn default() -> (history: Self)
        ensures
            history@.wf(),
            history@.frames == Seq::<Change>::empty(),
            history@.newest is None,
    {
        let history = ReadbackDamage { frames: VecDeque::new(), newest: None };
        assert(history@.frames =~= Seq::<Change>::empty());
        history
    }
}

impl ReadbackDamage {
    /// Forgets all frames.
    pub fn reset(&mut self)
        ensures
            final(self)@.wf(),
            final(self)@.frames == Seq::<Change>::empty(),
            final(self)@.newest == old(self)@.newest,
    {
        self.frames.clear();
        assert(self@.frames =~= Seq::<Change>::empty());
    }

    /// Adds a frame that changed the given rectangles.
    pub fn record(&mut self, damage: &[Rect])
        requires
            old(self)@.wf(),
            forall|i: int| 0 <= i < damage@.len() ==> (#[trigger] damage@[i]).valid(),
        ensures
            final(self)@.wf(),
            old(self)@.recorded(bounding(damage@), final(self)@),
    {
        let ghost before = self@.frames;
        let mut bounds: Option<Rect> = None;
        for i in 0..damage.len()
            invariant
                bounds == bounding(damage@.take(i as int)),
                bounds is Some ==> bounds->0.valid(),
                forall|i: int| 0 <= i < damage@.len() ==> (#[trigger] damage@[i]).valid(),
        {
            assert(damage@.take(i + 1).drop_last() =~= damage@.take(i as int));
            let rect: Rect = damage[i];
            bounds = match bounds {
                Some(merged) => Some(merged.merge(rect)),
                None => Some(rect),
            };
        }
        assert(damage@.take(damage@.len() as int) =~= damage@);
        let stamp = ContentStamp::after(&self.newest);
        self.newest = Some(stamp.clone());
        self.frames.push_back(FrameDamage { stamp, bounds });
        assert(self@.frames.drop_last() =~= before);
        let ghost mut dropped: int = 0;
        if self.frames.len() > HISTORY_LEN {
            self.frames.pop_front();
            assert(self@.frames.drop_last() =~= before.drop_first());
            proof {
                dropped = 1;
            }
        }
        proof {
            let frames = self@.frames;
            assert forall|i: int, j: int| 0 <= i < j < frames.len() implies (
            #[trigger] frames[i]).stamp < (#[trigger] frames[j]).stamp by {
                assert(frames[i] == before[i + dropped]);
                if j < frames.len() - 1 {
                    assert(frames[j] == before[j + dropped]);
                } else {
                    assert(before[i + dropped].stamp <= before.last().stamp);
                }
            }
            assert forall|i: int|
                0 <= i < frames.len() && (
                #[trigger] frames[i]).bounds is Some implies frames[i].bounds->0.valid() by {
                if i < frames.len() - 1 {
                    assert(frames[i] == before[i + dropped]);
                }
            }
        }
    }

    /// The stamp of the newest frame, and what to copy of it to a destination that holds the
    /// content of `stamp`.
    pub fn since(&self, stamp: Option<&ContentStamp>, size: Size) -> (needed: (
        ContentStamp,
        Option<Rect>,
    ))
        requires
            self@.wf(),
            self@.frames.len() > 0,
        ensures
            needed.0.identity() == self@.frames.last().stamp,
            needed.1 == region_since(self@.frames, identity_of(stamp), size),
    {
        let current = self.frames[self.frames.len() - 1].stamp.clone();
        let full = Rect::from_size(size);
        let stamp = match stamp {
            Some(stamp) => stamp,
            None => {
                return (current, Some(full));
            },
        };
        let mut index: usize = 0;
        while index < self.frames.len() && !stamp.same(&self.frames[index].stamp)
            invariant
                index <= self.frames@.len(),
                forall|j: int| 0 <= j < index ==> #[trigger] self@.frames[j].stamp != stamp.identity(),
            decreases self.frames@.len() - index,
        {
            index = index + 1;
        }
        if index == self.frames.len() {
            return (current, Some(full));
        }
        proof {
            assert(first_at(self@.frames, stamp.identity(), index as int));
            let found = position(self@.frames, stamp.identity())->0;
            assert(first_at(self@.frames, stamp.identity(), found));
            assert(found == index);
        }
        let ghost missing = self@.frames.skip(index + 1);
        let mut bounds: Option<Rect> = None;
        let mut next: usize = index + 1;
        while next < self.frames.len()
            invariant
                self@.wf(),
                index < next <= self.frames@.len(),
                missing == self@.frames.skip(index + 1),
                bounds == changed(missing.take(next - index - 1)),
                bounds is Some ==> bounds->0.valid(),
            decreases self.frames@.len() - next,
        {
            proof {
                let done = missing.take(next - index);
                assert(done.drop_last() =~= missing.take(next - index - 1));
                assert(done.last() == self@.frames[next as int]);
            }
            if let Some(rect) = self.frames[next].bounds {
                bounds = match bounds {
                    Some(merged) => Some(merged.merge(rect)),
                    None => Some(rect),
                };
            }
            next = next + 1;
        }
        assert(missing.take(missing.len() as int) =~= missing);
        match bounds {
            None => (current, None),
            Some(rect) => {
                // One bounding rectangle caps the number of copies even for fragmented damage.
                // Large regions keep the contiguous full-frame copy path.
                if !full.contains_rect(rect) || is_large(rect, size) {
                    (current, Some(full))
                } else {
                    (current, Some(rect))
                }
            },
        }
    }
}

/// Whether an area covers at least half of a frame.
fn is_large(rect: Rect, size: Size) -> (large: bool)
    requires
        rect.valid(),
    ensures
        large == (rect.w * rect.h * 2 >= size.w * size.h),
{
    proof {
        let (a, b, c, d) = (rect.w as int, rect.h as int, size.w as int, size.h as int);
        assert(0 <= a * b <= 0x7fff_ffff * 0x7fff_ffff) by (nonlinear_arith)
            requires
                0 <= a <= 0x7fff_ffff,
                0 <= b <= 0x7fff_ffff,
        ;
        assert(-0x4000_0000_0000_0000 <= c * d <= 0x4000_0000_0000_0000) by (nonlinear_arith)
            requires
                -0x8000_0000 <= c <= 0x7fff_ffff,
                -0x8000_0000 <= d <= 0x7fff_ffff,
        ;
    }
    rect.w as i64 * rect.h as i64 * 2 >= size.w as i64 * size.h as i64
}

/// Bounds that do not start before the origin enclose the bounds of every frame they are made of.
proof fn changed_encloses_each(frames: Seq<Change>, i: int)
    requires
        0 <= i < frames.len(),
        frames[i].bounds is Some,
    ensures
        changed(frames) is Some,
        changed(frames)->0.x >= 0 && changed(frames)->0.y >= 0 ==> changed(frames)->0.encloses(
            frames[i].bounds->0,
        ),
    decreases frames.len(),
{
    if i < frames.len() - 1 {
        changed_encloses_each(frames.drop_last(), i);
    }
    if let (Some(a), Some(b)) = (changed(frames.drop_last()), frames.last().bounds) {
        crate::geometry::union_encloses_both(a, b);
    }
}

/// The bounds of what areas changed are an area.
pub proof fn changed_is_an_area(frames: Seq<Change>)
    requires
        forall|i: int|
            0 <= i < frames.len() && (#[trigger] frames[i]).bounds is Some
                ==> frames[i].bounds->0.valid(),
    ensures
        changed(frames) is Some ==> changed(frames)->0.valid(),
    decreases frames.len(),
{
    if frames.len() > 0 {
        changed_is_an_area(frames.drop_last());
        assert(frames[frames.len() - 1] == frames.last());
        if let (Some(a), Some(b)) = (changed(frames.drop_last()), frames.last().bounds) {
            crate::geometry::union_encloses_both(a, b);
        }
    }
}

/// Every pixel of the frame that a missing frame changed is part of what gets copied.
pub proof fn region_covers_missing_changes(
    missing: Seq<Change>,
    size: Size,
    i: int,
    px: int,
    py: int,
)
    requires
        0 <= i < missing.len(),
        missing[i].bounds is Some,
        missing[i].bounds->0.has_pixel(px, py),
        0 <= px < size.w,
        0 <= py < size.h,
    ensures
        region_of(missing, size) is Some,
        region_of(missing, size)->0.has_pixel(px, py),
{
    changed_encloses_each(missing, i);
    let rect = changed(missing)->0;
    if !needs_full_copy(rect, size) {
        crate::geometry::enclosing_keeps_pixels(rect, missing[i].bounds->0, px, py);
    }
}

/// What gets copied never leaves the frame.
pub proof fn region_stays_in_frame(missing: Seq<Change>, size: Size)
    ensures
        region_of(missing, size) matches Some(region) ==> Rect::at_origin(size).encloses(region),
{
}

/// The frame that carries a stamp is the only one.
proof fn position_is_unique(history: History, index: int)
    requires
        history.wf(),
        0 <= index < history.frames.len(),
    ensures
        position(history.frames, history.frames[index].stamp) == Some(index),
{
    let stamp = history.frames[index].stamp;
    assert(first_at(history.frames, stamp, index));
    let found = position(history.frames, stamp)->0;
    assert(first_at(history.frames, stamp, found));
    assert(found == index);
}

/// A destination that holds the newest frame needs nothing.
pub proof fn newest_frame_needs_nothing(history: History, size: Size)
    requires
        history.wf(),
        history.frames.len() > 0,
    ensures
        region_since(history.frames, Some(history.frames.last().stamp), size) is None,
{
    position_is_unique(history, history.frames.len() - 1);
}

/// A destination whose frame is remembered needs what the frames after it changed.
pub proof fn remembered_frame_needs_later_changes(history: History, index: int, size: Size)
    requires
        history.wf(),
        0 <= index < history.frames.len(),
    ensures
        region_since(history.frames, Some(history.frames[index].stamp), size) == region_of(
            history.frames.skip(index + 1),
            size,
        ),
{
    position_is_unique(history, index);
}

/// A destination whose stamp is not remembered needs the whole frame.
pub proof fn unknown_stamp_needs_everything(history: History, stamp: int, size: Size)
    requires
        forall|i: int| 0 <= i < history.frames.len() ==> #[trigger] history.frames[i].stamp != stamp,
    ensures
        region_since(history.frames, Some(stamp), size) == Some(Rect::at_origin(size)),
{
}

/// Whether state number `k` is followed by one with one more recorded frame.
pub open spec fn is_recording(states: Seq<History>, k: int) -> bool {
    states[k].recorded(states[k + 1].frames.last().bounds, states[k + 1])
}

/// Whether each state but the last is followed by one with one more recorded frame.
pub open spec fn all_recordings(states: Seq<History>) -> bool {
    forall|k: int| 0 <= k < states.len() - 1 ==> #[trigger] is_recording(states, k)
}

proof fn recordings_before_last(states: Seq<History>)
    requires
        states.len() > 1,
        all_recordings(states),
    ensures
        all_recordings(states.drop_last()),
        states.drop_last().last().recorded(states.last().frames.last().bounds, states.last()),
{
    let before = states.drop_last();
    assert forall|k: int| 0 <= k < before.len() - 1 implies #[trigger] is_recording(before, k) by {
        assert(is_recording(states, k));
    }
    assert(is_recording(states, states.len() - 2));
}

/// Stamps only rise.
proof fn newest_stamp_rises(states: Seq<History>)
    requires
        states.len() > 0,
        all_recordings(states),
        states[0].newest is Some,
    ensures
        states.last().newest is Some,
        states[0].newest->0 <= states.last().newest->0,
    decreases states.len(),
{
    if states.len() > 1 {
        recordings_before_last(states);
        newest_stamp_rises(states.drop_last());
    }
}

/// After a number of recordings, as many frames at the end of the history are newer than the
/// start.
proof fn recorded_frames_are_newer(states: Seq<History>, i: int)
    requires
        states.len() > 0,
        all_recordings(states),
        states[0].newest is Some,
        0 <= i < states.last().frames.len(),
        i >= states.last().frames.len() - (states.len() - 1),
    ensures
        states[0].newest->0 < states.last().frames[i].stamp,
    decreases states.len(),
{
    let before = states.drop_last();
    let (old, new) = (before.last(), states.last());
    recordings_before_last(states);
    newest_stamp_rises(before);
    assert(new.frames.drop_last().len() == new.frames.len() - 1);
    if i < new.frames.len() - 1 {
        let kept = if old.frames.len() < HISTORY_LEN { i } else { i + 1 };
        assert(new.frames.drop_last()[i] == old.frames[kept]);
        recorded_frames_are_newer(before, kept);
    }
}

/// Once `HISTORY_LEN` further frames are recorded, a destination that was up to date before needs
/// the whole frame, and so does one that held any earlier frame.
pub proof fn old_stamps_are_forgotten(states: Seq<History>, stamp: int, size: Size)
    requires
        states.len() > HISTORY_LEN,
        states[0].wf(),
        states.last().wf(),
        all_recordings(states),
        states[0].newest matches Some(newest) && stamp <= newest,
    ensures
        region_since(states.last().frames, Some(stamp), size) == Some(Rect::at_origin(size)),
{
    let last = states.last();
    assert forall|i: int| 0 <= i < last.frames.len() implies #[trigger] last.frames[i].stamp
        != stamp by {
        recorded_frames_are_newer(states, i);
    }
    unknown_stamp_needs_everything(last, stamp, size);
}

/// After a reset every destination needs the whole frame, whatever is recorded afterwards.
pub proof fn reset_forgets_all_stamps(states: Seq<History>, stamp: int, size: Size)
    requires
        states.len() > 0,
        states[0].frames.len() == 0,
        all_recordings(states),
        states[0].newest matches Some(newest) && stamp <= newest,
    ensures
        region_since(states.last().frames, Some(stamp), size) == Some(Rect::at_origin(size)),
{
    let last = states.last();
    assert forall|i: int| 0 <= i < last.frames.len() implies #[trigger] last.frames[i].stamp
        != stamp by {
        history_grows_by_recordings(states);
        recorded_frames_are_newer(states, i);
    }
    unknown_stamp_needs_everything(last, stamp, size);
}

/// A history holds no more frames than it had at first plus those recorded since.
proof fn history_grows_by_recordings(states: Seq<History>)
    requires
        states.len() > 0,
        all_recordings(states),
    ensures
        states.last().frames.len() <= states[0].frames.len() + states.len() - 1,
    decreases states.len(),
{
    if states.len() > 1 {
        let before = states.drop_last();
        recordings_before_last(states);
        history_grows_by_recordings(before);
        assert(states.last().frames.len() == states.last().frames.drop_last().len() + 1);
    }
}

/// The last sixteen frames are remembered. One more frame comes last, with what it changed, and
/// takes the place of the oldest one if there are sixteen. It has a stamp that is later than all
/// others.
pub proof fn the_last_frames_are_remembered(history: &mut ReadbackDamage, damage: &[Rect], i: int)
    requires
        call_ensures(ReadbackDamage::record, (history, damage), ()),
        old(history)@.wf(),
    ensures
        ({
            let (before, after) = (old(history)@.frames, final(history)@.frames);
            &&& before.len() < 16 ==> after.len() == before.len() + 1
            &&& before.len() == 16 ==> after.len() == 16
            &&& before.len() <= 16
            &&& before.len() < 16 && 0 <= i < before.len() ==> after[i] == before[i]
            &&& before.len() == 16 && 0 <= i < 15 ==> after[i] == before[i + 1]
            &&& after.last().bounds == bounding(damage@)
            &&& 0 <= i < before.len() ==> before[i].stamp < after.last().stamp
            &&& final(history)@.newest == Some(after.last().stamp)
        }),
{
    let (before, after) = (old(history)@.frames, final(history)@.frames);
    assert(after.drop_last().len() == after.len() - 1);
    if before.len() < 16 && 0 <= i < before.len() {
        assert(after.drop_last()[i] == after[i]);
    }
    if before.len() == 16 && 0 <= i < 15 {
        assert(after.drop_last()[i] == after[i]);
    }
    if 0 <= i < before.len() {
        assert(before[i].stamp <= before[before.len() - 1].stamp);
    }
}

/// A history starts without frames. A reset forgets all frames, but not the last stamp.
pub proof fn resets_forget_the_frames(fresh: ReadbackDamage, history: &mut ReadbackDamage)
    requires
        call_ensures(ReadbackDamage::default, (), fresh),
        call_ensures(ReadbackDamage::reset, (history,), ()),
    ensures
        fresh@.frames.len() == 0,
        fresh@.newest is None,
        final(history)@.frames.len() == 0,
        final(history)@.newest == old(history)@.newest,
{
}

/// One more rectangle extends the bounds to the smallest rectangle around both, or is the bounds,
/// if there were none.
pub proof fn each_rectangle_extends_the_bounds(rects: Seq<Rect>, rect: Rect)
    ensures
        bounding(Seq::empty()) is None,
        bounding(rects) is None <==> rects.len() == 0,
        bounding(rects) is None ==> bounding(rects.push(rect)) == Some(rect),
        bounding(rects) matches Some(bounds) ==> bounding(rects.push(rect)) == Some(
            bounds.union(rect),
        ),
{
    assert(rects.push(rect).drop_last() =~= rects);
}

/// One more frame extends what has changed by what it changed, and by nothing if it changed
/// nothing.
pub proof fn each_frame_extends_the_changes(frames: Seq<Change>, frame: Change)
    ensures
        changed(Seq::empty()) is None,
        frame.bounds is None ==> changed(frames.push(frame)) == changed(frames),
        changed(frames) is None ==> changed(frames.push(frame)) == frame.bounds,
        changed(frames) matches Some(bounds) ==> frame.bounds matches Some(more) ==> changed(
            frames.push(frame),
        ) == Some(bounds.union(more)),
{
    assert(frames.push(frame).drop_last() =~= frames);
}

/// A destination without content, or with content that is not remembered, is given the whole frame.
/// One that holds the newest frame, or one since which nothing has changed, is given nothing.
pub proof fn destinations_are_given_what_is_new(
    history: &ReadbackDamage,
    stamp: Option<&ContentStamp>,
    size: Size,
    needed: (ContentStamp, Option<Rect>),
    i: int,
)
    requires
        call_ensures(ReadbackDamage::since, (history, stamp, size), needed),
        history@.wf(),
        history@.frames.len() > 0,
    ensures
        ({
            let frames = history@.frames;
            let whole = Rect { x: 0, y: 0, w: size.w, h: size.h };
            let held = stamp matches Some(stamp) && 0 <= i < frames.len() && frames[i].stamp
                == stamp.identity();
            let later = frames.skip(i + 1);
            &&& needed.0.identity() == frames.last().stamp
            &&& stamp is None ==> needed.1 == Some(whole)
            &&& stamp matches Some(stamp) ==> (forall|k: int|
                0 <= k < frames.len() ==> #[trigger] frames[k].stamp != stamp.identity()) ==> (
            needed.1 == Some(whole))
            &&& held && i == frames.len() - 1 ==> needed.1 is None
            &&& held ==> (needed.1 is None <==> changed(later) is None)
        }),
{
    let frames = history@.frames;
    if let Some(stamp) = stamp {
        if 0 <= i < frames.len() && frames[i].stamp == stamp.identity() {
            remembered_frame_needs_later_changes(history@, i, size);
            assert(changed(Seq::<Change>::empty()) is None);
            if i == frames.len() - 1 {
                assert(frames.skip(i + 1) =~= Seq::<Change>::empty());
            }
        } else if forall|k: int|
            0 <= k < frames.len() ==> #[trigger] frames[k].stamp != stamp.identity() {
            unknown_stamp_needs_everything(history@, stamp.identity(), size);
        }
    }
}

/// A destination that holds a remembered frame is given the bounds of what has changed since, if
/// they lie in the frame and cover less than half of it, and the whole frame otherwise.
pub proof fn small_changes_are_given_alone(
    history: &ReadbackDamage,
    stamp: &ContentStamp,
    size: Size,
    needed: (ContentStamp, Option<Rect>),
    i: int,
)
    requires
        call_ensures(ReadbackDamage::since, (history, Some(stamp), size), needed),
        history@.wf(),
        0 <= i < history@.frames.len(),
        history@.frames[i].stamp == stamp.identity(),
        size.w >= 0,
        size.h >= 0,
    ensures
        changed(history@.frames.skip(i + 1)) matches Some(rect) ==> {
            let inside = rect.x >= 0 && rect.y >= 0 && (rect.x + rect.w <= size.w || size.w
                == i32::MAX) && (rect.y + rect.h <= size.h || size.h == i32::MAX);
            let small = 2 * (rect.w * rect.h) < size.w * size.h;
            &&& inside && small ==> needed.1 == Some(rect)
            &&& !inside || !small ==> needed.1 == Some(Rect { x: 0, y: 0, w: size.w, h: size.h })
        },
{
    let later = history@.frames.skip(i + 1);
    remembered_frame_needs_later_changes(history@, i, size);
    changed_is_an_area(later);
    if let Some(rect) = changed(later) {
        let (a, b) = (rect.w as int, rect.h as int);
        assert(2 * (a * b) == a * b * 2) by (nonlinear_arith);
    }
}

/// A copy of a stamp is the same stamp.
pub proof fn copied_stamps_are_the_same(stamp: &ContentStamp, copy: ContentStamp)
    requires
        call_ensures(ContentStamp::clone, (stamp,), copy),
    ensures
        copy.identity() == stamp.identity(),
{
}

} // verus!
