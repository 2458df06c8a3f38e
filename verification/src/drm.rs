//! Pixel formats and buffer layouts as the kernel's graphics drivers name them.

use vstd::prelude::*;
use vstd::slice::slice_to_vec;

verus! {

/// The modifier that leaves the layout to the driver.
pub const MODIFIER_INVALID: u64 = 0x00ff_ffff_ffff_ffff;

/// The modifier of rows that follow each other.
pub const MODIFIER_LINEAR: u64 = 0;

/// A pixel format.
#[derive(Clone, Copy, Debug, PartialEq, Eq, Structural)]
pub enum Fourcc {
    Argb8888,
    Xrgb8888,
    Abgr8888,
    /// Any other format, by its code.
    Other(u32),
}

/// A pixel format together with the layout of a buffer.
#[derive(Clone, Copy, Debug, PartialEq, Eq, Structural)]
pub struct Format {
    pub code: Fourcc,
    pub modifier: u64,
}

impl Fourcc {
    /// The format of a frame with or without transparency.
    pub open spec fn of_alpha(alpha: bool) -> Fourcc {
        if alpha {
            Fourcc::Argb8888
        } else {
            Fourcc::Xrgb8888
        }
    }

    /// Whether a pixel is four bytes with blue first.
    pub open spec fn is_bgra(self) -> bool {
        self is Argb8888 || self is Xrgb8888
    }

    /// The format of a frame with or without transparency.
    pub fn for_alpha(alpha: bool) -> (fourcc: Fourcc)
        ensures
            fourcc == Fourcc::of_alpha(alpha),
    {
        if alpha {
            Fourcc::Argb8888
        } else {
            Fourcc::Xrgb8888
        }
    }

    /// Whether a pixel is four bytes with blue first.
    pub fn has_bgra_bytes(self) -> (bgra: bool)
        ensures
            bgra == self.is_bgra(),
    {
        matches!(self, Fourcc::Argb8888 | Fourcc::Xrgb8888)
    }
}

/// The given formats without those that occurred before.
pub open spec fn first_occurrences(formats: Seq<Format>) -> Seq<Format>
    decreases formats.len(),
{
    if formats.len() == 0 {
        Seq::empty()
    } else {
        with_format(first_occurrences(formats.drop_last()), formats.last())
    }
}

/// The given formats with one more, unless it is among them.
pub open spec fn with_format(formats: Seq<Format>, format: Format) -> Seq<Format> {
    if formats.contains(format) {
        formats
    } else {
        formats.push(format)
    }
}

/// A set of formats, in the order in which they were added.
#[derive(Debug)]
pub struct FormatSet {
    formats: Vec<Format>,
}

impl View for FormatSet {
    type V = Seq<Format>;

    closed spec fn view(&self) -> Seq<Format> {
        self.formats@
    }
}

impl FormatSet {
    /// No format occurs twice.
    #[verifier::type_invariant]
    spec fn occurs_once(self) -> bool {
        self.formats@.no_duplicates()
    }

    pub fn new() -> (set: FormatSet)
        ensures
            set@ == Seq::<Format>::empty(),
    {
        FormatSet { formats: Vec::new() }
    }

    /// The set of the given formats.
    pub fn from_slice(formats: &[Format]) -> (set: FormatSet)
        ensures
            set@ == first_occurrences(formats@),
    {
        let mut set = FormatSet::new();
        let mut i: usize = 0;
        while i < formats.len()
            invariant
                i <= formats@.len(),
                set@ == first_occurrences(formats@.take(i as int)),
            decreases formats@.len() - i,
        {
            assert(formats@.take(i + 1).drop_last() =~= formats@.take(i as int));
            set.insert(formats[i]);
            i = i + 1;
        }
        assert(formats@.take(i as int) =~= formats@);
        set
    }

    /// Adds a format, and tells whether it is new.
    pub fn insert(&mut self, format: Format) -> (new: bool)
        ensures
            new == !old(self)@.contains(format),
            final(self)@ == with_format(old(self)@, format),
    {
        proof {
            use_type_invariant(&*self);
        }
        if self.contains(format) {
            return false;
        }
        let mut formats: Vec<Format> = Vec::new();
        std::mem::swap(&mut self.formats, &mut formats);
        formats.push(format);
        self.formats = formats;
        true
    }

    pub fn contains(&self, format: Format) -> (contains: bool)
        ensures
            contains == self@.contains(format),
    {
        let mut i: usize = 0;
        while i < self.formats.len()
            invariant
                i <= self.formats@.len(),
                forall|j: int| 0 <= j < i ==> self.formats@[j] != format,
            decreases self.formats@.len() - i,
        {
            if self.formats[i] == format {
                assert(self@[i as int] == format);
                return true;
            }
            i = i + 1;
        }
        false
    }

    pub fn is_empty(&self) -> (empty: bool)
        ensures
            empty == (self@.len() == 0),
    {
        self.formats.len() == 0
    }

    /// The formats. None of them occurs twice.
    pub fn as_slice(&self) -> (formats: &[Format])
        ensures
            formats@ == self@,
            formats@.no_duplicates(),
    {
        proof {
            use_type_invariant(self);
        }
        self.formats.as_slice()
    }
}

impl Clone for FormatSet {
    fn clone(&self) -> (copy: FormatSet)
        ensures
            copy@ == self@,
    {
        proof {
            use_type_invariant(self);
        }
        FormatSet { formats: slice_to_vec(self.formats.as_slice()) }
    }
}

/// A set made of formats holds each of them once, and nothing else.
pub proof fn first_occurrences_are_a_set(formats: Seq<Format>, format: Format)
    ensures
        first_occurrences(formats).no_duplicates(),
        first_occurrences(formats).contains(format) <==> formats.contains(format),
    decreases formats.len(),
{
    if formats.len() > 0 {
        let (shorter, last) = (formats.drop_last(), formats.last());
        first_occurrences_are_a_set(shorter, format);
        first_occurrences_are_a_set(shorter, last);
        let kept = first_occurrences(shorter);
        if shorter.contains(format) {
            assert(formats[shorter.index_of(format)] == format);
            assert(with_format(kept, last)[kept.index_of(format)] == format);
        }
        if formats.contains(format) && !shorter.contains(format) {
            let i = formats.index_of(format);
            if i < shorter.len() {
                assert(shorter[i] == format);
            }
            assert(with_format(kept, last).last() == format);
        }
        if with_format(kept, last).contains(format) && !kept.contains(format) {
            let i = with_format(kept, last).index_of(format);
            if i < kept.len() {
                assert(kept[i] == format);
            }
            assert(formats[formats.len() - 1] == format);
        }
    }
}

/// The modifiers have the values that the kernel gives them.
pub proof fn modifiers_have_their_values()
    ensures
        MODIFIER_INVALID == 0x00ff_ffff_ffff_ffff,
        MODIFIER_LINEAR == 0,
{
}

/// Frames have blue first, with an alpha byte or with an unused one.
pub proof fn frames_have_blue_first(alpha: bool, fourcc: Fourcc, code: Fourcc, bgra: bool)
    requires
        call_ensures(Fourcc::for_alpha, (alpha,), fourcc),
        call_ensures(Fourcc::has_bgra_bytes, (code,), bgra),
    ensures
        fourcc is Argb8888 <==> alpha,
        fourcc is Xrgb8888 <==> !alpha,
        bgra <==> code is Argb8888 || code is Xrgb8888,
{
}

/// A set made of formats has them in the order in which they first occur: one more format comes
/// last if it did not occur before, and is left out if it did.
pub proof fn first_occurrences_keep_their_order(formats: Seq<Format>, format: Format)
    ensures
        first_occurrences(Seq::empty()) == Seq::<Format>::empty(),
        formats.contains(format) ==> first_occurrences(formats.push(format)) == first_occurrences(
            formats,
        ),
        !formats.contains(format) ==> first_occurrences(formats.push(format)) == first_occurrences(
            formats,
        ).push(format),
{
    assert(formats.push(format).drop_last() =~= formats);
    first_occurrences_are_a_set(formats, format);
}

/// A set that is made of formats has each of them once, and nothing else.
pub proof fn made_set_holds_the_formats(formats: &[Format], set: FormatSet, format: Format)
    requires
        call_ensures(FormatSet::from_slice, (formats,), set),
    ensures
        set@.no_duplicates(),
        set@.contains(format) <==> formats@.contains(format),
        formats@.no_duplicates() ==> set@ == formats@,
{
    first_occurrences_are_a_set(formats@, format);
    if formats@.no_duplicates() {
        distinct_formats_all_stay(formats@);
    }
}

/// Nothing is left out where no format occurs twice.
pub proof fn distinct_formats_all_stay(formats: Seq<Format>)
    requires
        formats.no_duplicates(),
    ensures
        first_occurrences(formats) == formats,
    decreases formats.len(),
{
    if formats.len() > 0 {
        let (shorter, last) = (formats.drop_last(), formats.last());
        distinct_formats_all_stay(shorter);
        if shorter.contains(last) {
            assert(formats[shorter.index_of(last)] == last);
        }
        assert(shorter.push(last) =~= formats);
    } else {
        assert(formats =~= Seq::empty());
    }
}

/// A format that is added comes last, unless the set has it already.
pub proof fn added_formats_come_last(set: &mut FormatSet, format: Format, new: bool)
    requires
        call_ensures(FormatSet::insert, (set, format), new),
    ensures
        new <==> !old(set)@.contains(format),
        new ==> final(set)@ == old(set)@.push(format),
        !new ==> final(set)@ == old(set)@,
{
}

/// What a set says of its formats is so, and a copy has the same ones.
pub proof fn sets_tell_their_formats(
    set: &FormatSet,
    format: Format,
    contains: bool,
    empty: bool,
    formats: &[Format],
    copy: FormatSet,
    fresh: FormatSet,
)
    requires
        call_ensures(FormatSet::contains, (set, format), contains),
        call_ensures(FormatSet::is_empty, (set,), empty),
        call_ensures(FormatSet::as_slice, (set,), formats),
        call_ensures(FormatSet::clone, (set,), copy),
        call_ensures(FormatSet::new, (), fresh),
    ensures
        contains <==> exists|i: int| 0 <= i < formats@.len() && formats@[i] == format,
        empty <==> formats@.len() == 0,
        copy@ == formats@,
        formats@ == set@,
        fresh@.len() == 0,
{
}

} // verus!
