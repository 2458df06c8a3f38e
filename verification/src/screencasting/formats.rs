//! The formats that a stream offers.

use crate::drm::{Format, FormatSet, Fourcc, MODIFIER_INVALID};
use crate::geometry::FrameSize;
use crate::screencasting::params::{
    Fraction, Key, Object, ObjectKind, ObjectView, Property, PropertyView, Value, ValueView,
    VideoFormat,
};
use vstd::prelude::*;

verus! {

/// Whether a choice of modifiers is left open until an allocation has succeeded.
pub open spec fn needs_fixation(fixated: bool, modifiers: Seq<u64>) -> bool {
    !fixated && (modifiers.len() > 1 || modifiers == seq![MODIFIER_INVALID])
}

/// The modifiers as the stream writes them.
pub open spec fn as_longs(modifiers: Seq<u64>) -> Seq<i64> {
    modifiers.map_values(|modifier: u64| modifier as i64)
}

/// The properties that every offer begins with.
pub open spec fn media_properties() -> Seq<PropertyView> {
    seq![
        crate::screencasting::params::plain_property(Key::MediaType, ValueView::Video),
        crate::screencasting::params::plain_property(Key::MediaSubtype, ValueView::Raw),
    ]
}

/// One property for each video format.
pub open spec fn format_properties(formats: Seq<VideoFormat>) -> Seq<PropertyView> {
    formats.map_values(
        |format: VideoFormat|
            crate::screencasting::params::plain_property(
                Key::VideoFormat,
                ValueView::Format(format),
            ),
    )
}

/// The modifiers to choose from. Without any, frames are in shared memory.
pub open spec fn modifier_properties(modifiers: Seq<u64>, fixated: bool) -> Seq<PropertyView> {
    if modifiers.len() == 0 {
        Seq::empty()
    } else {
        seq![
            PropertyView {
                key: Key::VideoModifier,
                mandatory: true,
                dont_fixate: needs_fixation(fixated, modifiers),
                value: ValueView::OneOf(as_longs(modifiers)),
            },
        ]
    }
}

/// The properties that every offer ends with. The rate varies, up to a limit in thousandths of a
/// frame per second.
pub open spec fn size_and_rate_properties(size: FrameSize, refresh: u32) -> Seq<PropertyView> {
    seq![
        crate::screencasting::params::plain_property(Key::VideoSize, ValueView::Size(size)),
        crate::screencasting::params::plain_property(
            Key::VideoFramerate,
            ValueView::Rate(Fraction { num: 0, denom: 1 }),
        ),
        crate::screencasting::params::plain_property(
            Key::VideoMaxFramerate,
            ValueView::RateRange {
                default: Fraction { num: refresh, denom: 1000 },
                min: Fraction { num: 1, denom: 1 },
                max: Fraction { num: refresh, denom: 1000 },
            },
        ),
    ]
}

/// An offer.
pub open spec fn video_params(
    formats: Seq<VideoFormat>,
    modifiers: Seq<u64>,
    size: FrameSize,
    refresh: u32,
    fixated: bool,
) -> ObjectView {
    ObjectView {
        kind: ObjectKind::EnumFormat,
        properties: media_properties() + format_properties(formats) + modifier_properties(
            modifiers,
            fixated,
        ) + size_and_rate_properties(size, refresh),
    }
}

/// The video format with or without transparency.
pub open spec fn video_format(alpha: bool) -> VideoFormat {
    if alpha {
        VideoFormat::Bgra
    } else {
        VideoFormat::Bgrx
    }
}

/// The modifiers among the given formats that go with a pixel format, in their order.
pub open spec fn modifiers_of(formats: Seq<Format>, fourcc: Fourcc) -> Seq<u64>
    decreases formats.len(),
{
    if formats.len() == 0 {
        Seq::empty()
    } else if formats.last().code == fourcc {
        modifiers_of(formats.drop_last(), fourcc).push(formats.last().modifier)
    } else {
        modifiers_of(formats.drop_last(), fourcc)
    }
}

/// What is offered with or without transparency: DMA-BUFs, if there are modifiers for them, and
/// then shared memory.
pub open spec fn offers_for_alpha(
    formats: Seq<Format>,
    size: FrameSize,
    refresh: u32,
    alpha: bool,
) -> Seq<ObjectView> {
    let modifiers = modifiers_of(formats, Fourcc::of_alpha(alpha));
    let shm = seq![
        video_params(seq![video_format(alpha)], Seq::empty(), size, refresh, false),
    ];
    if modifiers.len() == 0 {
        shm
    } else {
        seq![video_params(seq![video_format(alpha)], modifiers, size, refresh, false)] + shm
    }
}

/// All that is offered: transparency is preferred if it is asked for.
pub open spec fn offers(formats: Seq<Format>, size: FrameSize, refresh: u32, alpha: bool) -> Seq<
    ObjectView,
> {
    if alpha {
        offers_for_alpha(formats, size, refresh, true) + offers_for_alpha(
            formats,
            size,
            refresh,
            false,
        )
    } else {
        offers_for_alpha(formats, size, refresh, false)
    }
}

/// Whether a choice of modifiers is left open until an allocation has succeeded.
pub fn modifier_choice_needs_fixation(fixated: bool, modifiers: &[u64]) -> (needed: bool)
    ensures
        needed == needs_fixation(fixated, modifiers@),
{
    if !fixated && modifiers.len() == 1 && modifiers[0] == MODIFIER_INVALID {
        assert(modifiers@ =~= seq![MODIFIER_INVALID]);
    }
    !fixated && (modifiers.len() > 1 || modifiers.len() == 1 && modifiers[0] == MODIFIER_INVALID)
}

fn longs(modifiers: &[u64]) -> (numbers: Vec<i64>)
    ensures
        numbers@ == as_longs(modifiers@),
{
    let mut numbers: Vec<i64> = Vec::new();
    let mut i: usize = 0;
    while i < modifiers.len()
        invariant
            i <= modifiers@.len(),
            numbers@ == as_longs(modifiers@.take(i as int)),
        decreases modifiers@.len() - i,
    {
        numbers.push(modifiers[i] as i64);
        i = i + 1;
        assert(numbers@ =~= as_longs(modifiers@.take(i as int)));
    }
    assert(modifiers@.take(i as int) =~= modifiers@);
    numbers
}

/// An offer of the given video formats, in DMA-BUFs with one of the given modifiers, or in shared
/// memory if there are none.
pub fn make_video_params(
    video_formats: &[VideoFormat],
    modifiers: &[u64],
    size: FrameSize,
    refresh: u32,
    fixated: bool,
) -> (object: Object)
    ensures
        object@ == video_params(video_formats@, modifiers@, size, refresh, fixated),
{
    let mut properties: Vec<Property> = vec![
        Property::plain(Key::MediaType, Value::Video),
        Property::plain(Key::MediaSubtype, Value::Raw),
    ];
    let ghost to_view = |property: Property| property@;
    assert(properties@.map_values(to_view) =~= media_properties());
    let mut i: usize = 0;
    while i < video_formats.len()
        invariant
            i <= video_formats@.len(),
            to_view == (|property: Property| property@),
            properties@.map_values(to_view) == media_properties() + format_properties(
                video_formats@.take(i as int),
            ),
        decreases video_formats@.len() - i,
    {
        let ghost before = properties@;
        properties.push(Property::plain(Key::VideoFormat, Value::Format(video_formats[i])));
        i = i + 1;
        assert(properties@.map_values(to_view) =~= before.map_values(to_view).push(
            properties@.last()@,
        ));
        assert(format_properties(video_formats@.take(i as int)) =~= format_properties(
            video_formats@.take(i - 1),
        ).push(properties@.last()@));
    }
    assert(video_formats@.take(i as int) =~= video_formats@);
    if modifiers.len() > 0 {
        let ghost before = properties@;
        properties.push(
            Property {
                key: Key::VideoModifier,
                mandatory: true,
                dont_fixate: modifier_choice_needs_fixation(fixated, modifiers),
                value: Value::OneOf(longs(modifiers)),
            },
        );
        assert(properties@.map_values(to_view) =~= before.map_values(to_view)
            + modifier_properties(modifiers@, fixated));
    } else {
        assert(properties@.map_values(to_view) =~= properties@.map_values(to_view)
            + modifier_properties(modifiers@, fixated));
    }
    let ghost before = properties@;
    properties.push(Property::plain(Key::VideoSize, Value::Size(size)));
    properties.push(
        Property::plain(Key::VideoFramerate, Value::Rate(Fraction { num: 0, denom: 1 })),
    );
    let limit = Fraction { num: refresh, denom: 1000 };
    properties.push(
        Property::plain(
            Key::VideoMaxFramerate,
            Value::RateRange {
                default: limit,
                min: Fraction { num: 1, denom: 1 },
                max: limit,
            },
        ),
    );
    assert(properties@.map_values(to_view) =~= before.map_values(to_view)
        + size_and_rate_properties(size, refresh));
    Object { kind: ObjectKind::EnumFormat, properties }
}

fn modifiers_for(possible: &[Format], fourcc: Fourcc) -> (modifiers: Vec<u64>)
    ensures
        modifiers@ == modifiers_of(possible@, fourcc),
{
    let mut modifiers: Vec<u64> = Vec::new();
    let mut i: usize = 0;
    while i < possible.len()
        invariant
            i <= possible@.len(),
            modifiers@ == modifiers_of(possible@.take(i as int), fourcc),
        decreases possible@.len() - i,
    {
        assert(possible@.take(i + 1).drop_last() =~= possible@.take(i as int));
        if possible[i].code == fourcc {
            modifiers.push(possible[i].modifier);
        }
        i = i + 1;
    }
    assert(possible@.take(i as int) =~= possible@);
    modifiers
}

fn push_offers(
    objects: &mut Vec<Object>,
    possible: &[Format],
    size: FrameSize,
    refresh: u32,
    alpha: bool,
)
    ensures
        crate::screencasting::params::views(final(objects)@) == crate::screencasting::params::views(
            old(objects)@,
        ) + offers_for_alpha(possible@, size, refresh, alpha),
{
    let ghost before = objects@;
    let formats: Vec<VideoFormat> = vec![
        if alpha {
            VideoFormat::Bgra
        } else {
            VideoFormat::Bgrx
        },
    ];
    assert(formats@ =~= seq![video_format(alpha)]);
    let modifiers = modifiers_for(possible, Fourcc::for_alpha(alpha));
    if modifiers.len() > 0 {
        objects.push(
            make_video_params(formats.as_slice(), modifiers.as_slice(), size, refresh, false),
        );
    }
    let none: Vec<u64> = Vec::new();
    assert(none@ =~= Seq::empty());
    objects.push(make_video_params(formats.as_slice(), none.as_slice(), size, refresh, false));
    assert(crate::screencasting::params::views(objects@) =~= crate::screencasting::params::views(
        before,
    ) + offers_for_alpha(possible@, size, refresh, alpha));
}

/// All that is offered when a format is to be agreed on, with the DMA-BUF formats that are
/// possible.
pub fn make_video_params_for_initial_negotiation(
    possible_modifiers: &FormatSet,
    size: FrameSize,
    refresh: u32,
    alpha: bool,
) -> (objects: Vec<Object>)
    ensures
        crate::screencasting::params::views(objects@) == offers(
            possible_modifiers@,
            size,
            refresh,
            alpha,
        ),
        forall|fourcc: Fourcc| #[trigger]
            modifiers_of(possible_modifiers@, fourcc).no_duplicates(),
{
    let possible = possible_modifiers.as_slice();
    proof {
        assert forall|fourcc: Fourcc| #[trigger]
            modifiers_of(possible@, fourcc).no_duplicates() by {
            offered_modifiers_do_not_repeat(possible@, fourcc);
        }
    }
    let mut objects: Vec<Object> = Vec::new();
    assert(crate::screencasting::params::views(objects@) =~= Seq::empty());
    if alpha {
        push_offers(&mut objects, possible, size, refresh, true);
        push_offers(&mut objects, possible, size, refresh, false);
        assert(crate::screencasting::params::views(objects@) =~= offers(
            possible_modifiers@,
            size,
            refresh,
            alpha,
        ));
    } else {
        push_offers(&mut objects, possible, size, refresh, false);
        assert(crate::screencasting::params::views(objects@) =~= offers(
            possible_modifiers@,
            size,
            refresh,
            alpha,
        ));
    }
    objects
}

/// Whether an offer names modifiers.
pub open spec fn names_modifiers(object: ObjectView) -> bool {
    exists|i: int|
        0 <= i < object.properties.len() && (#[trigger] object.properties[i]).key is VideoModifier
}

/// Without DMA-BUF formats only shared memory is offered: no offer names modifiers, and there is
/// one for each transparency that is asked for, the preferred one first.
pub proof fn shm_only_offers_name_no_modifiers(size: FrameSize, refresh: u32, alpha: bool)
    ensures
        offers(Seq::empty(), size, refresh, alpha) == if alpha {
            seq![
                video_params(seq![VideoFormat::Bgra], Seq::empty(), size, refresh, false),
                video_params(seq![VideoFormat::Bgrx], Seq::empty(), size, refresh, false),
            ]
        } else {
            seq![video_params(seq![VideoFormat::Bgrx], Seq::empty(), size, refresh, false)]
        },
        forall|i: int|
            0 <= i < offers(Seq::empty(), size, refresh, alpha).len() ==> !names_modifiers(
                #[trigger] offers(Seq::empty(), size, refresh, alpha)[i],
            ),
{
    let all = offers(Seq::empty(), size, refresh, alpha);
    assert(all =~= if alpha {
        seq![
            video_params(seq![VideoFormat::Bgra], Seq::empty(), size, refresh, false),
            video_params(seq![VideoFormat::Bgrx], Seq::empty(), size, refresh, false),
        ]
    } else {
        seq![video_params(seq![VideoFormat::Bgrx], Seq::empty(), size, refresh, false)]
    });
    assert forall|i: int| 0 <= i < all.len() implies !names_modifiers(#[trigger] all[i]) by {
        let properties = all[i].properties;
        assert forall|j: int| 0 <= j < properties.len() implies !((
        #[trigger] properties[j]).key is VideoModifier) by {}
    }
}

/// Shared memory is always among the offers, so that a consumer without DMA-BUFs finds one.
pub proof fn shared_memory_is_always_offered(
    formats: Seq<Format>,
    size: FrameSize,
    refresh: u32,
    alpha: bool,
)
    ensures
        offers(formats, size, refresh, alpha).last() == video_params(
            seq![VideoFormat::Bgrx],
            Seq::empty(),
            size,
            refresh,
            false,
        ),
        offers(formats, size, refresh, alpha).len() > 0,
{
}

/// Modifiers are offered for their own pixel format only, and in the order in which they are
/// known.
pub proof fn offered_modifiers_are_possible(formats: Seq<Format>, fourcc: Fourcc, modifier: u64)
    ensures
        modifiers_of(formats, fourcc).contains(modifier) <==> formats.contains(
            Format { code: fourcc, modifier },
        ),
    decreases formats.len(),
{
    if formats.len() > 0 {
        let shorter = formats.drop_last();
        let found = modifiers_of(shorter, fourcc);
        let wanted = Format { code: fourcc, modifier };
        offered_modifiers_are_possible(shorter, fourcc, modifier);
        assert(shorter.push(formats.last()) =~= formats);
        if shorter.contains(wanted) {
            let i = shorter.index_of(wanted);
            assert(formats[i] == wanted);
            let k = found.index_of(modifier);
            if formats.last().code == fourcc {
                assert(found.push(formats.last().modifier)[k] == modifier);
            }
        }
        if formats.last().code == fourcc {
            let all = found.push(formats.last().modifier);
            assert(all.last() == formats.last().modifier);
            if all.contains(modifier) && !found.contains(modifier) {
                let k = all.index_of(modifier);
                assert(k == found.len());
                assert(formats.last() == wanted);
            }
        }
        if formats.contains(wanted) && !shorter.contains(wanted) {
            let i = formats.index_of(wanted);
            if i < shorter.len() {
                assert(shorter[i] == wanted);
            }
            assert(formats.last() == wanted);
        }
    }
}

/// Of formats that do not repeat no modifier is offered twice.
pub proof fn offered_modifiers_do_not_repeat(formats: Seq<Format>, fourcc: Fourcc)
    requires
        formats.no_duplicates(),
    ensures
        modifiers_of(formats, fourcc).no_duplicates(),
    decreases formats.len(),
{
    if formats.len() > 0 {
        let (shorter, last) = (formats.drop_last(), formats.last());
        offered_modifiers_do_not_repeat(shorter, fourcc);
        offered_modifiers_are_possible(shorter, fourcc, last.modifier);
        if last.code == fourcc && modifiers_of(shorter, fourcc).contains(last.modifier) {
            let i = shorter.index_of(last);
            assert(formats[i] == formats[formats.len() - 1]);
        }
    }
}

/// The choices of modifiers are the modifiers, in their order.
pub proof fn choices_are_the_modifiers(modifiers: Seq<u64>, k: int)
    requires
        0 <= k < modifiers.len(),
    ensures
        as_longs(modifiers).len() == modifiers.len(),
        as_longs(modifiers)[k] == modifiers[k] as i64,
{
}

/// A choice is left open exactly if no allocation has fixed it and it is one: there are several
/// modifiers, or the one that leaves the layout to the driver.
pub proof fn open_choices_are_choices(fixated: bool, modifiers: &[u64], needed: bool)
    requires
        call_ensures(modifier_choice_needs_fixation, (fixated, modifiers), needed),
    ensures
        fixated ==> !needed,
        modifiers@.len() == 0 ==> !needed,
        !fixated && modifiers@.len() == 1 ==> (needed <==> modifiers@[0]
            == 0x00ff_ffff_ffff_ffff),
        !fixated && modifiers@.len() > 1 ==> needed,
        needed == needs_fixation(fixated, modifiers@),
{
    if modifiers@.len() == 1 {
        assert(modifiers@ =~= seq![modifiers@[0]]);
        if modifiers@ == seq![MODIFIER_INVALID] {
            assert(modifiers@[0] == MODIFIER_INVALID);
        }
    } else if modifiers@ == seq![MODIFIER_INVALID] {
        assert(modifiers@.len() == 1);
    }
}

/// Whether a property is a plain one with the given key and value.
pub open spec fn says(property: PropertyView, key: Key, value: ValueView) -> bool {
    &&& property.key == key
    &&& property.value == value
    &&& !property.mandatory
    &&& !property.dont_fixate
}

/// An offer is one of raw video in each of the formats, in the size, and at a rate that varies up
/// to the refresh rate. If there are modifiers, fixed or not, there is exactly one property about
/// them: it is mandatory, and its choices are exactly those modifiers in their order. If there are
/// none, there is no such property.
pub proof fn offers_say_what_is_offered(
    formats: Seq<VideoFormat>,
    modifiers: Seq<u64>,
    size: FrameSize,
    refresh: u32,
    fixated: bool,
)
    ensures
        ({
            let offer = video_params(formats, modifiers, size, refresh, fixated);
            let extra: int = if modifiers.len() > 0 {
                1
            } else {
                0
            };
            let all = offer.properties;
            let at = 2 + formats.len();
            &&& offer.kind is EnumFormat
            &&& all.len() == 5 + formats.len() + extra
            &&& says(all[0], Key::MediaType, ValueView::Video)
            &&& says(all[1], Key::MediaSubtype, ValueView::Raw)
            &&& forall|f: int|
                0 <= f < formats.len() ==> says(
                    #[trigger] all[2 + f],
                    Key::VideoFormat,
                    ValueView::Format(formats[f]),
                )
            &&& modifiers.len() > 0 ==> {
                &&& all[at as int].key is VideoModifier
                &&& all[at as int].mandatory
                &&& all[at as int].value matches ValueView::OneOf(choices)
                &&& choices.len() == modifiers.len()
                &&& forall|k: int|
                    0 <= k < modifiers.len() ==> #[trigger] choices[k] == modifiers[k] as i64
                &&& fixated ==> !all[at as int].dont_fixate
                &&& !fixated && modifiers.len() > 1 ==> all[at as int].dont_fixate
                &&& !fixated && modifiers.len() == 1 ==> (all[at as int].dont_fixate
                    <==> modifiers[0] == 0x00ff_ffff_ffff_ffff)
            }
            &&& says(all[at + extra], Key::VideoSize, ValueView::Size(size))
            &&& says(
                all[at + extra + 1],
                Key::VideoFramerate,
                ValueView::Rate(Fraction { num: 0, denom: 1 }),
            )
            &&& says(
                all[at + extra + 2],
                Key::VideoMaxFramerate,
                (ValueView::RateRange {
                    default: Fraction { num: refresh, denom: 1000 },
                    min: Fraction { num: 1, denom: 1 },
                    max: Fraction { num: refresh, denom: 1000 },
                }),
            )
            &&& forall|i: int|
                0 <= i < all.len() ==> ((#[trigger] all[i]).key is VideoModifier <==> modifiers.len()
                    > 0 && i == at)
        }),
{
    let all = video_params(formats, modifiers, size, refresh, fixated).properties;
    assert forall|f: int| 0 <= f < formats.len() implies says(
        #[trigger] all[2 + f],
        Key::VideoFormat,
        ValueView::Format(formats[f]),
    ) by {
        assert(all[2 + f] == format_properties(formats)[f]);
    }
    assert forall|i: int| 0 <= i < all.len() implies ((#[trigger] all[i]).key is VideoModifier
        <==> modifiers.len() > 0 && i == 2 + formats.len()) by {
        if 2 <= i < 2 + formats.len() {
            assert(all[2 + (i - 2)] == format_properties(formats)[i - 2]);
        }
    }
    if modifiers.len() == 1 {
        assert(modifiers =~= seq![modifiers[0]]);
        if modifiers == seq![MODIFIER_INVALID] {
            assert(modifiers[0] == MODIFIER_INVALID);
        }
    } else if modifiers == seq![MODIFIER_INVALID] {
        assert(modifiers.len() == 1);
    }
}

/// The modifiers of two lists one after the other are those of the first and then those of the
/// second.
pub proof fn modifiers_keep_their_order(first: Seq<Format>, second: Seq<Format>, fourcc: Fourcc)
    ensures
        modifiers_of(first + second, fourcc) == modifiers_of(first, fourcc) + modifiers_of(
            second,
            fourcc,
        ),
    decreases second.len(),
{
    if second.len() == 0 {
        assert(first + second =~= first);
        assert(modifiers_of(first, fourcc) + modifiers_of(second, fourcc) =~= modifiers_of(
            first,
            fourcc,
        ));
    } else {
        modifiers_keep_their_order(first, second.drop_last(), fourcc);
        assert((first + second).drop_last() =~= first + second.drop_last());
        assert(modifiers_of(first + second, fourcc) =~= modifiers_of(first, fourcc) + modifiers_of(
            second,
            fourcc,
        ));
    }
}

/// A single format has its modifier for its own pixel format, and none for another.
pub proof fn format_has_its_own_modifier(format: Format, fourcc: Fourcc)
    ensures
        modifiers_of(Seq::empty(), fourcc) == Seq::<u64>::empty(),
        format.code == fourcc ==> modifiers_of(seq![format], fourcc) == seq![format.modifier],
        format.code != fourcc ==> modifiers_of(seq![format], fourcc) == Seq::<u64>::empty(),
{
    assert(seq![format].drop_last() =~= Seq::empty());
    assert(modifiers_of(seq![format].drop_last(), fourcc) =~= Seq::<u64>::empty());
    if format.code == fourcc {
        assert(modifiers_of(seq![format], fourcc) =~= seq![format.modifier]);
    }
}

/// What is offered first: with transparency, if it is asked for, what goes with it comes before
/// what goes without; and each time DMA-BUFs, if there are any, come before shared memory.
pub proof fn offers_come_by_preference(
    formats: Seq<Format>,
    size: FrameSize,
    refresh: u32,
    alpha: bool,
)
    ensures
        ({
            let all = offers(formats, size, refresh, alpha);
            let with = modifiers_of(formats, Fourcc::Argb8888);
            let without = modifiers_of(formats, Fourcc::Xrgb8888);
            let dma: int = if with.len() > 0 {
                1
            } else {
                0
            };
            let start: int = if alpha {
                dma + 1
            } else {
                0
            };
            let end: int = if without.len() > 0 {
                start + 2
            } else {
                start + 1
            };
            &&& all.len() == end
            &&& alpha && with.len() > 0 ==> all[0] == video_params(
                seq![VideoFormat::Bgra],
                with,
                size,
                refresh,
                false,
            )
            &&& alpha ==> all[dma] == video_params(
                seq![VideoFormat::Bgra],
                Seq::empty(),
                size,
                refresh,
                false,
            )
            &&& without.len() > 0 ==> all[start] == video_params(
                seq![VideoFormat::Bgrx],
                without,
                size,
                refresh,
                false,
            )
            &&& all[end - 1] == video_params(
                seq![VideoFormat::Bgrx],
                Seq::empty(),
                size,
                refresh,
                false,
            )
        }),
{
}

/// What `make_video_params` makes is the offer of its arguments.
pub proof fn made_offer_is_the_offer(
    formats: &[VideoFormat],
    modifiers: &[u64],
    size: FrameSize,
    refresh: u32,
    fixated: bool,
    object: Object,
    i: int,
)
    requires
        call_ensures(make_video_params, (formats, modifiers, size, refresh, fixated), object),
        modifiers@.len() > 0,
        0 <= i < object.properties@.len(),
    ensures
        object.kind is EnumFormat,
        ({
            let property = object.properties@[2 + formats@.len() as int];
            &&& property.key is VideoModifier
            &&& property.mandatory
            &&& fixated ==> !property.dont_fixate
            &&& property.value matches Value::OneOf(choices)
            &&& choices@.len() == modifiers@.len()
            &&& forall|k: int|
                0 <= k < modifiers@.len() ==> #[trigger] choices@[k] == modifiers@[k] as i64
        }),
        object.properties@[i].key is VideoModifier <==> i == 2 + formats@.len(),
{
    offers_say_what_is_offered(formats@, modifiers@, size, refresh, fixated);
    let all = object@.properties;
    assert(all[i] == object.properties@[i]@);
    assert(all[2 + formats@.len() as int] == object.properties@[2 + formats@.len() as int]@);
}

/// What is offered at first are the offers of the formats that are possible.
pub proof fn first_offers_are_the_offers(
    possible: &FormatSet,
    size: FrameSize,
    refresh: u32,
    alpha: bool,
    objects: Vec<Object>,
)
    requires
        call_ensures(
            make_video_params_for_initial_negotiation,
            (possible, size, refresh, alpha),
            objects,
        ),
    ensures
        objects@.len() > 0,
        crate::screencasting::params::views(objects@) == offers(possible@, size, refresh, alpha),
{
    shared_memory_is_always_offered(possible@, size, refresh, alpha);
    assert(crate::screencasting::params::views(objects@).len() == objects@.len());
}

} // verus!
