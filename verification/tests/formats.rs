use screencast::drm::{Format, FormatSet, Fourcc, MODIFIER_INVALID, MODIFIER_LINEAR};
use screencast::geometry::FrameSize;
use screencast::screencasting::formats::{
    make_video_params, make_video_params_for_initial_negotiation, modifier_choice_needs_fixation,
};
use screencast::screencasting::params::{
    Fraction, Key, Object, ObjectKind, Property, Value, VideoFormat,
};

fn size() -> FrameSize {
    FrameSize { w: 1920, h: 1080 }
}

fn find(object: &Object, key: Key) -> Option<&Property> {
    object.properties.iter().find(|p| p.key == key)
}

#[test]
fn shm_only_offer_excludes_modifiers_and_preserves_alpha_alternatives() {
    for alpha in [false, true] {
        let objects = make_video_params_for_initial_negotiation(&FormatSet::new(), size(), 60_000, alpha);
        assert_eq!(objects.len(), if alpha { 2 } else { 1 });
        for (index, object) in objects.iter().enumerate() {
            assert!(find(object, Key::VideoModifier).is_none());
            assert_eq!(
                find(object, Key::VideoFormat).unwrap().value,
                Value::Format(if alpha && index == 0 {
                    VideoFormat::Bgra
                } else {
                    VideoFormat::Bgrx
                })
            );
        }
    }
}

#[test]
fn modifier_choice_is_fixated_when_negotiation_requires_it() {
    assert!(!modifier_choice_needs_fixation(false, &[]));
    assert!(!modifier_choice_needs_fixation(false, &[MODIFIER_LINEAR]));
    assert!(modifier_choice_needs_fixation(false, &[MODIFIER_INVALID]));
    assert!(modifier_choice_needs_fixation(
        false,
        &[MODIFIER_LINEAR, MODIFIER_INVALID]
    ));

    assert!(!modifier_choice_needs_fixation(true, &[MODIFIER_INVALID]));
    assert!(!modifier_choice_needs_fixation(
        true,
        &[MODIFIER_LINEAR, MODIFIER_INVALID]
    ));
}

#[test]
fn offers_hold_all_properties_in_order() {
    let object = make_video_params(&[VideoFormat::Bgra], &[u64::MAX, 3], size(), 60_000, false);
    let plain = |key, value| Property {
        key,
        mandatory: false,
        dont_fixate: false,
        value,
    };
    let limit = Fraction {
        num: 60_000,
        denom: 1000,
    };
    assert_eq!(
        object,
        Object {
            kind: ObjectKind::EnumFormat,
            properties: vec![
                plain(Key::MediaType, Value::Video),
                plain(Key::MediaSubtype, Value::Raw),
                plain(Key::VideoFormat, Value::Format(VideoFormat::Bgra)),
                Property {
                    key: Key::VideoModifier,
                    mandatory: true,
                    dont_fixate: true,
                    value: Value::OneOf(vec![-1, 3]),
                },
                plain(Key::VideoSize, Value::Size(size())),
                plain(
                    Key::VideoFramerate,
                    Value::Rate(Fraction { num: 0, denom: 1 })
                ),
                plain(
                    Key::VideoMaxFramerate,
                    Value::RateRange {
                        default: limit,
                        min: Fraction { num: 1, denom: 1 },
                        max: limit,
                    }
                ),
            ],
        }
    );
}

#[test]
fn modifiers_are_offered_for_their_own_format_before_shared_memory() {
    let formats = [
        Format {
            code: Fourcc::Xrgb8888,
            modifier: 5,
        },
        Format {
            code: Fourcc::Argb8888,
            modifier: 6,
        },
        Format {
            code: Fourcc::Xrgb8888,
            modifier: 7,
        },
        Format {
            code: Fourcc::Other(1),
            modifier: 8,
        },
        Format {
            code: Fourcc::Xrgb8888,
            modifier: 5,
        },
    ];
    let formats = FormatSet::from_slice(&formats);
    assert_eq!(formats.as_slice().len(), 4, "no format occurs twice");
    let objects = make_video_params_for_initial_negotiation(&formats, size(), 60_000, true);
    let modifiers: Vec<Option<&Value>> = objects
        .iter()
        .map(|o| find(o, Key::VideoModifier).map(|p| &p.value))
        .collect();
    assert_eq!(
        modifiers,
        vec![
            Some(&Value::OneOf(vec![6])),
            None,
            Some(&Value::OneOf(vec![5, 7])),
            None
        ]
    );
    // A single modifier is no choice to leave open.
    assert!(!find(&objects[0], Key::VideoModifier).unwrap().dont_fixate);
    assert!(find(&objects[2], Key::VideoModifier).unwrap().dont_fixate);
    assert_eq!(
        make_video_params_for_initial_negotiation(&formats, size(), 60_000, false).len(),
        2
    );
}

#[test]
fn format_sets_keep_what_came_first() {
    let format = |modifier| Format {
        code: Fourcc::Xrgb8888,
        modifier,
    };
    let mut set = FormatSet::new();
    assert!(set.is_empty());
    assert!(set.insert(format(7)));
    assert!(set.insert(format(5)));
    assert!(!set.insert(format(7)));
    assert_eq!(set.as_slice(), &[format(7), format(5)]);
    assert!(set.contains(format(5)));
    assert!(!set.contains(format(6)));
    assert_eq!(set.clone().as_slice(), set.as_slice());
    let many = FormatSet::from_slice(&[format(1), format(2), format(1), format(3), format(2)]);
    assert_eq!(many.as_slice(), &[format(1), format(2), format(3)]);
}
