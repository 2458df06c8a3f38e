//! Stream parameters: what is offered to a consumer, in the order in which it is written down.

use crate::geometry::FrameSize;
use crate::screencasting::spa::DataKind;
use vstd::prelude::*;

verus! {

/// The order of the bytes in a pixel of a stream.
#[derive(Clone, Copy, Debug, PartialEq, Eq, Structural)]
pub enum VideoFormat {
    /// Blue, green, red, alpha.
    Bgra,
    /// Blue, green, red, and a byte that does not count.
    Bgrx,
    /// Any other format, by its number.
    Other(u32),
}

/// A number of events per second, as a fraction.
#[derive(Clone, Copy, Debug, PartialEq, Eq, Structural)]
pub struct Fraction {
    pub num: u32,
    pub denom: u32,
}

/// What kind of metadata a buffer has.
#[derive(Clone, Copy, Debug, PartialEq, Eq, Structural)]
pub enum MetaKind {
    Header,
    Cursor,
}

/// What a property is about.
#[derive(Clone, Copy, Debug, PartialEq, Eq, Structural)]
pub enum Key {
    MediaType,
    MediaSubtype,
    VideoFormat,
    VideoModifier,
    VideoSize,
    VideoFramerate,
    VideoMaxFramerate,
    Buffers,
    Blocks,
    DataType,
    MetaType,
    MetaSize,
}

/// The value of a property.
#[derive(Debug, PartialEq, Eq)]
pub enum Value {
    Video,
    Raw,
    Format(VideoFormat),
    /// One of several numbers, of which the first is the default.
    OneOf(Vec<i64>),
    Size(FrameSize),
    Rate(Fraction),
    RateRange { default: Fraction, min: Fraction, max: Fraction },
    Int(i32),
    IntRange { preferred: i32, least: i32, most: i32 },
    /// The one kind of memory that is accepted.
    Data(DataKind),
    Meta(MetaKind),
}

/// One property of a parameter.
#[derive(Debug, PartialEq, Eq)]
pub struct Property {
    pub key: Key,
    pub mandatory: bool,
    pub dont_fixate: bool,
    pub value: Value,
}

/// What a parameter is about.
#[derive(Clone, Copy, Debug, PartialEq, Eq, Structural)]
pub enum ObjectKind {
    /// A format that is offered.
    EnumFormat,
    Buffers,
    Meta,
}

/// A parameter.
#[derive(Debug, PartialEq, Eq)]
pub struct Object {
    pub kind: ObjectKind,
    pub properties: Vec<Property>,
}

/// The value of a property, as a mathematical value.
pub enum ValueView {
    Video,
    Raw,
    Format(VideoFormat),
    OneOf(Seq<i64>),
    Size(FrameSize),
    Rate(Fraction),
    RateRange { default: Fraction, min: Fraction, max: Fraction },
    Int(i32),
    IntRange { preferred: i32, least: i32, most: i32 },
    Data(DataKind),
    Meta(MetaKind),
}

/// A property, as a mathematical value.
pub struct PropertyView {
    pub key: Key,
    pub mandatory: bool,
    pub dont_fixate: bool,
    pub value: ValueView,
}

/// A parameter, as a mathematical value.
pub struct ObjectView {
    pub kind: ObjectKind,
    pub properties: Seq<PropertyView>,
}

impl View for Value {
    type V = ValueView;

    open spec fn view(&self) -> ValueView {
        match *self {
            Value::Video => ValueView::Video,
            Value::Raw => ValueView::Raw,
            Value::Format(format) => ValueView::Format(format),
            Value::OneOf(numbers) => ValueView::OneOf(numbers@),
            Value::Size(size) => ValueView::Size(size),
            Value::Rate(rate) => ValueView::Rate(rate),
            Value::RateRange { default, min, max } => ValueView::RateRange { default, min, max },
            Value::Int(number) => ValueView::Int(number),
            Value::IntRange { preferred, least, most } => ValueView::IntRange {
                preferred,
                least,
                most,
            },
            Value::Data(kind) => ValueView::Data(kind),
            Value::Meta(kind) => ValueView::Meta(kind),
        }
    }
}

impl View for Property {
    type V = PropertyView;

    open spec fn view(&self) -> PropertyView {
        PropertyView {
            key: self.key,
            mandatory: self.mandatory,
            dont_fixate: self.dont_fixate,
            value: self.value@,
        }
    }
}

impl View for Object {
    type V = ObjectView;

    open spec fn view(&self) -> ObjectView {
        ObjectView {
            kind: self.kind,
            properties: self.properties@.map_values(|property: Property| property@),
        }
    }
}

/// Several parameters, as mathematical values.
pub open spec fn views(objects: Seq<Object>) -> Seq<ObjectView> {
    objects.map_values(|object: Object| object@)
}

/// A property without flags.
pub open spec fn plain_property(key: Key, value: ValueView) -> PropertyView {
    PropertyView { key, mandatory: false, dont_fixate: false, value }
}

impl Property {
    /// A property without flags.
    pub fn plain(key: Key, value: Value) -> (property: Property)
        ensures
            property@ == plain_property(key, value@),
    {
        Property { key, mandatory: false, dont_fixate: false, value }
    }
}

/// The view of a value tells all that the value holds.
pub proof fn value_views_tell_all(value: Value)
    ensures
        value is Video <==> value@ is Video,
        value is Raw <==> value@ is Raw,
        value matches Value::Format(format) ==> value@ == ValueView::Format(format),
        value matches Value::OneOf(numbers) ==> value@ == ValueView::OneOf(numbers@),
        value matches Value::Size(size) ==> value@ == ValueView::Size(size),
        value matches Value::Rate(rate) ==> value@ == ValueView::Rate(rate),
        value matches Value::RateRange { default, min, max } ==> value@ == (ValueView::RateRange {
            default,
            min,
            max,
        }),
        value matches Value::Int(number) ==> value@ == ValueView::Int(number),
        value matches Value::IntRange { preferred, least, most } ==> value@
            == (ValueView::IntRange { preferred, least, most }),
        value matches Value::Data(kind) ==> value@ == ValueView::Data(kind),
        value matches Value::Meta(kind) ==> value@ == ValueView::Meta(kind),
{
}

/// The views of properties and parameters tell all that they hold.
pub proof fn object_views_tell_all(objects: Seq<Object>, i: int, j: int)
    requires
        0 <= i < objects.len(),
        0 <= j < objects[i].properties@.len(),
    ensures
        views(objects).len() == objects.len(),
        views(objects)[i].kind == objects[i].kind,
        views(objects)[i].properties.len() == objects[i].properties@.len(),
        ({
            let shown = views(objects)[i].properties[j];
            let property = objects[i].properties@[j];
            &&& shown.key == property.key
            &&& shown.mandatory == property.mandatory
            &&& shown.dont_fixate == property.dont_fixate
            &&& shown.value == property.value@
        }),
{
}

/// A property is plain if it has its key and its value, and no flag.
pub proof fn plain_properties_have_no_flags(key: Key, value: Value, property: Property)
    requires
        call_ensures(Property::plain, (key, value), property),
    ensures
        property.key == key,
        !property.mandatory,
        !property.dont_fixate,
        property.value@ == value@,
{
}

} // verus!
