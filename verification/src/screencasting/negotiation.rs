//! Agreeing on a format with the consumer.
//!
//! A consumer picks one of the offered formats. If the modifier of its DMA-BUFs is still open, one
//! is fixed by trying to allocate a buffer, and offered again. Where DMA-BUFs do not work out,
//! frames are offered in shared memory.

use crate::drm::{Format, FormatSet};
use crate::geometry::FrameSize;
use crate::screencasting::cast_inner::{CastInner, Inner, SHM_BLOCKS};
use crate::screencasting::cast_state::{CastState, DmaNegotiationResult};
use crate::screencasting::cursor::{CursorMode, CURSOR_META_SIZE};
use crate::screencasting::formats::{make_video_params, make_video_params_for_initial_negotiation};
use crate::screencasting::params::{
    Fraction, Key, MetaKind, Object, ObjectKind, ObjectView, Property, Value,
    ValueView, VideoFormat,
};
use crate::screencasting::shm_layout::{ShmLayout, ShmLayoutError};
use crate::screencasting::spa::DataKind;
use crate::screencasting::timing::negotiated_frame_interval;
use vstd::prelude::*;

verus! {

/// The number of bytes of a frame's header.
pub const META_HEADER_SIZE: i32 = 32;

/// The modifiers that a consumer leaves open.
#[derive(Debug, PartialEq, Eq)]
pub enum ModifierChoice {
    /// They are not a choice of numbers.
    NotNumbers,
    /// They are not a choice out of a list.
    NotEnum,
    OneOf(Vec<i64>),
}

/// What a format says about modifiers.
#[derive(Debug, PartialEq, Eq)]
pub enum FormatModifiers {
    /// Nothing: frames are in shared memory.
    Absent,
    /// There is one.
    Fixed,
    /// There is a choice to make.
    Open(ModifierChoice),
}

/// The format that a consumer has picked.
#[derive(Debug, PartialEq, Eq)]
pub struct RawFormat {
    pub format: VideoFormat,
    pub size: FrameSize,
    pub max_framerate: Fraction,
    /// The modifier, if there is one.
    pub modifier: u64,
    pub modifiers: FormatModifiers,
}

/// A parameter that a consumer has set.
#[derive(Debug, PartialEq, Eq)]
pub enum ChangedParam {
    NotFormat,
    Cleared,
    Unparsable,
    NotRawVideo,
    InvalidRawVideo,
    RawVideo(RawFormat),
}

/// An allocation that is to be tried.
#[derive(Debug, PartialEq, Eq)]
pub struct AllocationTest {
    pub size: FrameSize,
    pub alpha: bool,
    /// Whether the modifier that works is to be offered to the consumer.
    pub fixate: bool,
    pub modifiers: Vec<i64>,
}

/// What to do next.
#[derive(Debug, PartialEq, Eq)]
pub enum Negotiation {
    Ignore,
    Stop,
    /// Try to allocate a buffer with one of the modifiers, and report what came of it.
    Test(AllocationTest),
    /// Set the stream's parameters. If that fails, the cast is stopped.
    Update(Vec<Object>),
}

/// What to do next, as a mathematical value.
pub enum NegotiationView {
    Ignore,
    Stop,
    Test { size: FrameSize, alpha: bool, fixate: bool, modifiers: Seq<i64> },
    Update(Seq<ObjectView>),
}

impl View for Negotiation {
    type V = NegotiationView;

    open spec fn view(&self) -> NegotiationView {
        match *self {
            Negotiation::Ignore => NegotiationView::Ignore,
            Negotiation::Stop => NegotiationView::Stop,
            Negotiation::Test(test) => NegotiationView::Test {
                size: test.size,
                alpha: test.alpha,
                fixate: test.fixate,
                modifiers: test.modifiers@,
            },
            Negotiation::Update(objects) => NegotiationView::Update(
                crate::screencasting::params::views(objects@),
            ),
        }
    }
}

/// The parameter that asks for buffers.
pub open spec fn buffers_param(preferred: i32, blocks: i32, kind: DataKind) -> ObjectView {
    ObjectView {
        kind: ObjectKind::Buffers,
        properties: seq![
            crate::screencasting::params::plain_property(
                Key::Buffers,
                ValueView::IntRange { preferred, least: 2, most: 16 },
            ),
            crate::screencasting::params::plain_property(Key::Blocks, ValueView::Int(blocks)),
            crate::screencasting::params::plain_property(Key::DataType, ValueView::Data(kind)),
        ],
    }
}

/// The parameter that asks for metadata.
pub open spec fn meta_param(kind: MetaKind, size: i32) -> ObjectView {
    ObjectView {
        kind: ObjectKind::Meta,
        properties: seq![
            crate::screencasting::params::plain_property(Key::MetaType, ValueView::Meta(kind)),
            crate::screencasting::params::plain_property(Key::MetaSize, ValueView::Int(size)),
        ],
    }
}

/// What a stream asks for whose frames are in DMA-BUFs.
pub open spec fn dma_buffers(plane_count: i32) -> ObjectView {
    buffers_param(8, plane_count, DataKind::DmaBuf)
}

/// What a stream asks for whose frames are in shared memory.
pub open spec fn shm_buffers() -> ObjectView {
    buffers_param(16, SHM_BLOCKS as i32, DataKind::MemFd)
}

/// All that a stream asks for once its format is agreed on.
pub open spec fn ready_params(buffers: ObjectView, cursor_mode: CursorMode) -> Seq<ObjectView> {
    seq![buffers, meta_param(MetaKind::Header, META_HEADER_SIZE)] + if cursor_mode is Metadata {
        seq![meta_param(MetaKind::Cursor, CURSOR_META_SIZE)]
    } else {
        Seq::empty()
    }
}

impl RawFormat {
    /// Whether frames can be had in the format.
    pub open spec fn supported(self) -> bool {
        self.format is Bgra || self.format is Bgrx
    }

    pub open spec fn has_alpha(self) -> bool {
        self.format is Bgra
    }
}

/// The DMA-BUF layout that was agreed on, if it is the one that a format confirms.
pub open spec fn confirmed<T>(state: CastState<T>, alpha: bool, modifier: u64) -> Option<
    DmaNegotiationResult,
> {
    match state {
        CastState::ConfirmationPending {
            alpha: agreed_alpha,
            extra_negotiation_result: Some(dma),
            ..
        } => if agreed_alpha == alpha && dma.modifier == modifier {
            Some(dma)
        } else {
            None
        },
        CastState::Ready {
            alpha: agreed_alpha,
            extra_negotiation_result: Some(dma),
            ..
        } => if agreed_alpha == alpha && dma.modifier == modifier {
            Some(dma)
        } else {
            None
        },
        _ => None,
    }
}

/// Ready with what was agreed on, and with the trackers there are.
pub open spec fn made_ready<T>(state: CastState<T>) -> CastState<T> {
    match state {
        CastState::ConfirmationPending { size, alpha, extra_negotiation_result } => {
            CastState::fresh(size, alpha, extra_negotiation_result)
        },
        CastState::Ready {
            size,
            alpha,
            extra_negotiation_result,
            damage_tracker,
            cursor_damage_tracker,
            ..
        } => CastState::Ready {
            size,
            alpha,
            extra_negotiation_result,
            damage_tracker,
            cursor_damage_tracker,
            last_cursor_location: None,
        },
        other => other,
    }
}

/// Whether only shared memory was offered last.
pub open spec fn is_shm_only<T>(state: CastState<T>) -> bool {
    state matches CastState::ConfirmationPending { extra_negotiation_result: None, .. }
}

impl<T, D, Y, K> Inner<T, D, Y, K> {
    /// The state with the limit that a format puts on the rate. A format that puts none leaves
    /// the limit as it was.
    pub open spec fn with_rate(self, rate: Fraction) -> Inner<T, D, Y, K> {
        match crate::screencasting::timing::frame_interval(rate) {
            Some(interval) => Inner { min_time_between_frames: interval, ..self },
            None => self,
        }
    }

    /// What follows from a format of the right size.
    pub open spec fn accepted(self, format: RawFormat, cursor_mode: CursorMode) -> (
        Inner<T, D, Y, K>,
        NegotiationView,
    ) {
        if (self.dma_failed || is_shm_only(self.state)) && !(format.modifiers is Absent) {
            (self, NegotiationView::Stop)
        } else {
            match format.modifiers {
                FormatModifiers::Open(ModifierChoice::OneOf(modifiers)) => (
                    self,
                    NegotiationView::Test {
                        size: format.size,
                        alpha: format.has_alpha(),
                        fixate: true,
                        modifiers: modifiers@,
                    },
                ),
                FormatModifiers::Open(_) => (self, NegotiationView::Stop),
                FormatModifiers::Fixed => match confirmed(
                    self.state,
                    format.has_alpha(),
                    format.modifier,
                ) {
                    Some(dma) => (
                        Inner { state: made_ready(self.state), ..self },
                        NegotiationView::Update(
                            ready_params(dma_buffers(dma.plane_count), cursor_mode),
                        ),
                    ),
                    None => (
                        self,
                        NegotiationView::Test {
                            size: format.size,
                            alpha: format.has_alpha(),
                            fixate: false,
                            modifiers: seq![format.modifier as i64],
                        },
                    ),
                },
                FormatModifiers::Absent => (
                    Inner {
                        state: CastState::fresh(format.size, format.has_alpha(), None),
                        ..self
                    },
                    NegotiationView::Update(ready_params(shm_buffers(), cursor_mode)),
                ),
            }
        }
    }

    /// What follows from a parameter that a consumer has set.
    pub open spec fn after_param(self, param: ChangedParam, cursor_mode: CursorMode) -> (
        Inner<T, D, Y, K>,
        NegotiationView,
    ) {
        match param {
            ChangedParam::RawVideo(format) => if !format.supported() {
                (self, NegotiationView::Stop)
            } else if format.size != self.state.format_size() {
                if self.state is ResizePending {
                    (self, NegotiationView::Ignore)
                } else {
                    (self, NegotiationView::Stop)
                }
            } else {
                self.with_rate(format.max_framerate).accepted(format, cursor_mode)
            },
            ChangedParam::InvalidRawVideo => (self, NegotiationView::Stop),
            _ => (self, NegotiationView::Ignore),
        }
    }

    /// What follows where DMA-BUFs do not work out.
    pub open spec fn fallen_back(self, size: FrameSize, alpha: bool) -> (
        Inner<T, D, Y, K>,
        NegotiationView,
    ) {
        match ShmLayout::of(size) {
            Err(_) => (self, NegotiationView::Stop),
            Ok(_) => (
                Inner {
                    state: CastState::ConfirmationPending {
                        size,
                        alpha,
                        extra_negotiation_result: None,
                    },
                    ..self
                },
                NegotiationView::Update(
                    crate::screencasting::formats::offers(Seq::empty(), size, self.refresh, alpha),
                ),
            ),
        }
    }

    /// What follows from an allocation that was tried.
    pub open spec fn after_test(
        self,
        test: AllocationTest,
        found: Option<(u64, usize)>,
        formats: Seq<Format>,
        cursor_mode: CursorMode,
    ) -> (Inner<T, D, Y, K>, NegotiationView) {
        match found {
            None => self.fallen_back(test.size, test.alpha),
            Some((modifier, planes)) => {
                let dma = Some(DmaNegotiationResult { modifier, plane_count: planes as i32 });
                if test.fixate {
                    (
                        Inner {
                            state: CastState::ConfirmationPending {
                                size: test.size,
                                alpha: test.alpha,
                                extra_negotiation_result: dma,
                            },
                            ..self
                        },
                        NegotiationView::Update(
                            seq![
                                crate::screencasting::formats::video_params(
                                    seq![crate::screencasting::formats::video_format(test.alpha)],
                                    seq![modifier],
                                    test.size,
                                    self.refresh,
                                    true,
                                ),
                            ] + crate::screencasting::formats::offers(
                                formats,
                                test.size,
                                self.refresh,
                                test.alpha,
                            ),
                        ),
                    )
                } else {
                    (
                        Inner { state: CastState::fresh(test.size, test.alpha, dma), ..self },
                        NegotiationView::Update(
                            ready_params(dma_buffers(planes as i32), cursor_mode),
                        ),
                    )
                }
            },
        }
    }
}

fn make_buffers_param(preferred: i32, blocks: i32, kind: DataKind) -> (object: Object)
    ensures
        object@ == buffers_param(preferred, blocks, kind),
{
    let object = Object {
        kind: ObjectKind::Buffers,
        properties: vec![
            Property::plain(Key::Buffers, Value::IntRange { preferred, least: 2, most: 16 }),
            Property::plain(Key::Blocks, Value::Int(blocks)),
            Property::plain(Key::DataType, Value::Data(kind)),
        ],
    };
    assert(object@.properties =~= buffers_param(preferred, blocks, kind).properties);
    object
}

fn make_meta_param(kind: MetaKind, size: i32) -> (object: Object)
    ensures
        object@ == meta_param(kind, size),
{
    let object = Object {
        kind: ObjectKind::Meta,
        properties: vec![
            Property::plain(Key::MetaType, Value::Meta(kind)),
            Property::plain(Key::MetaSize, Value::Int(size)),
        ],
    };
    assert(object@.properties =~= meta_param(kind, size).properties);
    object
}

fn make_ready_params(buffers: Object, cursor_mode: CursorMode) -> (objects: Vec<Object>)
    ensures
        crate::screencasting::params::views(objects@) == ready_params(buffers@, cursor_mode),
{
    let mut objects: Vec<Object> = vec![
        buffers,
        make_meta_param(MetaKind::Header, META_HEADER_SIZE),
    ];
    if cursor_mode == CursorMode::Metadata {
        objects.push(make_meta_param(MetaKind::Cursor, CURSOR_META_SIZE));
    }
    assert(crate::screencasting::params::views(objects@) =~= ready_params(buffers@, cursor_mode));
    objects
}

fn confirmed_layout<T>(state: &CastState<T>, alpha: bool, modifier: u64) -> (dma: Option<
    DmaNegotiationResult,
>)
    ensures
        dma == confirmed(*state, alpha, modifier),
{
    match state {
        CastState::ConfirmationPending {
            alpha: agreed_alpha,
            extra_negotiation_result: Some(dma),
            ..
        } => if *agreed_alpha == alpha && dma.modifier == modifier {
            Some(*dma)
        } else {
            None
        },
        CastState::Ready {
            alpha: agreed_alpha,
            extra_negotiation_result: Some(dma),
            ..
        } => if *agreed_alpha == alpha && dma.modifier == modifier {
            Some(*dma)
        } else {
            None
        },
        _ => None,
    }
}

fn make_ready<T>(state: &mut CastState<T>)
    ensures
        *final(state) == made_ready(*old(state)),
{
    let pending: Option<(FrameSize, bool, Option<DmaNegotiationResult>)> = match state {
        CastState::ConfirmationPending { size, alpha, extra_negotiation_result } => Some(
            (*size, *alpha, *extra_negotiation_result),
        ),
        CastState::Ready { last_cursor_location, .. } => {
            *last_cursor_location = None;
            None
        },
        CastState::ResizePending { .. } => None,
    };
    if let Some((size, alpha, extra_negotiation_result)) = pending {
        *state = CastState::Ready {
            size,
            alpha,
            extra_negotiation_result,
            damage_tracker: None,
            cursor_damage_tracker: None,
            last_cursor_location: None,
        };
    }
}

impl<T, D, Y, K> CastInner<T, D, Y, K> {
    fn accept(&mut self, format: RawFormat, cursor_mode: CursorMode) -> (next: Negotiation)
        ensures
            (final(self)@, next@) == old(self)@.accepted(format, cursor_mode),
    {
        let alpha = matches!(format.format, VideoFormat::Bgra);
        let offered_shm_only = match &self.state {
            CastState::ConfirmationPending { extra_negotiation_result: None, .. } => true,
            _ => false,
        };
        let has_modifiers = match &format.modifiers {
            FormatModifiers::Absent => false,
            _ => true,
        };
        if (self.dma_failed || offered_shm_only) && has_modifiers {
            return Negotiation::Stop;
        }
        match format.modifiers {
            FormatModifiers::Open(ModifierChoice::OneOf(modifiers)) => Negotiation::Test(
                AllocationTest { size: format.size, alpha, fixate: true, modifiers },
            ),
            FormatModifiers::Open(_) => Negotiation::Stop,
            FormatModifiers::Fixed => {
                match confirmed_layout(&self.state, alpha, format.modifier) {
                    Some(dma) => {
                        make_ready(&mut self.state);
                        let buffers = make_buffers_param(8, dma.plane_count, DataKind::DmaBuf);
                        Negotiation::Update(make_ready_params(buffers, cursor_mode))
                    },
                    None => {
                        // A single modifier is negotiated, or the alpha or the modifier changed,
                        // so a test allocation is needed.
                        let modifiers: Vec<i64> = vec![format.modifier as i64];
                        assert(modifiers@ =~= seq![format.modifier as i64]);
                        Negotiation::Test(
                            AllocationTest { size: format.size, alpha, fixate: false, modifiers },
                        )
                    },
                }
            },
            FormatModifiers::Absent => {
                self.state = CastState::Ready {
                    size: format.size,
                    alpha,
                    extra_negotiation_result: None,
                    damage_tracker: None,
                    cursor_damage_tracker: None,
                    last_cursor_location: None,
                };
                let buffers = make_buffers_param(16, SHM_BLOCKS as i32, DataKind::MemFd);
                Negotiation::Update(make_ready_params(buffers, cursor_mode))
            },
        }
    }

    /// A consumer has set a parameter.
    pub fn param_changed(&mut self, param: ChangedParam, cursor_mode: CursorMode) -> (next:
        Negotiation)
        ensures
            (final(self)@, next@) == old(self)@.after_param(param, cursor_mode),
    {
        match param {
            ChangedParam::RawVideo(format) => {
                if !matches!(format.format, VideoFormat::Bgra | VideoFormat::Bgrx) {
                    return Negotiation::Stop;
                }
                if format.size != self.state.expected_format_size() {
                    return match &self.state {
                        CastState::ResizePending { .. } => Negotiation::Ignore,
                        _ => Negotiation::Stop,
                    };
                }
                // A missing or variable maximum rate leaves the limit as it is.
                if let Some(interval) = negotiated_frame_interval(format.max_framerate) {
                    self.min_time_between_frames = interval;
                }
                self.accept(format, cursor_mode)
            },
            ChangedParam::InvalidRawVideo => Negotiation::Stop,
            ChangedParam::NotFormat
            | ChangedParam::Cleared
            | ChangedParam::Unparsable
            | ChangedParam::NotRawVideo => Negotiation::Ignore,
        }
    }

    /// Offers shared memory only. That is not possible for frames that are too large for it.
    pub fn request_shm_fallback(&mut self, size: FrameSize, alpha: bool) -> (objects: Result<
        Vec<Object>,
        ShmLayoutError,
    >)
        ensures
            match ShmLayout::of(size) {
                Err(error) => objects == Err::<Vec<Object>, ShmLayoutError>(error),
                Ok(_) => objects is Ok,
            },
            (
                final(self)@,
                match objects {
                    Ok(objects) => NegotiationView::Update(
                        crate::screencasting::params::views(objects@),
                    ),
                    Err(_) => NegotiationView::Stop,
                },
            ) == old(self)@.fallen_back(size, alpha),
    {
        if let Err(error) = ShmLayout::new(size) {
            return Err(error);
        }
        self.state = CastState::ConfirmationPending { size, alpha, extra_negotiation_result: None };
        // Without formats only shared memory is offered.
        let none = FormatSet::new();
        Ok(make_video_params_for_initial_negotiation(&none, size, self.refresh, alpha))
    }

    /// An allocation was tried. If it succeeded, it found a modifier and a number of planes.
    pub fn allocation_tested(
        &mut self,
        test: AllocationTest,
        found: Option<(u64, usize)>,
        formats: &FormatSet,
        cursor_mode: CursorMode,
    ) -> (next: Negotiation)
        ensures
            (final(self)@, next@) == old(self)@.after_test(test, found, formats@, cursor_mode),
    {
        let (modifier, planes) = match found {
            Some((modifier, planes)) => (modifier, planes),
            None => {
                return match self.request_shm_fallback(test.size, test.alpha) {
                    Ok(objects) => Negotiation::Update(objects),
                    Err(_) => Negotiation::Stop,
                };
            },
        };
        let plane_count: i32 = planes as i32;
        let dma = Some(DmaNegotiationResult { modifier, plane_count });
        if test.fixate {
            self.state = CastState::ConfirmationPending {
                size: test.size,
                alpha: test.alpha,
                extra_negotiation_result: dma,
            };
            let video_formats: Vec<VideoFormat> = vec![
                if test.alpha {
                    VideoFormat::Bgra
                } else {
                    VideoFormat::Bgrx
                },
            ];
            let modifiers: Vec<u64> = vec![modifier];
            assert(video_formats@ =~= seq![
                crate::screencasting::formats::video_format(test.alpha),
            ]);
            assert(modifiers@ =~= seq![modifier]);
            let mut objects: Vec<Object> = vec![
                make_video_params(
                    video_formats.as_slice(),
                    modifiers.as_slice(),
                    test.size,
                    self.refresh,
                    true,
                ),
            ];
            let mut offers = make_video_params_for_initial_negotiation(
                formats,
                test.size,
                self.refresh,
                test.alpha,
            );
            let ghost first = objects@[0]@;
            let ghost rest = crate::screencasting::params::views(offers@);
            objects.append(&mut offers);
            assert(crate::screencasting::params::views(objects@) =~= seq![first] + rest);
            Negotiation::Update(objects)
        } else {
            self.state = CastState::Ready {
                size: test.size,
                alpha: test.alpha,
                extra_negotiation_result: dma,
                damage_tracker: None,
                cursor_damage_tracker: None,
                last_cursor_location: None,
            };
            let buffers = make_buffers_param(8, plane_count, DataKind::DmaBuf);
            Negotiation::Update(make_ready_params(buffers, cursor_mode))
        }
    }
}

/// A consumer that was offered shared memory only cannot bring DMA-BUFs back: the cast is stopped,
/// and what was agreed on stays.
pub proof fn dma_is_refused_after_shm_only<T, D, Y, K>(
    inner: Inner<T, D, Y, K>,
    format: RawFormat,
    cursor_mode: CursorMode,
)
    requires
        inner.dma_failed || is_shm_only(inner.state),
        !(format.modifiers is Absent),
        format.supported(),
        format.size == inner.state.format_size(),
    ensures
        inner.after_param(ChangedParam::RawVideo(format), cursor_mode).1 is Stop,
        inner.after_param(ChangedParam::RawVideo(format), cursor_mode).0.state == inner.state,
{
}

/// Negotiating never changes the size: it is agreed on beforehand, and formats of another size are
/// not accepted.
pub proof fn negotiation_keeps_the_size<T, D, Y, K>(
    inner: Inner<T, D, Y, K>,
    param: ChangedParam,
    found: Option<(u64, usize)>,
    formats: Seq<Format>,
    cursor_mode: CursorMode,
    test: AllocationTest,
)
    ensures
        inner.after_param(param, cursor_mode).0.state.format_size() == inner.state.format_size(),
        inner.after_param(param, cursor_mode).1 matches NegotiationView::Test { size, .. } ==> size
            == inner.state.format_size(),
        test.size == inner.state.format_size() ==> inner.after_test(
            test,
            found,
            formats,
            cursor_mode,
        ).0.state.format_size() == inner.state.format_size(),
{
}

/// A modifier that was fixed by an allocation is not tried again when the consumer confirms it:
/// the stream is ready at once.
pub proof fn confirmed_modifier_is_not_tried_again<T, D, Y, K>(
    inner: Inner<T, D, Y, K>,
    test: AllocationTest,
    modifier: u64,
    planes: usize,
    formats: Seq<Format>,
    cursor_mode: CursorMode,
    format: RawFormat,
)
    requires
        !inner.dma_failed,
        test.fixate,
        format.supported(),
        format.size == test.size,
        format.has_alpha() == test.alpha,
        format.modifier == modifier,
        format.modifiers is Fixed,
    ensures
        ({
            let pending = inner.after_test(
                test,
                Some((modifier, planes)),
                formats,
                cursor_mode,
            ).0;
            let (ready, next) = pending.after_param(ChangedParam::RawVideo(format), cursor_mode);
            &&& ready.state == CastState::<T>::fresh(
                test.size,
                test.alpha,
                Some(DmaNegotiationResult { modifier, plane_count: planes as i32 }),
            )
            &&& next == NegotiationView::Update(
                ready_params(dma_buffers(planes as i32), cursor_mode),
            )
        }),
{
}

/// Where no allocation succeeds, the consumer is offered shared memory only, and its answer makes
/// the stream ready.
pub proof fn failed_allocation_leads_to_shared_memory<T, D, Y, K>(
    inner: Inner<T, D, Y, K>,
    test: AllocationTest,
    formats: Seq<Format>,
    cursor_mode: CursorMode,
    format: RawFormat,
)
    requires
        ShmLayout::of(test.size) is Ok,
        format.supported(),
        format.size == test.size,
        format.modifiers is Absent,
    ensures
        ({
            let (pending, next) = inner.after_test(test, None, formats, cursor_mode);
            &&& next == NegotiationView::Update(
                crate::screencasting::formats::offers(
                    Seq::empty(),
                    test.size,
                    inner.refresh,
                    test.alpha,
                ),
            )
            &&& is_shm_only(pending.state)
            &&& pending.after_param(ChangedParam::RawVideo(format), cursor_mode).0.state
                == CastState::<T>::fresh(test.size, format.has_alpha(), None)
        }),
{
}

/// A stream that is ready asks for between two and sixteen buffers of its kind, of which it prefers
/// a number, for a header of 32 bytes, and, if the pointer is described, for its description.
/// Nothing of it is optional or left open.
pub proof fn ready_stream_asks_for_buffers_and_metadata(
    plane_count: i32,
    cursor_mode: CursorMode,
    dma: bool,
)
    ensures
        ({
            let all = ready_params(
                if dma {
                    dma_buffers(plane_count)
                } else {
                    shm_buffers()
                },
                cursor_mode,
            );
            let (buffers, header) = (all[0], all[1]);
            &&& all.len() == if cursor_mode is Metadata {
                3int
            } else {
                2int
            }
            &&& buffers.kind is Buffers
            &&& buffers.properties.len() == 3
            &&& crate::screencasting::formats::says(
                buffers.properties[0],
                Key::Buffers,
                (ValueView::IntRange {
                    preferred: if dma {
                        8
                    } else {
                        16
                    },
                    least: 2,
                    most: 16,
                }),
            )
            &&& crate::screencasting::formats::says(
                buffers.properties[1],
                Key::Blocks,
                ValueView::Int(
                    if dma {
                        plane_count
                    } else {
                        1
                    },
                ),
            )
            &&& crate::screencasting::formats::says(
                buffers.properties[2],
                Key::DataType,
                ValueView::Data(
                    if dma {
                        DataKind::DmaBuf
                    } else {
                        DataKind::MemFd
                    },
                ),
            )
            &&& header.kind is Meta
            &&& header.properties.len() == 2
            &&& crate::screencasting::formats::says(
                header.properties[0],
                Key::MetaType,
                ValueView::Meta(MetaKind::Header),
            )
            &&& crate::screencasting::formats::says(
                header.properties[1],
                Key::MetaSize,
                ValueView::Int(32),
            )
            &&& cursor_mode is Metadata ==> {
                &&& all[2].kind is Meta
                &&& all[2].properties.len() == 2
                &&& crate::screencasting::formats::says(
                    all[2].properties[0],
                    Key::MetaType,
                    ValueView::Meta(MetaKind::Cursor),
                )
                &&& crate::screencasting::formats::says(
                    all[2].properties[1],
                    Key::MetaSize,
                    ValueView::Int(589_872),
                )
            }
        }),
{
}

/// Whether two states of a stream differ in nothing but what is agreed on and how close frames may
/// come.
pub open spec fn differ_in_agreement_only<T, D, Y, K>(
    before: Inner<T, D, Y, K>,
    after: Inner<T, D, Y, K>,
) -> bool {
    &&& after.is_active == before.is_active
    &&& after.stopping == before.stopping
    &&& after.waiting_for_buffer == before.waiting_for_buffer
    &&& after.dma_failed == before.dma_failed
    &&& after.node_id == before.node_id
    &&& after.refresh == before.refresh
    &&& after.dmabufs == before.dmabufs
    &&& after.shmbufs == before.shmbufs
    &&& after.rendering_buffers == before.rendering_buffers
    &&& after.fence_sources == before.fence_sources
    &&& after.pending_shm == before.pending_shm
}

/// A parameter that is no format of raw video is ignored, or stops the cast if it cannot be read,
/// and changes nothing. So is a format that frames cannot be had in, and one of another size: it
/// stops the cast, unless a resize is pending, in which case it is an answer to an older offer.
pub proof fn unusable_formats_change_nothing<T, D, Y, K>(
    inner: &mut CastInner<T, D, Y, K>,
    param: ChangedParam,
    cursor_mode: CursorMode,
    next: Negotiation,
)
    requires
        call_ensures(CastInner::<T, D, Y, K>::param_changed, (inner, param, cursor_mode), next),
    ensures
        param is NotFormat || param is Cleared || param is Unparsable || param is NotRawVideo
            ==> next is Ignore && final(inner)@ == old(inner)@,
        param is InvalidRawVideo ==> next is Stop && final(inner)@ == old(inner)@,
        param matches ChangedParam::RawVideo(format) ==> {
            let other = match old(inner)@.state {
                CastState::ResizePending { pending_size } => pending_size != format.size,
                CastState::ConfirmationPending { size, .. } => size != format.size,
                CastState::Ready { size, .. } => size != format.size,
            };
            &&& format.format is Other ==> next is Stop && final(inner)@ == old(inner)@
            &&& !(format.format is Other) && other ==> {
                &&& final(inner)@ == old(inner)@
                &&& old(inner)@.state is ResizePending ==> next is Ignore
                &&& !(old(inner)@.state is ResizePending) ==> next is Stop
            }
        },
{
}

/// A format of the right size limits the rate if it names one, and otherwise leaves the limit. It
/// changes nothing else but what is agreed on.
pub proof fn usable_formats_limit_the_rate<T, D, Y, K>(
    inner: &mut CastInner<T, D, Y, K>,
    format: RawFormat,
    cursor_mode: CursorMode,
    next: Negotiation,
)
    requires
        format.format is Bgra || format.format is Bgrx,
        old(inner)@.state.format_size() == format.size,
        call_ensures(
            CastInner::<T, D, Y, K>::param_changed,
            (inner, ChangedParam::RawVideo(format), cursor_mode),
            next,
        ),
    ensures
        differ_in_agreement_only(old(inner)@, final(inner)@),
        !(next is Ignore),
        format.max_framerate.num == 0 || format.max_framerate.denom == 0
            ==> final(inner)@.min_time_between_frames == old(inner)@.min_time_between_frames,
        format.max_framerate.num > 0 && format.max_framerate.denom > 0 ==> {
            let micros = final(inner)@.min_time_between_frames.nanos as int / 1000;
            &&& final(inner)@.min_time_between_frames.nanos == micros * 1000
            &&& micros * format.max_framerate.num <= 1_000_000 * format.max_framerate.denom
            &&& 1_000_000 * format.max_framerate.denom < (micros + 1) * format.max_framerate.num
        },
{
    crate::screencasting::timing::interval_is_the_length_of_a_frame(format.max_framerate);
}

/// Where DMA-BUFs have failed or only shared memory was offered, a format with modifiers stops the
/// cast. Otherwise an open choice is tried with all the modifiers it names, so that the one that
/// works can be offered; a choice that names none stops the cast.
pub proof fn open_choices_are_tried<T, D, Y, K>(
    inner: &mut CastInner<T, D, Y, K>,
    format: RawFormat,
    cursor_mode: CursorMode,
    next: Negotiation,
)
    requires
        format.format is Bgra || format.format is Bgrx,
        old(inner)@.state.format_size() == format.size,
        call_ensures(
            CastInner::<T, D, Y, K>::param_changed,
            (inner, ChangedParam::RawVideo(format), cursor_mode),
            next,
        ),
    ensures
        ({
            let shm_only = old(inner)@.dma_failed || (old(inner)@.state matches
                CastState::ConfirmationPending { extra_negotiation_result: None, .. });
            &&& shm_only && !(format.modifiers is Absent) ==> next is Stop && final(inner)@.state
                == old(inner)@.state
            &&& !shm_only ==> {
                &&& format.modifiers matches FormatModifiers::Open(choice) ==> {
                    &&& final(inner)@.state == old(inner)@.state
                    &&& choice is NotNumbers || choice is NotEnum ==> next is Stop
                    &&& choice matches ModifierChoice::OneOf(modifiers) ==> {
                        &&& next matches Negotiation::Test(test)
                        &&& test.size == format.size
                        &&& test.alpha <==> format.format is Bgra
                        &&& test.fixate
                        &&& test.modifiers@ == modifiers@
                    }
                }
            }
        }),
{
}

/// Where DMA-BUFs are possible, a format with one modifier makes the stream ready if it is the one
/// that was agreed on, with the same transparency. Otherwise that modifier alone is tried.
pub proof fn fixed_modifiers_are_confirmed_or_tried<T, D, Y, K>(
    inner: &mut CastInner<T, D, Y, K>,
    format: RawFormat,
    cursor_mode: CursorMode,
    next: Negotiation,
)
    requires
        format.format is Bgra || format.format is Bgrx,
        format.modifiers is Fixed,
        old(inner)@.state.format_size() == format.size,
        !old(inner)@.dma_failed,
        call_ensures(
            CastInner::<T, D, Y, K>::param_changed,
            (inner, ChangedParam::RawVideo(format), cursor_mode),
            next,
        ),
    ensures
        match old(inner)@.state {
            CastState::ConfirmationPending { size, alpha, extra_negotiation_result: Some(dma) } => {
                alpha == (format.format is Bgra) && dma.modifier == format.modifier ==> {
                    &&& final(inner)@.state == (CastState::Ready {
                        size,
                        alpha,
                        extra_negotiation_result: Some(dma),
                        damage_tracker: None::<T>,
                        cursor_damage_tracker: None,
                        last_cursor_location: None,
                    })
                    &&& next@ == NegotiationView::Update(
                        ready_params(dma_buffers(dma.plane_count), cursor_mode),
                    )
                }
            },
            CastState::Ready {
                size,
                alpha,
                extra_negotiation_result: Some(dma),
                damage_tracker,
                cursor_damage_tracker,
                ..
            } => alpha == (format.format is Bgra) && dma.modifier == format.modifier ==> {
                &&& final(inner)@.state == (CastState::Ready {
                    size,
                    alpha,
                    extra_negotiation_result: Some(dma),
                    damage_tracker,
                    cursor_damage_tracker,
                    last_cursor_location: None,
                })
                &&& next@ == NegotiationView::Update(
                    ready_params(dma_buffers(dma.plane_count), cursor_mode),
                )
            },
            _ => true,
        },
        ({
            let agreed = match old(inner)@.state {
                CastState::ConfirmationPending {
                    alpha,
                    extra_negotiation_result: Some(dma),
                    ..
                } => alpha == (format.format is Bgra) && dma.modifier == format.modifier,
                CastState::Ready { alpha, extra_negotiation_result: Some(dma), .. } => alpha == (
                format.format is Bgra) && dma.modifier == format.modifier,
                _ => false,
            };
            let shm_only = old(inner)@.state matches CastState::ConfirmationPending {
                extra_negotiation_result: None,
                ..
            };
            !agreed && !shm_only ==> {
                &&& final(inner)@.state == old(inner)@.state
                &&& next matches Negotiation::Test(test)
                &&& test.size == format.size
                &&& test.alpha <==> format.format is Bgra
                &&& !test.fixate
                &&& test.modifiers@.len() == 1
                &&& test.modifiers@[0] == format.modifier as i64
            }
        }),
{
}

/// A format without modifiers makes the stream ready in shared memory, whatever was agreed on.
pub proof fn formats_without_modifiers_mean_shared_memory<T, D, Y, K>(
    inner: &mut CastInner<T, D, Y, K>,
    format: RawFormat,
    cursor_mode: CursorMode,
    next: Negotiation,
)
    requires
        format.format is Bgra || format.format is Bgrx,
        format.modifiers is Absent,
        old(inner)@.state.format_size() == format.size,
        call_ensures(
            CastInner::<T, D, Y, K>::param_changed,
            (inner, ChangedParam::RawVideo(format), cursor_mode),
            next,
        ),
    ensures
        final(inner)@.state == (CastState::<T>::Ready {
            size: format.size,
            alpha: format.format is Bgra,
            extra_negotiation_result: None,
            damage_tracker: None,
            cursor_damage_tracker: None,
            last_cursor_location: None,
        }),
        next@ == NegotiationView::Update(ready_params(shm_buffers(), cursor_mode)),
{
}

/// After an allocation that is to be fixed has succeeded, the first offer is of its modifier alone,
/// which is mandatory and not left open, in the tested size and transparency; the offers of all
/// that is possible follow. The stream waits for the consumer to confirm it.
pub proof fn fixed_modifier_is_offered_first<T, D, Y, K>(
    inner: &mut CastInner<T, D, Y, K>,
    test: AllocationTest,
    modifier: u64,
    planes: usize,
    formats: &FormatSet,
    cursor_mode: CursorMode,
    next: Negotiation,
)
    requires
        test.fixate,
        call_ensures(
            CastInner::<T, D, Y, K>::allocation_tested,
            (inner, test, Some((modifier, planes)), formats, cursor_mode),
            next,
        ),
    ensures
        differ_in_agreement_only(old(inner)@, final(inner)@),
        final(inner)@.min_time_between_frames == old(inner)@.min_time_between_frames,
        final(inner)@.state == (CastState::<T>::ConfirmationPending {
            size: test.size,
            alpha: test.alpha,
            extra_negotiation_result: Some(
                DmaNegotiationResult { modifier, plane_count: planes as i32 },
            ),
        }),
        next@ matches NegotiationView::Update(objects) && {
            let first = objects[0].properties;
            &&& objects.len() > 1
            &&& objects[0].kind is EnumFormat
            &&& first.len() == 7
            &&& crate::screencasting::formats::says(first[0], Key::MediaType, ValueView::Video)
            &&& crate::screencasting::formats::says(first[1], Key::MediaSubtype, ValueView::Raw)
            &&& crate::screencasting::formats::says(
                first[2],
                Key::VideoFormat,
                ValueView::Format(
                    if test.alpha {
                        VideoFormat::Bgra
                    } else {
                        VideoFormat::Bgrx
                    },
                ),
            )
            &&& first[3].key is VideoModifier
            &&& first[3].mandatory
            &&& !first[3].dont_fixate
            &&& first[3].value matches ValueView::OneOf(choices)
            &&& choices.len() == 1
            &&& choices[0] == modifier as i64
            &&& crate::screencasting::formats::says(
                first[4],
                Key::VideoSize,
                ValueView::Size(test.size),
            )
            &&& crate::screencasting::formats::says(
                first[6],
                Key::VideoMaxFramerate,
                (ValueView::RateRange {
                    default: Fraction { num: old(inner)@.refresh, denom: 1000 },
                    min: Fraction { num: 1, denom: 1 },
                    max: Fraction { num: old(inner)@.refresh, denom: 1000 },
                }),
            )
            &&& objects.skip(1) == crate::screencasting::formats::offers(
                formats@,
                test.size,
                old(inner)@.refresh,
                test.alpha,
            )
        },
{
    let format = if test.alpha {
        VideoFormat::Bgra
    } else {
        VideoFormat::Bgrx
    };
    let refresh = old(inner)@.refresh;
    crate::screencasting::formats::offers_say_what_is_offered(
        seq![format],
        seq![modifier],
        test.size,
        refresh,
        true,
    );
    crate::screencasting::formats::shared_memory_is_always_offered(
        formats@,
        test.size,
        refresh,
        test.alpha,
    );
    if let NegotiationView::Update(objects) = next@ {
        assert(objects[0].properties[2int + 0].key is VideoFormat);
        assert(objects.skip(1) =~= crate::screencasting::formats::offers(
            formats@,
            test.size,
            refresh,
            test.alpha,
        ));
    }
}

/// After an allocation of a modifier that the consumer has fixed has succeeded, the stream is ready
/// in DMA-BUFs of that layout, and asks for as many planes.
pub proof fn tried_modifier_makes_ready<T, D, Y, K>(
    inner: &mut CastInner<T, D, Y, K>,
    test: AllocationTest,
    modifier: u64,
    planes: usize,
    formats: &FormatSet,
    cursor_mode: CursorMode,
    next: Negotiation,
)
    requires
        !test.fixate,
        call_ensures(
            CastInner::<T, D, Y, K>::allocation_tested,
            (inner, test, Some((modifier, planes)), formats, cursor_mode),
            next,
        ),
    ensures
        differ_in_agreement_only(old(inner)@, final(inner)@),
        final(inner)@.min_time_between_frames == old(inner)@.min_time_between_frames,
        final(inner)@.state == (CastState::<T>::Ready {
            size: test.size,
            alpha: test.alpha,
            extra_negotiation_result: Some(
                DmaNegotiationResult { modifier, plane_count: planes as i32 },
            ),
            damage_tracker: None,
            cursor_damage_tracker: None,
            last_cursor_location: None,
        }),
        next@ == NegotiationView::Update(ready_params(dma_buffers(planes as i32), cursor_mode)),
{
}

/// Whether a stream offers shared memory only, in a size and transparency, or has to stop because
/// such frames are too large for shared memory.
pub open spec fn offers_shared_memory<T, D, Y, K>(
    before: Inner<T, D, Y, K>,
    size: FrameSize,
    alpha: bool,
    after: Inner<T, D, Y, K>,
    next: NegotiationView,
) -> bool {
    let fits = size.w > 0 && size.h > 0 && size.w * 4 * size.h <= i32::MAX;
    let without_modifiers = |format: VideoFormat|
        crate::screencasting::formats::video_params(
            seq![format],
            Seq::empty(),
            size,
            before.refresh,
            false,
        );
    &&& !fits ==> next is Stop && after == before
    &&& fits ==> {
        &&& differ_in_agreement_only(before, after)
        &&& after.min_time_between_frames == before.min_time_between_frames
        &&& after.state == (CastState::<T>::ConfirmationPending {
            size,
            alpha,
            extra_negotiation_result: None,
        })
        &&& next == NegotiationView::Update(
            if alpha {
                seq![without_modifiers(VideoFormat::Bgra), without_modifiers(VideoFormat::Bgrx)]
            } else {
                seq![without_modifiers(VideoFormat::Bgrx)]
            },
        )
    }
}

proof fn falling_back_offers_shared_memory<T, D, Y, K>(
    inner: Inner<T, D, Y, K>,
    size: FrameSize,
    alpha: bool,
)
    ensures
        offers_shared_memory(
            inner,
            size,
            alpha,
            inner.fallen_back(size, alpha).0,
            inner.fallen_back(size, alpha).1,
        ),
{
    crate::screencasting::formats::shm_only_offers_name_no_modifiers(size, inner.refresh, alpha);
    let (w, h) = (size.w as int, size.h as int);
    if w > 0 && h > 0 {
        assert(w * 4 * h >= w * 4) by (nonlinear_arith)
            requires
                w > 0,
                h >= 1,
        ;
    }
}

/// Where no allocation succeeds, shared memory only is offered in the tested size and transparency.
/// Frames that are too large for it stop the cast.
pub proof fn failed_allocations_offer_shared_memory<T, D, Y, K>(
    inner: &mut CastInner<T, D, Y, K>,
    test: AllocationTest,
    formats: &FormatSet,
    cursor_mode: CursorMode,
    next: Negotiation,
)
    requires
        call_ensures(
            CastInner::<T, D, Y, K>::allocation_tested,
            (inner, test, None, formats, cursor_mode),
            next,
        ),
    ensures
        offers_shared_memory(old(inner)@, test.size, test.alpha, final(inner)@, next@),
{
    falling_back_offers_shared_memory(old(inner)@, test.size, test.alpha);
}

/// A fallback offers shared memory only in the size and transparency that it is asked for in.
pub proof fn fallbacks_offer_shared_memory<T, D, Y, K>(
    inner: &mut CastInner<T, D, Y, K>,
    size: FrameSize,
    alpha: bool,
    objects: Result<Vec<Object>, ShmLayoutError>,
)
    requires
        call_ensures(CastInner::<T, D, Y, K>::request_shm_fallback, (inner, size, alpha), objects),
    ensures
        offers_shared_memory(
            old(inner)@,
            size,
            alpha,
            final(inner)@,
            match objects {
                Ok(objects) => NegotiationView::Update(
                    crate::screencasting::params::views(objects@),
                ),
                Err(_) => NegotiationView::Stop,
            },
        ),
{
    falling_back_offers_shared_memory(old(inner)@, size, alpha);
}

} // verus!
