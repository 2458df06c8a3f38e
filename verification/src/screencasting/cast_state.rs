//! How far the format of a stream is agreed on.

use crate::geometry::{FrameSize, Point};
use vstd::prelude::*;

verus! {

/// The layout of the DMA-BUFs that frames are shared in.
#[derive(Clone, Copy, Debug, PartialEq, Eq, Structural)]
pub struct DmaNegotiationResult {
    pub modifier: u64,
    pub plane_count: i32,
}

/// How far the format of a stream is agreed on. Frames are shared in DMA-BUFs if there is an
/// `extra_negotiation_result`, and in shared memory if there is none.
///
/// `T` is a damage tracker. It is made when it is first needed.
#[derive(Debug)]
pub enum CastState<T> {
    ResizePending { pending_size: FrameSize },
    ConfirmationPending {
        size: FrameSize,
        alpha: bool,
        extra_negotiation_result: Option<DmaNegotiationResult>,
    },
    Ready {
        size: FrameSize,
        alpha: bool,
        extra_negotiation_result: Option<DmaNegotiationResult>,
        damage_tracker: Option<T>,
        cursor_damage_tracker: Option<T>,
        last_cursor_location: Option<Point>,
    },
}

impl<T> CastState<T> {
    /// Agreed on, with nothing shown yet.
    pub open spec fn fresh(size: FrameSize, alpha: bool, dma: Option<DmaNegotiationResult>) -> CastState<
        T,
    > {
        CastState::Ready {
            size,
            alpha,
            extra_negotiation_result: dma,
            damage_tracker: None,
            cursor_damage_tracker: None,
            last_cursor_location: None,
        }
    }

    /// The same without any memory of what was shown.
    pub open spec fn invalidated(self) -> CastState<T> {
        match self {
            CastState::Ready { size, alpha, extra_negotiation_result, .. } => CastState::fresh(
                size,
                alpha,
                extra_negotiation_result,
            ),
            other => other,
        }
    }

    /// The size that a format is waited for.
    pub open spec fn awaited_size(self) -> Option<FrameSize> {
        match self {
            CastState::ResizePending { pending_size } => Some(pending_size),
            CastState::ConfirmationPending { size, .. } => Some(size),
            CastState::Ready { .. } => None,
        }
    }

    /// The size that a format has to have.
    pub open spec fn format_size(self) -> FrameSize {
        match self {
            CastState::ResizePending { pending_size } => pending_size,
            CastState::ConfirmationPending { size, .. } => size,
            CastState::Ready { size, .. } => size,
        }
    }

    /// A resumed consumer or a new buffer pool needs a frame even on a static scene.
    pub fn invalidate_damage(&mut self)
        ensures
            *final(self) == old(self).invalidated(),
    {
        match self {
            CastState::Ready {
                damage_tracker,
                cursor_damage_tracker,
                last_cursor_location,
                ..
            } => {
                *damage_tracker = None;
                *cursor_damage_tracker = None;
                *last_cursor_location = None;
            },
            _ => {},
        }
    }

    /// The size that a format is waited for.
    pub fn pending_size(&self) -> (size: Option<FrameSize>)
        ensures
            size == self.awaited_size(),
    {
        match self {
            CastState::ResizePending { pending_size } => Some(*pending_size),
            CastState::ConfirmationPending { size, .. } => Some(*size),
            CastState::Ready { .. } => None,
        }
    }

    /// The size that a format has to have.
    pub fn expected_format_size(&self) -> (size: FrameSize)
        ensures
            size == self.format_size(),
    {
        match self {
            CastState::ResizePending { pending_size } => *pending_size,
            CastState::ConfirmationPending { size, .. } => *size,
            CastState::Ready { size, .. } => *size,
        }
    }
}

/// Forgetting what was shown does not change what was agreed on, and cannot be done more than once.
pub proof fn invalidating_keeps_the_layout<T>(state: CastState<T>)
    ensures
        state.invalidated().format_size() == state.format_size(),
        state.invalidated().awaited_size() == state.awaited_size(),
        state.invalidated().invalidated() == state.invalidated(),
        state is Ready <==> state.invalidated() is Ready,
        state matches CastState::Ready { size, alpha, extra_negotiation_result, .. }
            ==> state.invalidated() == CastState::<T>::fresh(size, alpha, extra_negotiation_result),
        !(state is Ready) ==> state.invalidated() == state,
{
}

/// A state has one size, whatever is agreed on. A format is waited for as long as it is not ready,
/// and in that size.
pub proof fn state_has_one_size<T>(state: CastState<T>)
    ensures
        state matches CastState::ResizePending { pending_size } ==> state.format_size()
            == pending_size,
        state matches CastState::ConfirmationPending { size, .. } ==> state.format_size() == size,
        state matches CastState::Ready { size, .. } ==> state.format_size() == size,
        state.awaited_size() is None <==> state is Ready,
        state.awaited_size() matches Some(size) ==> size == state.format_size(),
{
}

/// A state that forgets what was shown is ready without trackers and without a cursor, and agrees
/// on the same size, transparency and layout.
pub proof fn forgetting_leaves_only_what_was_agreed_on<T>(state: CastState<T>)
    ensures
        state matches CastState::Ready { size, alpha, extra_negotiation_result, .. }
            ==> state.invalidated() == (CastState::<T>::Ready {
            size,
            alpha,
            extra_negotiation_result,
            damage_tracker: None,
            cursor_damage_tracker: None,
            last_cursor_location: None,
        }),
        !(state is Ready) ==> state.invalidated() == state,
{
}

/// What is agreed on afresh holds the given size, transparency and layout, and nothing was shown.
pub proof fn fresh_state_has_shown_nothing<T>(
    size: FrameSize,
    alpha: bool,
    dma: Option<DmaNegotiationResult>,
)
    ensures
        CastState::<T>::fresh(size, alpha, dma) == (CastState::<T>::Ready {
            size,
            alpha,
            extra_negotiation_result: dma,
            damage_tracker: None,
            cursor_damage_tracker: None,
            last_cursor_location: None,
        }),
{
}

/// A state that forgets what was shown keeps what was agreed on, and forgets nothing while nothing
/// is agreed on. It tells the size that is waited for, if one is, and the size that a format has to
/// have.
pub proof fn states_tell_their_size<T>(
    state: &mut CastState<T>,
    other: &CastState<T>,
    pending: Option<FrameSize>,
    expected: FrameSize,
)
    requires
        call_ensures(CastState::<T>::invalidate_damage, (state,), ()),
        call_ensures(CastState::<T>::pending_size, (other,), pending),
        call_ensures(CastState::<T>::expected_format_size, (other,), expected),
    ensures
        !(*old(state) is Ready) ==> *final(state) == *old(state),
        *old(state) matches CastState::Ready { size, alpha, extra_negotiation_result, .. }
            ==> *final(state) == (CastState::<T>::Ready {
            size,
            alpha,
            extra_negotiation_result,
            damage_tracker: None,
            cursor_damage_tracker: None,
            last_cursor_location: None,
        }),
        pending is None <==> other is Ready,
        pending matches Some(size) ==> size == expected,
        *other matches CastState::ResizePending { pending_size } ==> expected == pending_size,
        *other matches CastState::ConfirmationPending { size, .. } ==> expected == size,
        *other matches CastState::Ready { size, .. } ==> expected == size,
{
}

} // verus!
