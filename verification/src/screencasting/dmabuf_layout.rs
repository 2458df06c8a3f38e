//! Buffers that the graphics driver allocates.

use crate::drm::MODIFIER_INVALID;
use vstd::prelude::*;

verus! {

/// Why a plane cannot be shared.
#[derive(Clone, Copy, Debug, PartialEq, Eq, Structural)]
pub enum DmabufError {
    /// The storage is larger than a stream buffer can tell.
    ExceedsSizeRange,
    /// The plane begins after the end of the storage.
    OffsetExceedsStorage,
    /// The buffer does not have the modifier that was agreed on.
    ModifierDiffers,
    /// The rows are longer than a stream buffer can tell.
    ExceedsStrideRange,
}

/// The size of the storage behind a plane, of which the driver tells `size`.
pub open spec fn storage_size(size: u64, offset: u32) -> Result<u32, DmabufError> {
    if size > u32::MAX {
        Err(DmabufError::ExceedsSizeRange)
    } else if offset >= size {
        Err(DmabufError::OffsetExceedsStorage)
    } else {
        Ok(size as u32)
    }
}

/// The size of the storage behind a plane, of which the driver tells `size`. It includes padding
/// and auxiliary planes, which cannot be inferred from the frame's dimensions.
pub fn backing_size(size: u64, offset: u32) -> (checked: Result<u32, DmabufError>)
    ensures
        checked == storage_size(size, offset),
{
    if size > u32::MAX as u64 {
        return Err(DmabufError::ExceedsSizeRange);
    }
    if offset as u64 >= size {
        return Err(DmabufError::OffsetExceedsStorage);
    }
    Ok(size as u32)
}

/// One plane as the driver describes it.
#[derive(Clone, Copy, Debug, PartialEq, Eq, Structural)]
pub struct DmaPlane {
    pub fd: i64,
    pub stride: u32,
    pub offset: u32,
    /// The size of the plane's storage.
    pub backing: u64,
}

/// Whether all planes lie inside storage that a stream buffer can describe.
pub open spec fn planes_fit(planes: Seq<DmaPlane>) -> bool {
    forall|i: int|
        0 <= i < planes.len() ==> storage_size(
            (#[trigger] planes[i]).backing,
            planes[i].offset,
        ) is Ok
}

/// Whether plane number `i` is the first that cannot be shared, for the given reason.
pub open spec fn first_misfit(planes: Seq<DmaPlane>, i: int, error: DmabufError) -> bool {
    &&& 0 <= i < planes.len()
    &&& planes_fit(planes.take(i))
    &&& storage_size(planes[i].backing, planes[i].offset) == Err::<u32, DmabufError>(error)
}

/// The sizes of the storage behind all planes.
pub fn plane_sizes(planes: &[DmaPlane]) -> (sizes: Result<Vec<u32>, DmabufError>)
    ensures
        sizes is Ok <==> planes_fit(planes@),
        match sizes {
            Ok(sizes) => {
                &&& sizes@.len() == planes@.len()
                &&& forall|i: int|
                    0 <= i < planes@.len() ==> #[trigger] sizes@[i] == planes@[i].backing
            },
            Err(error) => exists|i: int| #[trigger] first_misfit(planes@, i, error),
        },
{
    let mut sizes: Vec<u32> = Vec::new();
    let mut i: usize = 0;
    while i < planes.len()
        invariant
            i <= planes@.len(),
            sizes@.len() == i,
            forall|j: int| 0 <= j < i ==> #[trigger] sizes@[j] == planes@[j].backing,
            forall|j: int|
                0 <= j < i ==> storage_size(
                    (#[trigger] planes@[j]).backing,
                    planes@[j].offset,
                ) is Ok,
        decreases planes@.len() - i,
    {
        match backing_size(planes[i].backing, planes[i].offset) {
            Ok(size) => sizes.push(size),
            Err(error) => {
                assert(planes_fit(planes@.take(i as int)));
                assert(first_misfit(planes@, i as int, error));
                return Err(error);
            },
        }
        i = i + 1;
    }
    Ok(sizes)
}

/// How a buffer is to be allocated.
#[derive(Debug, PartialEq, Eq)]
pub enum AllocationRequest {
    /// With whatever layout the driver likes.
    Implicit,
    /// With one of the given modifiers.
    Explicit(Vec<u64>),
}

/// The modifiers among the given ones that name a layout, in their order.
pub open spec fn explicit_modifiers(modifiers: Seq<i64>) -> Seq<u64>
    decreases modifiers.len(),
{
    if modifiers.len() == 0 {
        Seq::empty()
    } else if modifiers.last() as u64 == MODIFIER_INVALID {
        explicit_modifiers(modifiers.drop_last())
    } else {
        explicit_modifiers(modifiers.drop_last()).push(modifiers.last() as u64)
    }
}

/// Whether only a driver's own choice of layout is left.
pub open spec fn is_implicit(modifiers: Seq<i64>) -> bool {
    modifiers.len() == 1 && modifiers[0] as u64 == MODIFIER_INVALID
}

/// How to allocate a buffer with one of the given modifiers.
pub fn allocation_request(modifiers: &[i64]) -> (request: AllocationRequest)
    ensures
        request is Implicit <==> is_implicit(modifiers@),
        request matches AllocationRequest::Explicit(explicit) ==> explicit@ == explicit_modifiers(
            modifiers@,
        ),
{
    if modifiers.len() == 1 && modifiers[0] as u64 == MODIFIER_INVALID {
        return AllocationRequest::Implicit;
    }
    let mut explicit: Vec<u64> = Vec::new();
    let mut i: usize = 0;
    while i < modifiers.len()
        invariant
            i <= modifiers@.len(),
            explicit@ == explicit_modifiers(modifiers@.take(i as int)),
        decreases modifiers@.len() - i,
    {
        assert(modifiers@.take(i + 1).drop_last() =~= modifiers@.take(i as int));
        let modifier: u64 = modifiers[i] as u64;
        if modifier != MODIFIER_INVALID {
            explicit.push(modifier);
        }
        i = i + 1;
    }
    assert(modifiers@.take(i as int) =~= modifiers@);
    AllocationRequest::Explicit(explicit)
}

/// The modifier of an allocated buffer, of which the driver tells `reported`.
pub fn allocated_modifier(request: &AllocationRequest, reported: u64) -> (modifier: u64)
    ensures
        modifier == if request is Implicit {
            MODIFIER_INVALID
        } else {
            reported
        },
{
    match request {
        AllocationRequest::Implicit => MODIFIER_INVALID,
        AllocationRequest::Explicit(_) => reported,
    }
}

/// What an allocation that was tried has found: its modifier, of which the driver tells `reported`,
/// and the number of its planes.
pub fn tested_layout(request: &AllocationRequest, reported: u64, planes: &[DmaPlane]) -> (found:
    Result<(u64, usize), DmabufError>)
    ensures
        found is Ok <==> planes_fit(planes@),
        match found {
            Ok((modifier, count)) => {
                &&& modifier == if request is Implicit {
                    MODIFIER_INVALID
                } else {
                    reported
                }
                &&& count == planes@.len()
            },
            Err(error) => exists|i: int| #[trigger] first_misfit(planes@, i, error),
        },
{
    match plane_sizes(planes) {
        Ok(_) => Ok((allocated_modifier(request, reported), planes.len())),
        Err(error) => Err(error),
    }
}

/// Whether all rows have a length that a stream buffer can tell.
pub open spec fn strides_fit(planes: Seq<DmaPlane>) -> bool {
    forall|i: int| 0 <= i < planes.len() ==> (#[trigger] planes[i]).stride <= i32::MAX
}

/// Checks a buffer that was allocated for a modifier that was agreed on.
pub fn check_allocation(agreed: u64, allocated: u64, planes: &[DmaPlane]) -> (checked: Result<
    (),
    DmabufError,
>)
    ensures
        checked == if allocated != agreed {
            Err::<(), DmabufError>(DmabufError::ModifierDiffers)
        } else if !strides_fit(planes@) {
            Err(DmabufError::ExceedsStrideRange)
        } else {
            Ok(())
        },
{
    if allocated != agreed {
        return Err(DmabufError::ModifierDiffers);
    }
    let mut i: usize = 0;
    while i < planes.len()
        invariant
            allocated == agreed,
            i <= planes@.len(),
            forall|j: int| 0 <= j < i ==> (#[trigger] planes@[j]).stride <= i32::MAX,
        decreases planes@.len() - i,
    {
        if planes[i].stride > i32::MAX as u32 {
            return Err(DmabufError::ExceedsStrideRange);
        }
        i = i + 1;
    }
    Ok(())
}

/// An explicit allocation never asks for the modifier that leaves the layout open, and asks for
/// every other one that was given.
pub proof fn explicit_request_leaves_out_invalid(modifiers: Seq<i64>, modifier: u64)
    ensures
        explicit_modifiers(modifiers).contains(modifier) <==> modifier != MODIFIER_INVALID
            && exists|i: int| 0 <= i < modifiers.len() && (#[trigger] modifiers[i]) as u64 == modifier,
    decreases modifiers.len(),
{
    if modifiers.len() > 0 {
        let shorter = modifiers.drop_last();
        let found = explicit_modifiers(shorter);
        explicit_request_leaves_out_invalid(shorter, modifier);
        if exists|i: int| 0 <= i < shorter.len() && (#[trigger] shorter[i]) as u64 == modifier {
            let i = choose|i: int|
                0 <= i < shorter.len() && (#[trigger] shorter[i]) as u64 == modifier;
            assert(modifiers[i] as u64 == modifier);
        }
        if exists|i: int| 0 <= i < modifiers.len() && (#[trigger] modifiers[i]) as u64 == modifier {
            let i = choose|i: int|
                0 <= i < modifiers.len() && (#[trigger] modifiers[i]) as u64 == modifier;
            if i < shorter.len() {
                assert(shorter[i] as u64 == modifier);
            }
        }
        if modifiers.last() as u64 != MODIFIER_INVALID {
            let all = found.push(modifiers.last() as u64);
            assert(all.last() == modifiers.last() as u64);
            assert(modifiers[modifiers.len() - 1] as u64 == all.last());
            if found.contains(modifier) {
                let k = found.index_of(modifier);
                assert(all[k] == modifier);
            }
            if all.contains(modifier) && !found.contains(modifier) {
                let k = all.index_of(modifier);
                if k < found.len() {
                    assert(found[k] == modifier);
                }
            }
        }
    }
}

/// A plane's storage can be shared if it is at most 32 bits long and the plane begins inside. Its
/// size is told as it is.
pub proof fn planes_begin_inside_their_storage(
    size: u64,
    offset: u32,
    checked: Result<u32, DmabufError>,
)
    requires
        call_ensures(backing_size, (size, offset), checked),
    ensures
        checked matches Ok(told) ==> told == size && offset < size,
        checked is Ok <==> offset < size <= 0xffff_ffff,
        checked == Err::<u32, _>(DmabufError::ExceedsSizeRange) <==> size > 0xffff_ffff,
        checked == Err::<u32, _>(DmabufError::OffsetExceedsStorage) <==> size <= offset,
{
}

/// The sizes of all planes are told in their order, exactly if every plane can be shared. Otherwise
/// it is told what is wrong with the first one that cannot.
pub proof fn plane_sizes_are_told_in_order(
    planes: &[DmaPlane],
    sizes: Result<Vec<u32>, DmabufError>,
    i: int,
)
    requires
        call_ensures(plane_sizes, (planes,), sizes),
        0 <= i < planes@.len(),
    ensures
        sizes matches Ok(sizes) ==> {
            &&& sizes@.len() == planes@.len()
            &&& sizes@[i] == planes@[i].backing
            &&& planes@[i].offset < planes@[i].backing <= 0xffff_ffff
        },
        sizes matches Err(error) ==> (forall|j: int|
            0 <= j < i ==> (#[trigger] planes@[j]).offset < planes@[j].backing <= 0xffff_ffff)
            ==> {
            &&& planes@[i].backing > 0xffff_ffff ==> error == DmabufError::ExceedsSizeRange
            &&& planes@[i].backing <= planes@[i].offset ==> error
                == DmabufError::OffsetExceedsStorage
        },
{
    if let Ok(_) = sizes {
        assert(storage_size(planes@[i].backing, planes@[i].offset) is Ok);
    }
    if let Err(error) = sizes {
        if (forall|j: int|
            0 <= j < i ==> (#[trigger] planes@[j]).offset < planes@[j].backing <= 0xffff_ffff) && !(
        planes@[i].offset < planes@[i].backing <= 0xffff_ffff) {
            let k = choose|k: int| #[trigger] first_misfit(planes@, k, error);
            assert(first_misfit(planes@, k, error));
            if k < i {
                assert(planes@[k].offset < planes@[k].backing <= 0xffff_ffff);
            }
            if k > i {
                assert(planes@.take(k)[i] == planes@[i]);
                assert(storage_size(planes@[i].backing, planes@[i].offset) is Ok);
            }
        }
    }
}

/// A modifier that names a layout is asked for after those before it. The one that leaves the
/// layout open is not asked for.
pub proof fn explicit_modifiers_keep_their_order(modifiers: Seq<i64>, modifier: i64)
    ensures
        explicit_modifiers(Seq::empty()) == Seq::<u64>::empty(),
        modifier as u64 == 0x00ff_ffff_ffff_ffff ==> explicit_modifiers(modifiers.push(modifier))
            == explicit_modifiers(modifiers),
        modifier as u64 != 0x00ff_ffff_ffff_ffff ==> explicit_modifiers(modifiers.push(modifier))
            == explicit_modifiers(modifiers).push(modifier as u64),
{
    assert(modifiers.push(modifier).drop_last() =~= modifiers);
}

/// The driver chooses the layout exactly if nothing but that is offered.
pub proof fn drivers_choose_if_nothing_else_is_offered(
    modifiers: &[i64],
    request: AllocationRequest,
    reported: u64,
    modifier: u64,
)
    requires
        call_ensures(allocation_request, (modifiers,), request),
        call_ensures(allocated_modifier, (&request, reported), modifier),
    ensures
        request is Implicit <==> modifiers@.len() == 1 && modifiers@[0] as u64
            == 0x00ff_ffff_ffff_ffff,
        request matches AllocationRequest::Explicit(explicit) ==> explicit@ == explicit_modifiers(
            modifiers@,
        ),
        request is Implicit ==> modifier == 0x00ff_ffff_ffff_ffff,
        request is Explicit ==> modifier == reported,
{
}

/// An allocation that was tried has the modifier of such an allocation, and as many planes as the
/// driver says, if all of them can be shared.
pub proof fn tested_layouts_can_be_shared(
    request: &AllocationRequest,
    reported: u64,
    planes: &[DmaPlane],
    found: Result<(u64, usize), DmabufError>,
)
    requires
        call_ensures(tested_layout, (request, reported, planes), found),
    ensures
        found is Ok <==> forall|i: int|
            0 <= i < planes@.len() ==> (#[trigger] planes@[i]).offset < planes@[i].backing
                <= 0xffff_ffff,
        found matches Ok((modifier, count)) ==> {
            &&& count == planes@.len()
            &&& request is Implicit ==> modifier == 0x00ff_ffff_ffff_ffff
            &&& request is Explicit ==> modifier == reported
        },
{
    if found is Ok {
        assert forall|i: int| 0 <= i < planes@.len() implies (#[trigger] planes@[i]).offset
            < planes@[i].backing <= 0xffff_ffff by {
            assert(storage_size(planes@[i].backing, planes@[i].offset) is Ok);
        }
    }
}

/// A buffer is accepted exactly if it has the modifier that was agreed on and no row is longer than
/// 31 bits can tell. A wrong modifier is told first.
pub proof fn allocations_are_what_was_agreed_on(
    agreed: u64,
    allocated: u64,
    planes: &[DmaPlane],
    checked: Result<(), DmabufError>,
)
    requires
        call_ensures(check_allocation, (agreed, allocated, planes), checked),
    ensures
        ({
            let rows_fit = forall|i: int|
                0 <= i < planes@.len() ==> (#[trigger] planes@[i]).stride <= 0x7fff_ffff;
            &&& checked is Ok <==> allocated == agreed && rows_fit
            &&& checked == Err::<(), _>(DmabufError::ModifierDiffers) <==> allocated != agreed
            &&& checked == Err::<(), _>(DmabufError::ExceedsStrideRange) <==> allocated == agreed
                && !rows_fit
        }),
{
}

} // verus!
