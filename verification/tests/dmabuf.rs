use screencast::drm::{MODIFIER_INVALID, MODIFIER_LINEAR};
use screencast::screencasting::dmabuf_layout::{
    allocated_modifier, allocation_request, backing_size, check_allocation, plane_sizes,
    tested_layout, AllocationRequest, DmaPlane, DmabufError,
};

fn plane(offset: u32, stride: u32, backing: u64) -> DmaPlane {
    DmaPlane {
        fd: 5,
        stride,
        offset,
        backing,
    }
}

#[test]
fn backing_size_preserves_padding_and_checks_offset() {
    assert_eq!(backing_size(8192, 4096).unwrap(), 8192);
    assert!(backing_size(8192, 8192).is_err());
    assert!(backing_size(u64::from(u32::MAX) + 1, 0).is_err());
}

#[test]
fn each_storage_error_has_its_cause() {
    assert_eq!(
        backing_size(8192, 8192),
        Err(DmabufError::OffsetExceedsStorage)
    );
    assert_eq!(
        backing_size(1 << 32, 0),
        Err(DmabufError::ExceedsSizeRange)
    );
    assert_eq!(backing_size(0, 0), Err(DmabufError::OffsetExceedsStorage));
    assert_eq!(backing_size(u64::from(u32::MAX), 7), Ok(u32::MAX));
}

#[test]
fn all_planes_are_measured_and_the_first_misfit_is_reported() {
    assert_eq!(
        plane_sizes(&[plane(0, 4, 100), plane(50, 4, 200)]),
        Ok(vec![100, 200])
    );
    assert_eq!(
        plane_sizes(&[plane(0, 4, 100), plane(300, 4, 200), plane(0, 4, 1 << 40)]),
        Err(DmabufError::OffsetExceedsStorage)
    );
    assert_eq!(plane_sizes(&[]), Ok(vec![]));
}

#[test]
fn lone_invalid_modifier_means_an_implicit_layout() {
    let invalid = MODIFIER_INVALID as i64;
    assert_eq!(allocation_request(&[invalid]), AllocationRequest::Implicit);
    assert_eq!(
        allocation_request(&[3, invalid, 0]),
        AllocationRequest::Explicit(vec![3, 0])
    );
    assert_eq!(
        allocation_request(&[-1]),
        AllocationRequest::Explicit(vec![u64::MAX])
    );
    assert_eq!(
        allocation_request(&[]),
        AllocationRequest::Explicit(vec![])
    );
    assert_eq!(
        allocation_request(&[invalid, invalid]),
        AllocationRequest::Explicit(vec![])
    );
}

#[test]
fn implicit_allocations_have_the_invalid_modifier() {
    assert_eq!(
        allocated_modifier(&AllocationRequest::Implicit, 7),
        MODIFIER_INVALID
    );
    assert_eq!(
        allocated_modifier(&AllocationRequest::Explicit(vec![7, 8]), 8),
        8
    );
}

#[test]
fn tried_allocations_report_modifier_and_planes() {
    let request = allocation_request(&[7, 8]);
    assert_eq!(
        tested_layout(&request, 8, &[plane(0, 4, 100), plane(50, 4, 100)]),
        Ok((8, 2))
    );
    assert_eq!(
        tested_layout(&request, 8, &[plane(100, 4, 100)]),
        Err(DmabufError::OffsetExceedsStorage)
    );
}

#[test]
fn allocated_buffers_must_be_what_was_agreed_on() {
    assert_eq!(
        check_allocation(MODIFIER_LINEAR, 1, &[plane(0, 4, 4)]),
        Err(DmabufError::ModifierDiffers)
    );
    assert_eq!(
        check_allocation(1, 1, &[plane(0, 4, 4), plane(0, 0x8000_0000, 4)]),
        Err(DmabufError::ExceedsStrideRange)
    );
    assert_eq!(check_allocation(1, 1, &[plane(0, 0x7fff_ffff, 4)]), Ok(()));
}
