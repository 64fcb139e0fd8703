use rcore_os::kernel_alloc::{ensure_region, zero_size_allocation, RegionError, MIN_BLOCK_SIZE};

#[test]
fn region_checks_start_then_size_then_end() {
    assert_eq!(ensure_region(0x8000_0000, 0x10000), Ok(()));
    assert_eq!(ensure_region(0x8000_0001, 0x10000), Err(RegionError::MisalignedStart));
    assert_eq!(ensure_region(0x8000_0001, 0x10001), Err(RegionError::MisalignedStart));
    assert_eq!(ensure_region(0x8000_0000, 0x10001), Err(RegionError::MisalignedSize));
    let top = usize::MAX - (MIN_BLOCK_SIZE - 1);
    assert_eq!(ensure_region(top, MIN_BLOCK_SIZE), Err(RegionError::Overflow));
    assert_eq!(ensure_region(top - MIN_BLOCK_SIZE, MIN_BLOCK_SIZE), Ok(()));
    assert_eq!(ensure_region(0, 0), Ok(()));
}

#[test]
fn zero_sized_requests_get_the_alignment() {
    assert_eq!(zero_size_allocation(0, 8), Some(8));
    assert_eq!(zero_size_allocation(0, 4096), Some(4096));
    assert_eq!(zero_size_allocation(1, 8), None);
}
