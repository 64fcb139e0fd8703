//! Checks on the memory regions handed to the kernel heap.

use vstd::prelude::*;

verus! {

/// The heap works in blocks of 4 KiB at least.
pub const MIN_BLOCK_SIZE: usize = 4096;

/// Why a region cannot be given to the heap.
#[derive(Clone, Copy, Debug, PartialEq, Eq, Structural)]
pub enum RegionError {
    /// The start is not a multiple of [`MIN_BLOCK_SIZE`].
    MisalignedStart,
    /// The size is not a multiple of [`MIN_BLOCK_SIZE`].
    MisalignedSize,
    /// `start + size` does not fit in a machine word.
    Overflow,
}

/// The outcome of checking the region `start .. start + size`: the start
/// is checked first, then the size, then the end.
pub open spec fn region_check(start: usize, size: usize) -> Result<(), RegionError> {
    if start % MIN_BLOCK_SIZE != 0 {
        Err(RegionError::MisalignedStart)
    } else if size % MIN_BLOCK_SIZE != 0 {
        Err(RegionError::MisalignedSize)
    } else if start + size > usize::MAX {
        Err(RegionError::Overflow)
    } else {
        Ok(())
    }
}

proof fn lemma_low_mask(x: usize)
    ensures
        x & (MIN_BLOCK_SIZE - 1) as usize == x % MIN_BLOCK_SIZE,
{
    assert(x & 4095usize == x % 4096) by (bit_vector);
}

/// Checks a region before it joins the heap.
pub fn ensure_region(start: usize, size: usize) -> (r: Result<(), RegionError>)
    ensures
        r == region_check(start, size),
{
    proof {
        lemma_low_mask(start);
        lemma_low_mask(size);
    }
    if start & (MIN_BLOCK_SIZE - 1) != 0 {
        return Err(RegionError::MisalignedStart);
    }
    if size & (MIN_BLOCK_SIZE - 1) != 0 {
        return Err(RegionError::MisalignedSize);
    }
    match start.checked_add(size) {
        Some(_) => Ok(()),
        None => Err(RegionError::Overflow),
    }
}

/// What an allocation of `size` bytes aligned to `align` resolves to
/// without the allocator: a zero-sized request gets the address `align`
/// (a dangling, aligned address); any other request goes to the
/// allocator (`None`).
pub fn zero_size_allocation(size: usize, align: usize) -> (r: Option<usize>)
    ensures
        size == 0 ==> r == Some(align),
        size != 0 ==> r is None,
{
    if size == 0 {
        Some(align)
    } else {
        None
    }
}

} // verus!
