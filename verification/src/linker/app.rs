//! The table of application images that the build links into the kernel,
//! and the arithmetic of loading them.

use vstd::prelude::*;

verus! {

/// Header of the application table: where images are loaded (`base`, a
/// slot every `step` bytes; 0 for either means the images are used in
/// place), how many there are, and the first of `count + 1` boundary
/// addresses that follow the header.
pub struct AppMeta {
    pub base: u64,
    pub step: u64,
    pub count: u64,
    pub first: u64,
}

/// The address of a value in memory.
#[verifier::external_body]
fn address_of(value: &u64) -> usize {
    core::ptr::from_ref(value).addr()
}

impl AppMeta {
    /// A table header.
    pub fn new(base: u64, step: u64, count: u64, first: u64) -> (r: Self)
        ensures
            r.base == base,
            r.step == step,
            r.count == count,
            r.first == first,
    {
        AppMeta { base, step, count, first }
    }

    /// Starts an iteration over the images of this table. The boundary
    /// addresses are read from the memory that follows `first`.
    pub fn iter(&'static self) -> (r: AppIterator)
        ensures
            r.base_view() == self.base,
            r.step_view() == self.step,
            r.count_view() == normalize_count_spec(self.count),
            r.index_view() == 0,
    {
        AppIterator {
            base: self.base,
            step: self.step,
            boundaries: address_of(&self.first),
            count: normalize_count(self.count),
            index: 0,
        }
    }
}

/// A 64-bit count as a machine word, saturating.
pub open spec fn normalize_count_spec(raw: u64) -> usize {
    if raw > usize::MAX {
        usize::MAX
    } else {
        raw as usize
    }
}

/// A 64-bit count as a machine word, saturating.
pub fn normalize_count(raw: u64) -> (r: usize)
    ensures
        r == normalize_count_spec(raw),
{
    if raw > usize::MAX as u64 {
        usize::MAX
    } else {
        raw as usize
    }
}

/// Where an image goes when it is copied into its slot, and how much of
/// the slot is copied and how much zeroed.
#[derive(Clone, Copy, Debug, PartialEq, Eq, Structural)]
pub struct SlotCopy {
    pub dst: usize,
    pub copy_len: usize,
    pub zero_len: usize,
}

/// The position of an iteration over the application table.
pub struct AppIterator {
    base: u64,
    step: u64,
    boundaries: usize,
    count: usize,
    index: usize,
}

/// `a * b`, saturating at `u64::MAX`.
pub open spec fn saturating_mul_u64(a: int, b: int) -> int {
    if a * b > u64::MAX { u64::MAX as int } else { a * b }
}

/// `a + b`, saturating at `u64::MAX`.
pub open spec fn saturating_add_u64(a: int, b: int) -> int {
    if a + b > u64::MAX { u64::MAX as int } else { a + b }
}

/// The size of a slot: the step, as a machine word.
pub open spec fn slot_size_spec(step: u64) -> usize {
    if step > usize::MAX { usize::MAX } else { step as usize }
}

impl AppIterator {
    /// Where images are loaded.
    pub closed spec fn base_view(&self) -> u64 {
        self.base
    }

    /// Distance between slots.
    pub closed spec fn step_view(&self) -> u64 {
        self.step
    }

    /// Address of the first boundary.
    pub closed spec fn boundaries_view(&self) -> usize {
        self.boundaries
    }

    /// Number of images.
    pub closed spec fn count_view(&self) -> usize {
        self.count
    }

    /// Images handed out so far.
    pub closed spec fn index_view(&self) -> usize {
        self.index
    }

    /// Whether the images are used where they lie rather than copied into
    /// slots.
    pub fn contiguous(&self) -> (r: bool)
        ensures
            r == (self.base_view() == 0 || self.step_view() == 0),
    {
        self.base == 0 || self.step == 0
    }

    /// The index of the next image, moving past it; `None` once all were
    /// handed out.
    pub fn advance(&mut self) -> (r: Option<usize>)
        ensures
            old(self).index_view() >= old(self).count_view() ==> r is None && *final(self) == *old(self),
            old(self).index_view() < old(self).count_view() ==> {
                &&& r == Some(old(self).index_view())
                &&& final(self).index_view() == old(self).index_view() + 1
                &&& final(self).base_view() == old(self).base_view()
                &&& final(self).step_view() == old(self).step_view()
                &&& final(self).boundaries_view() == old(self).boundaries_view()
                &&& final(self).count_view() == old(self).count_view()
            },
    {
        if self.index >= self.count {
            return None;
        }
        let idx = self.index;
        self.index = self.index + 1;
        Some(idx)
    }

    /// Address of boundary `idx` (image `idx` starts there and image
    /// `idx - 1` ends there).
    pub fn boundary_address(&self, idx: usize) -> (r: usize)
        requires
            self.boundaries_view() + idx * 8 <= usize::MAX,
        ensures
            r == self.boundaries_view() + idx * 8,
    {
        self.boundaries + idx * 8
    }

    /// The size of a slot: the step, as a machine word (saturating).
    pub fn slot_size(&self) -> (r: usize)
        ensures
            r == slot_size_spec(self.step_view()),
    {
        if self.step > usize::MAX as u64 {
            usize::MAX
        } else {
            self.step as usize
        }
    }

    /// How image `slot_index`, `len` bytes long, is placed into its slot:
    /// the slot starts `step * slot_index` bytes after `base` (saturating);
    /// all `len` bytes are copied and the rest of the slot is zeroed. An
    /// image larger than a slot is an error of the caller, so `len` must
    /// fit.
    pub fn slot_copy(&self, slot_index: usize, len: usize) -> (r: SlotCopy)
        requires
            len <= slot_size_spec(self.step_view()),
        ensures
            r.dst == saturating_add_u64(
                self.base_view() as int,
                saturating_mul_u64(self.step_view() as int, slot_index as int),
            ) as usize,
            r.copy_len == len,
            r.zero_len == slot_size_spec(self.step_view()) - len,
    {
        let slot_size = self.slot_size();
        let offset = match self.step.checked_mul(slot_index as u64) {
            Some(v) => v,
            None => u64::MAX,
        };
        let dst_addr = self.base.saturating_add(offset) as usize;
        let bytes_to_copy = if len < slot_size { len } else { slot_size };
        let zero_len = if slot_size > bytes_to_copy { slot_size - bytes_to_copy } else { 0 };
        SlotCopy { dst: dst_addr, copy_len: bytes_to_copy, zero_len }
    }
}

} // verus!
