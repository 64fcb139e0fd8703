//! Layout of a portal page with several slots: a header, the portal code
//! region, then one cache per slot.

use vstd::prelude::*;

verus! {

/// Bytes of portal code reserved per slot.
pub const PORTAL_TEXT_STRIDE: usize = 64;
/// Size of the portal header (two machine words).
pub const PORTAL_HEADER_SIZE: usize = 16;
/// Size of one [`PortalCache`](super::PortalCache).
pub const PORTAL_CACHE_SIZE: usize = 32;
/// Alignment of a [`PortalCache`](super::PortalCache).
pub const PORTAL_CACHE_ALIGN: usize = 16;

/// `value` rounded up to a multiple of `align` (a power of two).
pub open spec fn align_up_spec(value: int, align: int) -> int {
    ((value + align - 1) / align) * align
}

/// Zero slots count as one.
pub open spec fn min_slots(slots: int) -> int {
    if slots == 0 { 1 } else { slots }
}

/// Length of the code region for `slots` slots.
pub open spec fn text_region_len(slots: int) -> int {
    align_up_spec(min_slots(slots) * PORTAL_TEXT_STRIDE, PORTAL_CACHE_ALIGN as int)
}

/// Total bytes a portal with `slots` slots occupies.
pub open spec fn portal_size(slots: int) -> int {
    PORTAL_HEADER_SIZE + text_region_len(slots) + min_slots(slots) * PORTAL_CACHE_SIZE
}

/// The header of a portal page.
pub struct MultislotPortal {
    slots: usize,
    text_len: usize,
}

proof fn lemma_align16(v: usize)
    requires
        v + 15 <= usize::MAX,
    ensures
        ((v + 15) as usize) & !15usize == align_up_spec(v as int, 16),
{
    let x = (v + 15) as usize;
    assert(x & !15usize == x - x % 16) by (bit_vector);
    assert(x - x % 16 == (x / 16) * 16);
}

impl MultislotPortal {
    /// Number of slots.
    pub closed spec fn slots_view(&self) -> usize {
        self.slots
    }

    /// Length of the code region.
    pub closed spec fn text_len_view(&self) -> usize {
        self.text_len
    }

    /// The header of a portal with `slots` slots, as written into the
    /// portal page when it is set up.
    pub fn header(slots: usize) -> (r: Self)
        requires
            slots > 0,
            portal_size(slots as int) <= usize::MAX,
        ensures
            r.slots_view() == slots,
            r.text_len_view() == text_region_len(slots as int),
    {
        MultislotPortal { slots, text_len: Self::text_region_len_for(slots) }
    }

    /// Bytes a portal with `slots` slots occupies.
    pub fn calculate_size(slots: usize) -> (r: usize)
        requires
            portal_size(slots as int) <= usize::MAX,
        ensures
            r == portal_size(slots as int),
    {
        let slots = ensure_min_slots(slots);
        let text = Self::text_region_len_for(slots);
        PORTAL_HEADER_SIZE + text + slots * PORTAL_CACHE_SIZE
    }

    /// Length of the code region for `slots` slots.
    fn text_region_len_for(slots: usize) -> (r: usize)
        requires
            portal_size(slots as int) <= usize::MAX,
        ensures
            r == text_region_len(slots as int),
    {
        let slots = ensure_min_slots(slots);
        align_up(slots * PORTAL_TEXT_STRIDE, PORTAL_CACHE_ALIGN)
    }

    /// Number of slots.
    pub fn slot_count(&self) -> (r: usize)
        ensures
            r == self.slots_view(),
    {
        self.slots
    }

    /// Offset of the code region: right after the header.
    pub fn text_offset(&self) -> (r: usize)
        ensures
            r == PORTAL_HEADER_SIZE,
    {
        PORTAL_HEADER_SIZE
    }

    /// Offset of the cache of `slot`. A slot out of range is an error of
    /// the caller, so the slot must be in range.
    pub fn cache_offset(&self, slot: usize) -> (r: usize)
        requires
            slot < self.slots_view(),
            PORTAL_HEADER_SIZE + self.text_len_view() + self.slots_view() * PORTAL_CACHE_SIZE
                <= usize::MAX,
        ensures
            r == PORTAL_HEADER_SIZE + self.text_len_view() + slot * PORTAL_CACHE_SIZE,
    {
        proof {
            assert(slot * PORTAL_CACHE_SIZE <= self.slots * PORTAL_CACHE_SIZE) by (nonlinear_arith)
                requires
                    slot < self.slots,
            ;
        }
        self.text_offset() + self.text_len + slot * PORTAL_CACHE_SIZE
    }

    /// Length of the code region.
    pub fn text_len(&self) -> (r: usize)
        ensures
            r == self.text_len_view(),
    {
        self.text_len
    }
}

/// `value` rounded up to a multiple of 16.
fn align_up(value: usize, align: usize) -> (r: usize)
    requires
        align == PORTAL_CACHE_ALIGN,
        value + align - 1 <= usize::MAX,
    ensures
        r == align_up_spec(value as int, align as int),
{
    let mask = align - 1;
    proof {
        lemma_align16(value);
    }
    (value + mask) & !mask
}

/// Zero slots count as one.
fn ensure_min_slots(slots: usize) -> (r: usize)
    ensures
        r == min_slots(slots as int),
{
    if slots == 0 {
        1
    } else {
        slots
    }
}

/// Slot caches follow each other in slot order.
pub proof fn lemma_cache_offsets_increase(p: MultislotPortal, i: int, j: int)
    requires
        0 <= i < j,
    ensures
        PORTAL_HEADER_SIZE + p.text_len_view() + i * PORTAL_CACHE_SIZE < PORTAL_HEADER_SIZE
            + p.text_len_view() + j * PORTAL_CACHE_SIZE,
{
    assert(i * PORTAL_CACHE_SIZE < j * PORTAL_CACHE_SIZE) by (nonlinear_arith)
        requires
            0 <= i < j,
    ;
}

} // verus!
