//! Decisions of an address space over multi-level page tables: what a
//! walk does at each level, when a lookup translates, where the entries
//! of a table start, and how the pages of a new mapping are filled with
//! initial data.  Reading and writing the tables themselves is left to the
//! code that holds them in memory; it reports what it found in an entry
//! (valid, leaf) and carries out the step chosen here.

use vstd::prelude::*;

verus! {

/// The part of the data that lands in one page.
#[derive(Clone, Copy, Debug, PartialEq, Eq, Structural)]
pub struct PageCopy {
    /// Where in the page the copy starts.
    pub dst_offset: usize,
    /// Where in the data the copy starts.
    pub src_offset: usize,
    /// How many bytes are copied.
    pub len: usize,
}

/// `a + b`, saturating at `usize::MAX`.
pub open spec fn sat_add(a: int, b: int) -> int {
    if a + b > usize::MAX { usize::MAX as int } else { a + b }
}

/// The data, `data_len` bytes placed `offset` bytes into the mapping,
/// against page `index` of `page_size` bytes: the overlap of the data with
/// the page, if any.
pub open spec fn page_copy_spec(index: int, offset: int, data_len: int, page_size: int) -> Option<PageCopy> {
    let page_base = index * page_size;
    let page_end = sat_add(page_base, page_size);
    let data_end = sat_add(offset, data_len);
    let copy_start = if offset > page_base { offset } else { page_base };
    let copy_end = if data_end < page_end { data_end } else { page_end };
    if data_len == 0 || copy_start >= copy_end {
        None
    } else {
        Some(PageCopy {
            dst_offset: (copy_start - page_base) as usize,
            src_offset: (copy_start - offset) as usize,
            len: (copy_end - copy_start) as usize,
        })
    }
}

/// The part of the data that goes into page `index` of a new mapping.
/// The page's start, `index * page_size`, is required to fit in a word.
pub fn page_copy(index: usize, offset: usize, data_len: usize, page_size: usize) -> (r: Option<PageCopy>)
    requires
        index * page_size <= usize::MAX,
    ensures
        r == page_copy_spec(index as int, offset as int, data_len as int, page_size as int),
        r matches Some(c) ==> c.dst_offset + c.len <= page_size && c.src_offset + c.len <= data_len,
{
    if data_len == 0 {
        return None;
    }
    let page_base = index * page_size;
    let page_end = page_base.saturating_add(page_size);
    let data_end = offset.saturating_add(data_len);
    let copy_start = if offset > page_base { offset } else { page_base };
    let copy_end = if data_end < page_end { data_end } else { page_end };
    if copy_start >= copy_end {
        return None;
    }
    Some(PageCopy {
        dst_offset: copy_start - page_base,
        src_offset: copy_start - offset,
        len: copy_end - copy_start,
    })
}


/// What a walk that makes room for a page's leaf entry does at one level.
#[derive(Clone, Copy, Debug, PartialEq, Eq, Structural)]
pub enum SlotStep {
    /// The entry at this level is the leaf slot.
    Here,
    /// The entry points to the next table: go down into it.
    Descend,
    /// There is no next table: allocate a zeroed one, point the entry at
    /// it, and go down into it.
    Allocate,
}

/// The step at `level` of the walk to a leaf slot, given whether the
/// entry there is valid and whether it is a leaf: at the last level the
/// entry is the slot; a valid entry that is no leaf leads to the next
/// table; any other entry is replaced by a fresh table.
pub fn slot_step(level: usize, valid: bool, leaf: bool) -> (r: SlotStep)
    ensures
        level == 0 ==> r == SlotStep::Here,
        level != 0 && valid && !leaf ==> r == SlotStep::Descend,
        level != 0 && !(valid && !leaf) ==> r == SlotStep::Allocate,
{
    if level == 0 {
        SlotStep::Here
    } else if valid && !leaf {
        SlotStep::Descend
    } else {
        SlotStep::Allocate
    }
}

/// What a lookup of a page does at one level.
#[derive(Clone, Copy, Debug, PartialEq, Eq, Structural)]
pub enum FindStep {
    /// The entry is invalid: the page is not mapped.
    Missing,
    /// The entry maps the page (a leaf, or the last level).
    Found,
    /// The entry points to the next table.
    Descend,
}

/// The step at `level` of a lookup: an invalid entry ends it with nothing,
/// a leaf or an entry of the last level is the answer, any other entry
/// leads down.
pub fn find_step(level: usize, valid: bool, leaf: bool) -> (r: FindStep)
    ensures
        !valid ==> r == FindStep::Missing,
        valid && (leaf || level == 0) ==> r == FindStep::Found,
        valid && !leaf && level != 0 ==> r == FindStep::Descend,
{
    if !valid {
        FindStep::Missing
    } else if leaf || level == 0 {
        FindStep::Found
    } else {
        FindStep::Descend
    }
}

/// Whether an entry a lookup found at `level` translates an address: it
/// is valid, it maps memory (a leaf, or at the last level), and its flags
/// hold the required ones.
pub fn translates(valid: bool, leaf: bool, level: usize, has_required: bool) -> (r: bool)
    ensures
        r == (valid && (leaf || level == 0) && has_required),
{
    if !valid {
        return false;
    }
    if !leaf && level > 0 {
        return false;
    }
    has_required
}

/// The offset of `vaddr` in the block mapped from `block_base` on, in
/// wrapping address arithmetic.
pub fn block_offset(vaddr: usize, block_base: usize) -> (r: usize)
    ensures
        block_base <= vaddr ==> r == vaddr - block_base,
        r == vaddr.wrapping_sub(block_base),
{
    vaddr.wrapping_sub(block_base)
}

/// The number of pages an entry at `level` covers: one at the last level,
/// else the pages of a whole table of the level below, `lower_table_pages`.
pub fn entry_span(level: usize, lower_table_pages: usize) -> (r: usize)
    ensures
        level == 0 ==> r == 1,
        level != 0 ==> r == lower_table_pages,
{
    if level == 0 {
        1
    } else {
        lower_table_pages
    }
}

/// The first page covered by entry `idx` of a table whose entries cover
/// `span` pages each and whose first page is `base`.
pub fn entry_vpn(base: usize, idx: usize, span: usize) -> (r: usize)
    requires
        base + idx * span <= usize::MAX,
    ensures
        r == base + idx * span,
{
    proof {
        assert(0 <= idx * span) by (nonlinear_arith);
    }
    base + idx * span
}

/// The physical page that page `index` of a range starting at page
/// `start` is mapped to, when the range is mapped to the physical pages
/// from `base` on.
pub fn extern_ppn(base: usize, start: usize, index: usize) -> (r: usize)
    requires
        start <= index,
        base + (index - start) <= usize::MAX,
    ensures
        r == base + (index - start),
{
    base + (index - start)
}

} // verus!
