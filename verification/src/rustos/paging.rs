//! The page tables of the tasks: a root table, a level-1 table and one
//! level-0 table for the two megabytes of user addresses, per task.

use vstd::prelude::*;

use super::kernel::{Effect, Kernel, PHYS_LIMIT};
use super::{
    align_down, align_up, page_ceil, page_floor, pte, pte_spec, vpn0, vpn1, vpn2, APP_LOAD_LIMIT,
    KERNEL_MAP_END, KERNEL_MAP_START, MAX_TASKS, PAGE_SIZE, USER_BASE,
};

verus! {

/// Readable, writable, executable user pages, accessed and dirty.
pub const USER_CODE_FLAGS: usize = 0xde;

/// Readable, writable user pages, accessed and dirty.
pub const USER_DATA_FLAGS: usize = 0xd6;

/// Readable, writable, executable kernel pages, accessed and dirty.
pub const KERNEL_FLAGS: usize = 0xce;

/// The size of a level-1 page.
pub const MEGA_PAGE: usize = 0x20_0000;

/// The user address that entry `j` of a level-0 table maps.
pub open spec fn user_va(j: int) -> int {
    USER_BASE + j * PAGE_SIZE
}

/// Entry `j` of a level-0 table after the pages of `start .. end` were
/// mapped to the pages from `phys` on; `prev` before.
pub open spec fn region_entry(j: int, start: int, end: int, phys: int, flags: usize, prev: usize) -> usize {
    let va = user_va(j);
    if page_floor(start) <= va < page_ceil(end) {
        pte_spec((page_floor(phys) + (va - page_floor(start))) as usize, flags)
    } else {
        prev
    }
}

/// Entry `j` of a level-0 table after the pages from `page_ceil(start)`
/// to `page_ceil(end)` were unmapped; `prev` before.
pub open spec fn cleared_entry(j: int, start: int, end: int, prev: usize) -> usize {
    let va = user_va(j);
    if page_ceil(start) <= va < page_ceil(end) {
        0
    } else {
        prev
    }
}

/// Entry `j` of a fresh user level-0 table: the program `USER_BASE ..
/// program_end` and the stack `stack_bottom .. stack_top`, mapped to the
/// slot at `phys_base`.
pub open spec fn user_l0_entry(j: int, program_end: int, stack_bottom: int, stack_top: int, phys_base: int) -> usize {
    region_entry(
        j,
        stack_bottom,
        stack_top,
        phys_base + (stack_bottom - USER_BASE),
        USER_DATA_FLAGS,
        region_entry(j, USER_BASE as int, program_end, phys_base, USER_CODE_FLAGS, 0),
    )
}

/// Entry `j` of a task's level-1 table: the kernel's megapages, and the
/// user level-0 table at `l0_pa` for the user megapage.
pub open spec fn kernel_l1_entry(j: int, l0_pa: usize) -> usize {
    if j == 48 {
        pte_spec(l0_pa, 0)
    } else if 0 <= j < 256 {
        pte_spec((KERNEL_MAP_START + j * MEGA_PAGE) as usize, KERNEL_FLAGS)
    } else {
        0
    }
}

/// The user megapage starts at entry 48 of the level-1 table.
proof fn lemma_user_base_indices()
    ensures
        (USER_BASE >> 21usize) & 0x1ff == 48,
        (KERNEL_MAP_START >> 30usize) & 0x1ff == 2,
{
    assert((0x8600_0000usize >> 21usize) & 0x1ff == 48) by (bit_vector);
    assert((0x8000_0000usize >> 30usize) & 0x1ff == 2) by (bit_vector);
}

/// A page of the user megapage is entry `(va - USER_BASE) / PAGE_SIZE`.
proof fn lemma_vpn0_user(va: usize)
    requires
        USER_BASE <= va < USER_BASE + MEGA_PAGE,
        (va - USER_BASE) % (PAGE_SIZE as int) == 0,
    ensures
        (va >> 12usize) & 0x1ff == (va - USER_BASE) / (PAGE_SIZE as int),
        user_va((va - USER_BASE) / (PAGE_SIZE as int)) == va,
{
    assert(0x8600_0000usize <= va < 0x8620_0000usize && (va - 0x8600_0000usize) % 0x1000 == 0
        ==> (va >> 12usize) & 0x1ff == (va - 0x8600_0000usize) / 0x1000) by (bit_vector);
}

/// A kernel megapage is entry `(pa - KERNEL_MAP_START) / MEGA_PAGE`.
proof fn lemma_vpn1_kernel(pa: usize)
    requires
        KERNEL_MAP_START <= pa < KERNEL_MAP_END,
        (pa - KERNEL_MAP_START) % (MEGA_PAGE as int) == 0,
    ensures
        (pa >> 21usize) & 0x1ff == (pa - KERNEL_MAP_START) / (MEGA_PAGE as int),
{
    assert(0x8000_0000usize <= pa < 0xA000_0000usize && (pa - 0x8000_0000usize) % 0x20_0000 == 0
        ==> (pa >> 21usize) & 0x1ff == (pa - 0x8000_0000usize) / 0x20_0000) by (bit_vector);
}

/// Rounding down to a page keeps an address at or above an aligned one.
proof fn lemma_floor_above(x: int, base: int)
    requires
        base <= x,
        base % (PAGE_SIZE as int) == 0,
    ensures
        base <= page_floor(x) <= x,
        page_floor(x) % (PAGE_SIZE as int) == 0,
        page_floor(page_floor(x)) == page_floor(x),
{
}

/// Rounding up to a page keeps an address at or below an aligned one.
proof fn lemma_ceil_below(x: int, top: int)
    requires
        0 <= x <= top,
        top % (PAGE_SIZE as int) == 0,
    ensures
        x <= page_ceil(x) <= top,
        page_ceil(x) % (PAGE_SIZE as int) == 0,
{
}

impl Kernel {
    /// Physical address of the root table of task `index`.
    pub open spec fn root_pa(&self, index: int) -> int {
        self.root_tables + index * PAGE_SIZE
    }

    /// Physical address of the level-1 table of task `index`.
    pub open spec fn l1_pa(&self, index: int) -> int {
        self.l1_tables + index * PAGE_SIZE
    }

    /// Physical address of the user level-0 table of task `index`.
    pub open spec fn l0_pa(&self, index: int) -> int {
        self.user_l0_tables + index * PAGE_SIZE
    }

    /// The `satp` value that selects the tables of task `index`: Sv39 and
    /// the root table's page number.
    pub open spec fn satp(&self, index: int) -> u64 {
        (8u64 << 60u64) | ((self.root_pa(index) as u64) >> 12u64)
    }

    /// Only the user level-0 table of task `index` changed, to `l0`.
    pub open spec fn only_l0_changed(&self, old: &Kernel, index: int) -> bool {
        &&& self.tasks@ == old.tasks@
        &&& self.files@ == old.files@
        &&& self.pipes@ == old.pipes@
        &&& self.same_config(old)
        &&& self.root_pt@ == old.root_pt@
        &&& self.l1_pt@ == old.l1_pt@
        &&& self.l0_pt@ == old.l0_pt@.update(index, self.l0_pt@[index])
    }

    /// Tells the machine to use the tables of task `index`.
    pub fn activate_task(&self, fx: &mut Vec<Effect>, index: usize)
        requires
            self.wf(),
            index < MAX_TASKS,
        ensures
            final(fx)@ == old(fx)@.push(Effect::Activate(self.satp(index as int))),
    {
        let root = self.root_tables + index * PAGE_SIZE;
        let satp: u64 = (8u64 << 60u64) | ((root as u64) >> 12u64);
        fx.push(Effect::Activate(satp));
    }

    /// Maps the pages of `start .. end` of task `index` to the pages from
    /// `phys_start` on, with `flags`.  The range lies in the user megapage.
    pub fn map_user_region(
        &mut self,
        index: usize,
        start: usize,
        end: usize,
        phys_start: usize,
        flags: usize,
    )
        requires
            old(self).wf(),
            index < MAX_TASKS,
            USER_BASE <= start,
            end <= USER_BASE + MEGA_PAGE,
            phys_start + MEGA_PAGE <= usize::MAX,
        ensures
            final(self).wf(),
            final(self).only_l0_changed(old(self), index as int),
            forall|j: int|
                0 <= j < 512 ==> #[trigger] final(self).l0_pt@[index as int]@[j] == region_entry(
                    j,
                    start as int,
                    end as int,
                    phys_start as int,
                    flags,
                    old(self).l0_pt@[index as int]@[j],
                ),
    {
        proof {
            lemma_floor_above(start as int, USER_BASE as int);
            lemma_ceil_below(end as int, USER_BASE + MEGA_PAGE);
        }
        let first = align_down(start, PAGE_SIZE);
        let mut va = first;
        let last = align_up(end, PAGE_SIZE);
        let mut pa = align_down(phys_start, PAGE_SIZE);
        let ghost old_table = self.l0_pt@[index as int];
        let mut table = self.l0_pt[index];
        while va < last
            invariant
                first == page_floor(start as int),
                last == page_ceil(end as int),
                USER_BASE <= first <= va,
                last <= USER_BASE + MEGA_PAGE,
                va < last ==> va < USER_BASE + MEGA_PAGE,
                (va - USER_BASE) % (PAGE_SIZE as int) == 0,
                pa == page_floor(phys_start as int) + (va - first),
                phys_start + MEGA_PAGE <= usize::MAX,
                page_floor(phys_start as int) <= phys_start,
                va <= last || va == first,
                forall|j: int|
                    0 <= j < 512 ==> #[trigger] table@[j] == (if user_va(j) < va {
                        region_entry(j, start as int, end as int, phys_start as int, flags, old_table@[j])
                    } else {
                        old_table@[j]
                    }),
            decreases last - va,
        {
            proof {
                lemma_vpn0_user(va);
            }
            let j = vpn0(va);
            table[j] = pte(pa, flags);
            va = va + PAGE_SIZE;
            pa = pa + PAGE_SIZE;
        }
        self.l0_pt.set(index, table);
    }

    /// Unmaps the pages from `page_ceil(start)` to `page_ceil(end)` of
    /// task `index`.  The range lies in the user megapage.
    pub fn unmap_user_heap(&mut self, index: usize, start: usize, end: usize)
        requires
            old(self).wf(),
            index < MAX_TASKS,
            USER_BASE <= start <= end,
            end <= USER_BASE + MEGA_PAGE,
        ensures
            final(self).wf(),
            final(self).only_l0_changed(old(self), index as int),
            forall|j: int|
                0 <= j < 512 ==> #[trigger] final(self).l0_pt@[index as int]@[j] == cleared_entry(
                    j,
                    start as int,
                    end as int,
                    old(self).l0_pt@[index as int]@[j],
                ),
    {
        proof {
            lemma_ceil_below(end as int, USER_BASE + MEGA_PAGE);
            lemma_floor_above(start as int, USER_BASE as int);
        }
        let last = align_up(end, PAGE_SIZE);
        let first = align_up(start, PAGE_SIZE);
        let mut va = first;
        let ghost old_table = self.l0_pt@[index as int];
        let mut table = self.l0_pt[index];
        while va < last
            invariant
                first == page_ceil(start as int),
                last == page_ceil(end as int),
                USER_BASE <= first <= va,
                last <= USER_BASE + MEGA_PAGE,
                (va - USER_BASE) % (PAGE_SIZE as int) == 0,
                va <= last || va == first,
                forall|j: int|
                    0 <= j < 512 ==> #[trigger] table@[j] == (if user_va(j) < va {
                        cleared_entry(j, start as int, end as int, old_table@[j])
                    } else {
                        old_table@[j]
                    }),
            decreases last - va,
        {
            proof {
                lemma_vpn0_user(va);
            }
            let j = vpn0(va);
            table[j] = 0;
            va = va + PAGE_SIZE;
        }
        self.l0_pt.set(index, table);
    }

    /// The root and level-1 tables of task `index` map the kernel's
    /// megapages and lead to its user level-0 table.
    pub open spec fn kernel_tables_set(&self, index: int) -> bool {
        &&& forall|j: int|
            0 <= j < 512 ==> #[trigger] self.root_pt@[index]@[j] == (if j == 2 {
                pte_spec(self.l1_pa(index) as usize, 0)
            } else {
                0
            })
        &&& forall|j: int|
            0 <= j < 512 ==> #[trigger] self.l1_pt@[index]@[j] == kernel_l1_entry(
                j,
                self.l0_pa(index) as usize,
            )
    }

    /// The tables of task `index` map the kernel and the given user
    /// regions, and nothing else.
    pub open spec fn address_space_set(
        &self,
        index: int,
        program_end: int,
        stack_bottom: int,
        stack_top: int,
        phys_base: int,
    ) -> bool {
        &&& self.kernel_tables_set(index)
        &&& forall|j: int|
            0 <= j < 512 ==> #[trigger] self.l0_pt@[index]@[j] == user_l0_entry(
                j,
                program_end,
                stack_bottom,
                stack_top,
                phys_base,
            )
    }

    /// Only the tables of task `index` changed.
    pub open spec fn only_tables_changed(&self, old: &Kernel, index: int) -> bool {
        &&& self.tasks@ == old.tasks@
        &&& self.files@ == old.files@
        &&& self.pipes@ == old.pipes@
        &&& self.same_config(old)
        &&& self.root_pt@ == old.root_pt@.update(index, self.root_pt@[index])
        &&& self.l1_pt@ == old.l1_pt@.update(index, self.l1_pt@[index])
        &&& self.l0_pt@ == old.l0_pt@.update(index, self.l0_pt@[index])
    }

    /// Maps the heap pages of `start .. end` of task `index` to the same
    /// place in its slot, readable and writable.
    pub fn map_user_heap(&mut self, index: usize, start: usize, end: usize)
        requires
            old(self).wf(),
            index < MAX_TASKS,
            USER_BASE <= start <= end,
            end <= USER_BASE + MEGA_PAGE,
            old(self).tasks@[index as int].phys_base <= PHYS_LIMIT,
        ensures
            final(self).wf(),
            final(self).only_l0_changed(old(self), index as int),
            forall|j: int|
                0 <= j < 512 ==> #[trigger] final(self).l0_pt@[index as int]@[j] == region_entry(
                    j,
                    page_floor(start as int),
                    page_ceil(end as int),
                    old(self).tasks@[index as int].phys_base + (page_floor(start as int) - USER_BASE),
                    USER_DATA_FLAGS,
                    old(self).l0_pt@[index as int]@[j],
                ),
    {
        proof {
            lemma_floor_above(start as int, USER_BASE as int);
            lemma_ceil_below(end as int, USER_BASE + MEGA_PAGE);
        }
        let phys_base = self.tasks[index].phys_base;
        let first = align_down(start, PAGE_SIZE);
        let last = align_up(end, PAGE_SIZE);
        self.map_user_region(index, first, last, phys_base + (first - USER_BASE), USER_DATA_FLAGS);
    }

    /// Builds the tables of task `index`: the kernel's megapages, the
    /// program `base .. program_end` and the stack `stack_bottom ..
    /// stack_top`, mapped to the slot at `phys_base`.
    pub fn setup_address_space(
        &mut self,
        index: usize,
        base: usize,
        program_end: usize,
        stack_bottom: usize,
        stack_top: usize,
        phys_base: usize,
    )
        requires
            old(self).wf(),
            index < MAX_TASKS,
            base == USER_BASE,
            USER_BASE <= program_end <= USER_BASE + MEGA_PAGE,
            USER_BASE <= stack_bottom <= stack_top <= USER_BASE + MEGA_PAGE,
            phys_base <= PHYS_LIMIT,
        ensures
            final(self).wf(),
            final(self).only_tables_changed(old(self), index as int),
            final(self).address_space_set(
                index as int,
                program_end as int,
                stack_bottom as int,
                stack_top as int,
                phys_base as int,
            ),
    {
        proof {
            lemma_user_base_indices();
        }
        let l1_pa = self.l1_tables + index * PAGE_SIZE;
        let mut root = [0usize; 512];
        root[vpn2(KERNEL_MAP_START)] = pte(l1_pa, 0);
        self.root_pt.set(index, root);

        let mut l1 = [0usize; 512];
        let mut pa = KERNEL_MAP_START;
        while pa < KERNEL_MAP_END
            invariant
                KERNEL_MAP_START <= pa <= KERNEL_MAP_END,
                (pa - KERNEL_MAP_START) % (MEGA_PAGE as int) == 0,
                forall|j: int|
                    0 <= j < 512 ==> #[trigger] l1@[j] == (if KERNEL_MAP_START + j * MEGA_PAGE < pa
                        && j != 48 && j < 256 {
                        pte_spec((KERNEL_MAP_START + j * MEGA_PAGE) as usize, KERNEL_FLAGS)
                    } else {
                        0
                    }),
            decreases KERNEL_MAP_END - pa,
        {
            proof {
                lemma_vpn1_kernel(pa);
                lemma_user_base_indices();
            }
            let ghost k = (pa - KERNEL_MAP_START) / (MEGA_PAGE as int);
            let ghost before = l1;
            assert(pa == KERNEL_MAP_START + k * MEGA_PAGE);
            if vpn1(pa) != vpn1(USER_BASE) {
                l1[vpn1(pa)] = pte(pa, KERNEL_FLAGS);
            }
            pa = pa + MEGA_PAGE;
            assert forall|j: int| 0 <= j < 512 implies #[trigger] l1@[j] == (if KERNEL_MAP_START + j
                * MEGA_PAGE < pa && j != 48 && j < 256 {
                pte_spec((KERNEL_MAP_START + j * MEGA_PAGE) as usize, KERNEL_FLAGS)
            } else {
                0
            }) by {
                if j == k {
                    assert(k < 256);
                } else {
                    assert(l1@[j] == before@[j]);
                    assert((KERNEL_MAP_START + j * MEGA_PAGE < pa) == (KERNEL_MAP_START + j * MEGA_PAGE
                        < pa - MEGA_PAGE));
                }
            }
        }
        let l0_pa = self.user_l0_tables + index * PAGE_SIZE;
        l1[vpn1(base)] = pte(l0_pa, 0);
        assert forall|j: int| 0 <= j < 512 implies #[trigger] l1@[j] == kernel_l1_entry(j, l0_pa) by {
            if j != 48 && j < 256 {
                assert(KERNEL_MAP_START + j * MEGA_PAGE < KERNEL_MAP_END);
            }
        }
        self.l1_pt.set(index, l1);
        self.l0_pt.set(index, [0usize; 512]);
        let ghost mid = *self;
        self.map_user_region(index, base, program_end, phys_base, USER_CODE_FLAGS);
        self.map_user_region(
            index,
            stack_bottom,
            stack_top,
            phys_base + (stack_bottom - USER_BASE),
            USER_DATA_FLAGS,
        );
        assert(self.root_pt@ == old(self).root_pt@.update(index as int, self.root_pt@[index as int]));
        assert(self.l1_pt@ == old(self).l1_pt@.update(index as int, self.l1_pt@[index as int]));
        assert(self.l0_pt@ == old(self).l0_pt@.update(index as int, self.l0_pt@[index as int]));
    }
}

} // verus!
