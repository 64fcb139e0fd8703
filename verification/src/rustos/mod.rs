//! The teaching kernels: the batch kernel of chapter two (`batch`), the
//! time-sharing kernel of chapter three (`timeshare`), and the kernel of
//! chapter seven, with processes in their own address spaces, files,
//! pipes and signals, all held in fixed tables (the other modules).  They
//! hold their state and their decisions; reading the trap cause, touching
//! control registers, printing and copying images are done by the code
//! that runs them on the machine.

use vstd::prelude::*;

pub mod batch;
pub mod access_laws;
pub mod files;
pub mod kernel;
pub mod laws;
pub mod memory;
pub mod paging;
pub mod pipes;
pub mod process;
pub mod signals;
pub mod task;
pub mod timeshare;
pub mod trap;

verus! {

pub const SYSCALL_OPENAT: usize = 56;
pub const SYSCALL_CLOSE: usize = 57;
pub const SYSCALL_PIPE2: usize = 59;
pub const SYSCALL_READ: usize = 63;
pub const SYSCALL_WRITE: usize = 64;
pub const SYSCALL_EXIT: usize = 93;
pub const SYSCALL_CLOCK_GETTIME: usize = 113;
pub const SYSCALL_SCHED_YIELD: usize = 124;
pub const SYSCALL_KILL: usize = 129;
pub const SYSCALL_RT_SIGACTION: usize = 134;
pub const SYSCALL_RT_SIGPROCMASK: usize = 135;
pub const SYSCALL_RT_SIGRETURN: usize = 139;
pub const SYSCALL_GETPID: usize = 172;
pub const SYSCALL_BRK: usize = 214;
pub const SYSCALL_CLONE: usize = 220;
pub const SYSCALL_EXECVE: usize = 221;
pub const SYSCALL_WAIT4: usize = 260;

pub const SSTATUS_SPIE: usize = 0x20;
pub const SSTATUS_SPP: usize = 0x100;
pub const SSTATUS_SUM: usize = 0x40000;

pub const MAX_TASKS: usize = 96;
pub const MAX_FD: usize = 16;
pub const MAX_FILES: usize = 16;
pub const MAX_PIPES: usize = 16;
pub const MAX_SIG: usize = 32;
pub const FILE_NAME_SIZE: usize = 32;
pub const FILE_DATA_SIZE: usize = 4096;
pub const PIPE_DATA_SIZE: usize = 4096;
pub const APP_LOAD_LIMIT: usize = 0x20_0000;
pub const USER_STACK_SIZE: usize = 0x4000;
pub const PAGE_SIZE: usize = 0x1000;
pub const PROGRAM_STATIC_SIZE: usize = 0x80_000;
pub const USER_BASE: usize = 0x8600_0000;
pub const PROCESS_BASE: usize = 0x9000_0000;
pub const KERNEL_MAP_START: usize = 0x8000_0000;
pub const KERNEL_MAP_END: usize = 0xA000_0000;
pub const PTE_V: usize = 0x1;
pub const PTE_R: usize = 0x2;
pub const PTE_W: usize = 0x4;
pub const PTE_X: usize = 0x8;
pub const PTE_U: usize = 0x10;
pub const PTE_A: usize = 0x40;
pub const PTE_D: usize = 0x80;

pub const TASK_UNUSED: usize = 0;
pub const TASK_READY: usize = 1;
pub const TASK_RUNNING: usize = 2;
pub const TASK_EXITED: usize = 3;
pub const TASK_FAULTED: usize = 4;

pub const FD_UNUSED: usize = 0;
pub const FD_STDIN: usize = 1;
pub const FD_STDOUT: usize = 2;
pub const FD_FILE: usize = 3;
pub const FD_PIPE_READ: usize = 4;
pub const FD_PIPE_WRITE: usize = 5;

pub const OPEN_WRONLY: usize = 0x1;
pub const OPEN_RDWR: usize = 0x2;
pub const OPEN_CREATE: usize = 0x200;
pub const OPEN_TRUNC: usize = 0x400;

pub const SIGKILL: usize = 9;
pub const SIGUSR1: usize = 10;

/// Index of the `initproc` application.
pub const INITPROC_APP: usize = 28;

/// Registers saved on a trap: `x0..x31`, `sstatus`, `sepc`.
#[derive(Clone, Copy)]
pub struct TrapContext {
    pub x: [usize; 32],
    pub sstatus: usize,
    pub sepc: usize,
}

impl TrapContext {
    /// All zero.
    pub fn empty() -> (r: TrapContext)
        ensures
            r == empty_context(),
    {
        TrapContext { x: [0usize; 32], sstatus: 0, sepc: 0 }
    }
}

/// The all-zero trap context.
pub open spec fn empty_context() -> TrapContext {
    TrapContext { x: vstd::array::spec_array_fill_for_copy_type::<usize, 32>(0), sstatus: 0, sepc: 0 }
}

/// A leaf or pointer page table entry for physical address `pa`.
pub open spec fn pte_spec(pa: usize, flags: usize) -> usize {
    (((pa >> 12usize) << 10usize) | flags | PTE_V) as usize
}

/// The entry that maps physical address `pa` with `flags`, valid.
pub fn pte(pa: usize, flags: usize) -> (r: usize)
    ensures
        r == pte_spec(pa, flags),
{
    ((pa >> 12) << 10) | flags | PTE_V
}

/// Level-2 index of a virtual address.
pub fn vpn2(va: usize) -> (r: usize)
    ensures
        r == (va >> 30usize) & 0x1ff,
        r < 512,
{
    let r = (va >> 30) & 0x1ff;
    proof {
        assert((va >> 30usize) & 0x1ff < 512) by (bit_vector);
    }
    r
}

/// Level-1 index of a virtual address.
pub fn vpn1(va: usize) -> (r: usize)
    ensures
        r == (va >> 21usize) & 0x1ff,
        r < 512,
{
    let r = (va >> 21) & 0x1ff;
    proof {
        assert((va >> 21usize) & 0x1ff < 512) by (bit_vector);
    }
    r
}

/// Level-0 index of a virtual address.
pub fn vpn0(va: usize) -> (r: usize)
    ensures
        r == (va >> 12usize) & 0x1ff,
        r < 512,
{
    let r = (va >> 12) & 0x1ff;
    proof {
        assert((va >> 12usize) & 0x1ff < 512) by (bit_vector);
    }
    r
}

/// `value` rounded down to a multiple of the page size.
pub open spec fn page_floor(value: int) -> int {
    value - value % (PAGE_SIZE as int)
}

/// `value` rounded up to a multiple of the page size.
pub open spec fn page_ceil(value: int) -> int {
    page_floor(value + PAGE_SIZE - 1)
}

proof fn lemma_mask_page(x: usize)
    ensures
        x & !0xfffusize == x - x % 0x1000,
{
    assert(x & !0xfffusize == x - x % 0x1000) by (bit_vector);
}

/// `value` rounded down to a multiple of `align`, which is the page size.
pub fn align_down(value: usize, align: usize) -> (r: usize)
    requires
        align == PAGE_SIZE,
    ensures
        r == page_floor(value as int),
{
    proof {
        lemma_mask_page(value);
    }
    value & !(align - 1)
}

/// `value` rounded up to a multiple of `align`, which is the page size;
/// `value + align` must fit in a word.
pub fn align_up(value: usize, align: usize) -> (r: usize)
    requires
        align == PAGE_SIZE,
        value + align <= usize::MAX,
    ensures
        r == page_ceil(value as int),
{
    proof {
        lemma_mask_page((value + align - 1) as usize);
    }
    (value + align - 1) & !(align - 1)
}

/// `value + delta` when it lies in `0 ..= usize::MAX`.
pub open spec fn add_signed_spec(value: usize, delta: isize) -> Option<usize> {
    if 0 <= value + delta <= usize::MAX {
        Some((value + delta) as usize)
    } else {
        None
    }
}

/// `value + delta`, unless it leaves the range of a word.
pub fn add_signed(value: usize, delta: isize) -> (r: Option<usize>)
    ensures
        r == add_signed_spec(value, delta),
{
    if delta >= 0 {
        value.checked_add(delta as usize)
    } else {
        let magnitude: usize = if delta == isize::MIN {
            (isize::MAX as usize) + 1
        } else {
            (-delta) as usize
        };
        value.checked_sub(magnitude)
    }
}

/// The size of an application slot: the table's step, at most
/// [`APP_LOAD_LIMIT`]; a step of 0 means the limit.
pub open spec fn slot_size_of(step: usize) -> usize {
    if step == 0 {
        APP_LOAD_LIMIT
    } else if step < APP_LOAD_LIMIT {
        step
    } else {
        APP_LOAD_LIMIT
    }
}

/// The size of an application slot for table step `step`.
pub fn app_slot_size(step: usize) -> (r: usize)
    ensures
        r == slot_size_of(step),
        0 < r <= APP_LOAD_LIMIT,
{
    if step == 0 {
        APP_LOAD_LIMIT
    } else if step < APP_LOAD_LIMIT {
        step
    } else {
        APP_LOAD_LIMIT
    }
}

/// Physical base of the memory of process slot `index`.
pub fn process_phys_base(index: usize, slot_size: usize) -> (r: usize)
    requires
        index < MAX_TASKS,
        slot_size <= APP_LOAD_LIMIT,
    ensures
        r == PROCESS_BASE + index * slot_size,
        r + slot_size <= kernel::PHYS_LIMIT,
{
    proof {
        assert(index * slot_size + slot_size <= MAX_TASKS * APP_LOAD_LIMIT) by (nonlinear_arith)
            requires
                index < MAX_TASKS,
                slot_size <= APP_LOAD_LIMIT,
        ;
    }
    PROCESS_BASE + index * slot_size
}

/// The `sstatus` a user program starts with: `SPP` cleared, `SPIE` and
/// `SUM` set, the rest as in `current`.
pub open spec fn user_sstatus_spec(current: usize) -> usize {
    ((current & !SSTATUS_SPP) | SSTATUS_SPIE | SSTATUS_SUM) as usize
}

/// The `sstatus` a user program starts with, from the current one.
pub fn user_sstatus(current: usize) -> (r: usize)
    ensures
        r == user_sstatus_spec(current),
{
    let mut sstatus = current;
    sstatus = sstatus & !SSTATUS_SPP;
    sstatus = sstatus | SSTATUS_SPIE | SSTATUS_SUM;
    sstatus
}

} // verus!
