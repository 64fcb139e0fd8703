//! Properties of page table entries, user-mode entry, open modes and the
//! memory a task may name, stated over all inputs.

use vstd::prelude::*;

use super::batch::entry_sstatus_spec;
use super::files::{cstr_len, file_fd, name_from, named_at, open_index};
use super::kernel::{first_index, lemma_first_index_props, user_range_ok, Kernel};
use super::pipes::fd_free_in;
use super::task::Task;
use super::timeshare::{TimeShare, TS_MAX_TASKS};
use super::{
    pte_spec, user_sstatus_spec, FD_FILE, FILE_NAME_SIZE, MAX_FD, MAX_FILES, USER_BASE, OPEN_RDWR, OPEN_TRUNC,
    OPEN_WRONLY, PTE_V, SSTATUS_SPIE, SSTATUS_SPP, SSTATUS_SUM, USER_STACK_SIZE,
};

verus! {

/// A page table entry for physical address `pa` carries the page number
/// `pa / 4096` from bit 10 on and, below it, the flags with the valid bit
/// set.
pub proof fn lemma_pte_layout(pa: usize, flags: usize)
    requires
        flags < 0x400,
    ensures
        pte_spec(pa, flags) >> 10usize == pa >> 12usize,
        pte_spec(pa, flags) & 0x3ffusize == flags | PTE_V,
        pte_spec(pa, flags) & PTE_V != 0,
{
    assert(((((pa >> 12usize) << 10usize) | flags | 1usize) >> 10usize) == pa >> 12usize) by (bit_vector)
        requires
            flags < 0x400,
    ;
    assert(((((pa >> 12usize) << 10usize) | flags | 1usize) & 0x3ffusize) == flags | 1usize) by (bit_vector)
        requires
            flags < 0x400,
    ;
    assert(((((pa >> 12usize) << 10usize) | flags | 1usize) & 1usize) != 0) by (bit_vector);
}

/// A user program of the chapter-seven kernel is entered in user mode
/// (`SPP` clear) with interrupts enabled on return (`SPIE`) and access to
/// user memory (`SUM`); every other bit of `sstatus` is kept.
pub proof fn lemma_user_sstatus_enters_user_mode(current: usize)
    ensures
        user_sstatus_spec(current) & SSTATUS_SPP == 0,
        user_sstatus_spec(current) & SSTATUS_SPIE != 0,
        user_sstatus_spec(current) & SSTATUS_SUM != 0,
        user_sstatus_spec(current) & !(SSTATUS_SPP | SSTATUS_SPIE | SSTATUS_SUM) == current & !(
        SSTATUS_SPP | SSTATUS_SPIE | SSTATUS_SUM),
{
    assert((((current & !0x100usize) | 0x20usize | 0x40000usize) & 0x100usize) == 0) by (bit_vector);
    assert((((current & !0x100usize) | 0x20usize | 0x40000usize) & 0x20usize) != 0) by (bit_vector);
    assert((((current & !0x100usize) | 0x20usize | 0x40000usize) & 0x40000usize) != 0) by (bit_vector);
    assert((((current & !0x100usize) | 0x20usize | 0x40000usize) & !(0x100usize | 0x20usize | 0x40000usize))
        == current & !(0x100usize | 0x20usize | 0x40000usize)) by (bit_vector);
}

/// A program of the batch and time-sharing kernels is entered in user
/// mode (`SPP` clear) with interrupts enabled on return (`SPIE`); every
/// other bit of `sstatus` is kept.
pub proof fn lemma_entry_sstatus_enters_user_mode(current: usize)
    ensures
        entry_sstatus_spec(current) & SSTATUS_SPP == 0,
        entry_sstatus_spec(current) & SSTATUS_SPIE != 0,
        entry_sstatus_spec(current) & !(SSTATUS_SPP | SSTATUS_SPIE) == current & !(SSTATUS_SPP | SSTATUS_SPIE),
{
    assert((((current & !0x100usize) | 0x20usize) & 0x100usize) == 0) by (bit_vector);
    assert((((current & !0x100usize) | 0x20usize) & 0x20usize) != 0) by (bit_vector);
    assert((((current & !0x100usize) | 0x20usize) & !(0x100usize | 0x20usize)) == current & !(0x100usize
        | 0x20usize)) by (bit_vector);
}

/// The descriptor an open makes allows what its flags ask: writing with
/// `OPEN_WRONLY` or `OPEN_RDWR`, reading unless only `OPEN_WRONLY` is
/// given; it refers to a file and starts at offset 0.
pub proof fn lemma_open_modes(file: int, flags: usize)
    ensures
        file_fd(file, flags).kind == FD_FILE,
        file_fd(file, flags).offset == 0,
        flags & OPEN_WRONLY != 0 ==> file_fd(file, flags).writable == 1,
        flags & OPEN_RDWR != 0 ==> file_fd(file, flags).writable == 1 && file_fd(file, flags).readable == 1,
        flags & OPEN_WRONLY != 0 && flags & OPEN_RDWR == 0 ==> file_fd(file, flags).readable == 0,
        flags & (OPEN_WRONLY | OPEN_RDWR) == 0 ==> file_fd(file, flags).readable == 1 && file_fd(
            file,
            flags,
        ).writable == 0,
{
    assert(flags & 1usize != 0 ==> flags & (1usize | 2usize) != 0) by (bit_vector);
    assert(flags & 2usize != 0 ==> flags & (1usize | 2usize) != 0) by (bit_vector);
    assert(flags & (1usize | 2usize) == 0 ==> flags & 1usize == 0 && flags & 2usize == 0) by (bit_vector);
}

/// A successful open gives the running task, under the returned
/// descriptor, an entry for the file that allows what the flags ask:
/// writing with `OPEN_WRONLY` or `OPEN_RDWR`, reading unless only
/// `OPEN_WRONLY` is given.
pub proof fn lemma_open_gives_requested_access(k: Kernel, k2: Kernel, name: Seq<u8>, n: int, flags: usize, r: isize)
    requires
        k.wf(),
        k2.opened(&k, name, n, flags, r),
        r >= 0,
    ensures
        0 <= r,
        k2.tasks@[k.current as int].fds@[r as int].kind == FD_FILE,
        k2.tasks@[k.current as int].fds@[r as int].offset == 0,
        flags & OPEN_WRONLY != 0 ==> k2.tasks@[k.current as int].fds@[r as int].writable == 1,
        flags & OPEN_RDWR != 0 ==> k2.tasks@[k.current as int].fds@[r as int].writable == 1
            && k2.tasks@[k.current as int].fds@[r as int].readable == 1,
        flags & OPEN_WRONLY != 0 && flags & OPEN_RDWR == 0 ==> k2.tasks@[k.current as int].fds@[r as int].readable
            == 0,
        flags & (OPEN_WRONLY | OPEN_RDWR) == 0 ==> k2.tasks@[k.current as int].fds@[r as int].readable == 1
            && k2.tasks@[k.current as int].fds@[r as int].writable == 0,
{
    broadcast use vstd::array::group_array_axioms;

    let fi = open_index(k.files@, name, n, flags)->0;
    lemma_open_modes(fi, flags);
    lemma_first_index_props(fd_free_in(k.cur()), 3, MAX_FD as int);
}

/// A successful `openat` of the name at `path_ptr` gives the running
/// task, under the returned descriptor, an entry for the file that allows
/// what the flags ask: writing with `OPEN_WRONLY` or `OPEN_RDWR`, reading
/// unless only `OPEN_WRONLY` is given.
pub proof fn lemma_openat_gives_requested_access(
    k: Kernel,
    k2: Kernel,
    mem: Seq<u8>,
    path_ptr: usize,
    flags: usize,
    r: isize,
)
    requires
        k.wf(),
        k2.open_outcome(&k, mem, path_ptr, flags, r),
        r >= 0,
    ensures
        k2.tasks@[k.current as int].fds@[r as int].kind == FD_FILE,
        flags & OPEN_WRONLY != 0 ==> k2.tasks@[k.current as int].fds@[r as int].writable == 1,
        flags & OPEN_RDWR != 0 ==> k2.tasks@[k.current as int].fds@[r as int].writable == 1
            && k2.tasks@[k.current as int].fds@[r as int].readable == 1,
        flags & OPEN_WRONLY != 0 && flags & OPEN_RDWR == 0 ==> k2.tasks@[k.current as int].fds@[r as int].readable
            == 0,
        flags & (OPEN_WRONLY | OPEN_RDWR) == 0 ==> k2.tasks@[k.current as int].fds@[r as int].readable == 1
            && k2.tasks@[k.current as int].fds@[r as int].writable == 0,
{
    assert(cstr_len(k.cur(), mem, path_ptr as int) is Some);
    let t = k.cur();
    let ptr = path_ptr as int;
    lemma_first_index_props(
        |i: int| !user_range_ok(t, ptr + i, 1) || mem[ptr + i - USER_BASE] == 0,
        0,
        FILE_NAME_SIZE as int,
    );
    let n = cstr_len(k.cur(), mem, path_ptr as int)->0;
    assert(n > 0);
    assert(k2.opened(&k, name_from(mem, path_ptr as int, n), n, flags, r));
    lemma_open_gives_requested_access(k, k2, name_from(mem, path_ptr as int, n), n, flags, r);
}

/// Opening an existing file with `OPEN_TRUNC` and `OPEN_WRONLY` (or
/// `OPEN_RDWR`) empties it; nothing else of it changes.
pub proof fn lemma_open_truncates(k: Kernel, k2: Kernel, name: Seq<u8>, n: int, flags: usize, r: isize, i: int)
    requires
        k.wf(),
        k2.opened(&k, name, n, flags, r),
        first_index(named_at(k.files@, name, n), 0, MAX_FILES as int) == Some(i),
        flags & OPEN_TRUNC != 0,
        flags & (OPEN_WRONLY | OPEN_RDWR) != 0,
    ensures
        k2.files@[i].len == 0,
        k2.files@[i].name == k.files@[i].name,
        k2.files@[i].used == k.files@[i].used,
{
    lemma_first_index_props(named_at(k.files@, name, n), 0, MAX_FILES as int);
}

/// The bounds of the stack of task `i` of the time-sharing kernel.
pub open spec fn stack_bottom(k: TimeShare, i: int) -> int {
    k.stacks_base + i * USER_STACK_SIZE
}

/// A range of bytes in the running task's own stack is the task's:
/// `write` prints it and returns its length.
pub proof fn lemma_own_stack_accepted(k: TimeShare, fd: usize, ptr: usize, len: usize)
    requires
        k.wf(),
        fd == 1 || fd == 2,
        stack_bottom(k, k.current as int) <= ptr,
        ptr + len <= stack_bottom(k, k.current as int) + USER_STACK_SIZE,
    ensures
        k.range_ok(ptr, len),
        k.write_ret(fd, ptr, len) == len as isize,
{
    assert(k.current * USER_STACK_SIZE <= TS_MAX_TASKS * USER_STACK_SIZE) by (nonlinear_arith)
        requires
            k.current < TS_MAX_TASKS,
    ;
}

/// A range of bytes in the stack of another task, and not in the running
/// task's load area, is not the running task's: `write` refuses it with -1.
pub proof fn lemma_other_stack_refused(k: TimeShare, j: int, fd: usize, ptr: usize, len: usize)
    requires
        k.wf(),
        0 <= j < TS_MAX_TASKS,
        j != k.current,
        0 < len,
        stack_bottom(k, j) <= ptr,
        ptr + len <= stack_bottom(k, j) + USER_STACK_SIZE,
        !(ptr >= k.cur().base && ptr + len <= k.cur().limit),
    ensures
        !k.range_ok(ptr, len),
        k.write_ret(fd, ptr, len) == -1,
{
    let c = k.current as int;
    if j < c {
        assert(j * USER_STACK_SIZE + USER_STACK_SIZE <= c * USER_STACK_SIZE) by (nonlinear_arith)
            requires
                j < c,
        ;
    } else {
        assert(c * USER_STACK_SIZE + USER_STACK_SIZE <= j * USER_STACK_SIZE) by (nonlinear_arith)
            requires
                c < j,
        ;
    }
}

/// A range of bytes in the running task's own load area is the task's:
/// `write` prints it and returns its length.
pub proof fn lemma_own_area_accepted(k: TimeShare, fd: usize, ptr: usize, len: usize)
    requires
        fd == 1 || fd == 2,
        k.cur().base <= ptr,
        ptr + len <= k.cur().limit,
    ensures
        k.range_ok(ptr, len),
        k.write_ret(fd, ptr, len) == len as isize,
{
}

/// The chapter-seven kernel lets a task name the bytes of its program, its
/// heap up to the break and its stack, and nothing that lies outside all
/// three.
pub proof fn lemma_task_regions(t: Task, ptr: int, len: int)
    requires
        0 <= ptr,
        0 < len,
        ptr + len <= usize::MAX,
    ensures
        t.base <= ptr && ptr + len <= t.program_end ==> user_range_ok(t, ptr, len),
        t.heap_base <= ptr && ptr + len <= t.brk ==> user_range_ok(t, ptr, len),
        t.stack_bottom <= ptr && ptr + len <= t.stack_top ==> user_range_ok(t, ptr, len),
        !(t.base <= ptr && ptr + len <= t.program_end) && !(t.heap_base <= ptr && ptr + len <= t.brk) && !(
        t.stack_bottom <= ptr && ptr + len <= t.stack_top) ==> !user_range_ok(t, ptr, len),
{
}

} // verus!
