//! The state of the chapter-seven kernel and its system calls.

use vstd::prelude::*;

use super::task::{empty_fd, empty_pipe, FdEntry, FileEntry, PipeEntry, SigAction, Task};
use super::{
    empty_context, TrapContext, APP_LOAD_LIMIT, FD_FILE, FD_PIPE_READ, FD_PIPE_WRITE, FD_STDIN,
    FD_STDOUT, FD_UNUSED, FILE_DATA_SIZE, FILE_NAME_SIZE, MAX_FD, MAX_FILES, MAX_PIPES, MAX_SIG,
    MAX_TASKS, OPEN_CREATE, OPEN_RDWR, OPEN_TRUNC, OPEN_WRONLY, PAGE_SIZE, PIPE_DATA_SIZE,
    PROGRAM_STATIC_SIZE, SIGKILL, SIGUSR1, TASK_EXITED, TASK_FAULTED, TASK_READY, TASK_RUNNING,
    TASK_UNUSED, USER_BASE, USER_STACK_SIZE,
};

verus! {

/// The first `k` in `from .. to` with `p(k)`.
pub open spec fn first_index(p: spec_fn(int) -> bool, from: int, to: int) -> Option<int>
    decreases to - from,
{
    if from >= to {
        None
    } else if p(from) {
        Some(from)
    } else {
        first_index(p, from + 1, to)
    }
}

/// Skipping a prefix where `p` fails does not change the first index.
pub proof fn lemma_first_index_skip(p: spec_fn(int) -> bool, from: int, mid: int, to: int)
    requires
        from <= mid,
        forall|k: int| from <= k < mid ==> !#[trigger] p(k),
    ensures
        first_index(p, from, to) == first_index(p, mid, to),
    decreases mid - from,
{
    if from < mid {
        lemma_first_index_skip(p, from + 1, mid, to);
    }
}

/// Predicates that agree on `from .. to` have the same first index there.
pub proof fn lemma_first_index_congruent(p: spec_fn(int) -> bool, q: spec_fn(int) -> bool, from: int, to: int)
    requires
        forall|k: int| from <= k < to ==> #[trigger] p(k) == q(k),
    ensures
        first_index(p, from, to) == first_index(q, from, to),
    decreases to - from,
{
    if from < to {
        lemma_first_index_congruent(p, q, from + 1, to);
    }
}

/// What the first index is.
pub proof fn lemma_first_index_props(p: spec_fn(int) -> bool, from: int, to: int)
    ensures
        first_index(p, from, to) matches Some(i) ==> from <= i < to && p(i) && forall|k: int|
            from <= k < i ==> !#[trigger] p(k),
        first_index(p, from, to) is None ==> forall|k: int| from <= k < to ==> !#[trigger] p(k),
    decreases to - from,
{
    if from < to && !p(from) {
        lemma_first_index_props(p, from + 1, to);
    }
}

/// Whether the task at offset `off` after `start`, round-robin, is ready.
pub open spec fn ready_in(tasks: Seq<Task>, start: int) -> spec_fn(int) -> bool {
    |off: int| tasks[(start + off) % (MAX_TASKS as int)].status == TASK_READY
}

/// The next ready task of `tasks` after `start`, round-robin, `start`
/// itself last.
pub open spec fn next_ready_in(tasks: Seq<Task>, start: int) -> Option<usize> {
    match first_index(ready_in(tasks, start), 1, MAX_TASKS + 1) {
        Some(off) => Some(((start + off) % (MAX_TASKS as int)) as usize),
        None => None,
    }
}

/// Work the kernel leaves to the machine, in order.
#[derive(Clone, Copy, Debug, PartialEq, Eq, Structural)]
pub enum Effect {
    /// Print a byte on the console.
    PutChar(u8),
    /// Turn translation off (`satp = 0`) and flush the TLB.
    DisablePaging,
    /// Load `satp` with the value and flush the TLB.
    Activate(u64),
    /// Copy `len` bytes of physical memory.
    CopyMemory { from: usize, to: usize, len: usize },
    /// Zero a slot at `phys_base` and copy application `app` into it (the
    /// machine shuts down when the image is larger than a slot).
    LoadApp { app: usize, phys_base: usize },
}

/// Where the physical memory of the last process slot ends at the latest.
pub const PHYS_LIMIT: usize = 0x9C00_0000;

/// A pipe just made: in use, one read end and one write end, no data.
pub open spec fn fresh_pipe() -> PipeEntry {
    PipeEntry { used: 1, read_open: 1, write_open: 1, ..empty_pipe() }
}

/// Whether a pipe's buffer is consistent.
pub open spec fn pipe_ok(p: PipeEntry) -> bool {
    p.read_offset <= p.len <= PIPE_DATA_SIZE
}

/// Whether a file's length and name length are within bounds.
pub open spec fn file_ok(f: FileEntry) -> bool {
    f.len <= FILE_DATA_SIZE && f.name_len <= FILE_NAME_SIZE
}

/// Whether every user region of a task lies in the slot of `slot` bytes
/// mapped at [`USER_BASE`].
pub open spec fn in_slot(t: Task, slot: usize) -> bool {
    &&& USER_BASE <= t.base
    &&& USER_BASE <= t.program_end
    &&& t.program_end <= USER_BASE + slot
    &&& USER_BASE <= t.heap_base
    &&& t.heap_base <= t.brk
    &&& t.brk <= t.heap_limit
    &&& t.heap_limit <= USER_BASE + slot
    &&& USER_BASE <= t.stack_bottom
    &&& t.stack_bottom <= t.stack_top
    &&& t.stack_top <= USER_BASE + slot
}

/// Whether `len` bytes at `ptr` lie in one of the task's user regions:
/// its program, its heap up to the break, or its stack.
pub open spec fn user_range_ok(t: Task, ptr: int, len: int) -> bool {
    len == 0 || (ptr + len <= usize::MAX && ((ptr >= t.base && ptr + len <= t.program_end) || (
    ptr >= t.heap_base && ptr + len <= t.brk) || (ptr >= t.stack_bottom && ptr + len
        <= t.stack_top)))
}

/// A range in a user region of a task whose regions are in its slot is in
/// the slot.
pub proof fn lemma_user_range_in_slot(t: Task, slot: usize, ptr: int, len: int)
    requires
        in_slot(t, slot),
        user_range_ok(t, ptr, len),
        len > 0,
    ensures
        USER_BASE <= ptr,
        ptr + len <= USER_BASE + slot,
{
}

/// The state of the kernel: its tables, the running task, the clock, and
/// where the application slots and page tables lie.
pub struct Kernel {
    pub tasks: Vec<Task>,
    pub files: Vec<FileEntry>,
    pub pipes: Vec<PipeEntry>,
    pub current: usize,
    pub monotonic_us: usize,
    pub slot_size: usize,
    pub app_count: usize,
    pub root_tables: usize,
    pub l1_tables: usize,
    pub user_l0_tables: usize,
    pub root_pt: Vec<[usize; 512]>,
    pub l1_pt: Vec<[usize; 512]>,
    pub l0_pt: Vec<[usize; 512]>,
}

impl Kernel {
    /// The tables have their sizes, the running task is one of them, the
    /// slots hold a program and a stack, and the page tables' addresses fit.
    pub open spec fn wf(&self) -> bool {
        &&& self.tasks@.len() == MAX_TASKS
        &&& self.files@.len() == MAX_FILES
        &&& self.pipes@.len() == MAX_PIPES
        &&& self.current < MAX_TASKS
        &&& PROGRAM_STATIC_SIZE + USER_STACK_SIZE <= self.slot_size <= APP_LOAD_LIMIT
        &&& self.root_tables + MAX_TASKS * PAGE_SIZE <= usize::MAX
        &&& self.l1_tables + MAX_TASKS * PAGE_SIZE <= usize::MAX
        &&& self.user_l0_tables + MAX_TASKS * PAGE_SIZE <= usize::MAX
        &&& forall|p: int| 0 <= p < MAX_PIPES ==> #[trigger] pipe_ok(self.pipes@[p])
        &&& forall|f: int| 0 <= f < MAX_FILES ==> #[trigger] file_ok(self.files@[f])
        &&& self.root_pt@.len() == MAX_TASKS
        &&& self.l1_pt@.len() == MAX_TASKS
        &&& self.l0_pt@.len() == MAX_TASKS
        &&& forall|i: int|
            0 <= i < MAX_TASKS && self.tasks@[i].status != TASK_UNUSED ==> #[trigger] in_slot(
                self.tasks@[i],
                self.slot_size,
            )
        &&& forall|i: int|
            0 <= i < MAX_TASKS && self.tasks@[i].status != TASK_UNUSED ==> #[trigger] self.tasks@[i].phys_base
                <= PHYS_LIMIT
        &&& forall|i: int, fd: int|
            0 <= i < MAX_TASKS && 0 <= fd < MAX_FD ==> #[trigger] self.tasks@[i].fds@[fd].offset
                <= FILE_DATA_SIZE
    }

    /// The page tables are the same.
    pub open spec fn same_tables(&self, old: &Kernel) -> bool {
        &&& self.root_pt@ == old.root_pt@
        &&& self.l1_pt@ == old.l1_pt@
        &&& self.l0_pt@ == old.l0_pt@
    }

    /// The running task.
    pub open spec fn cur(&self) -> Task {
        self.tasks@[self.current as int]
    }

    /// Nothing but the running task changed.
    pub open spec fn only_current_changed(&self, old: &Kernel) -> bool {
        &&& self.tasks@.len() == old.tasks@.len()
        &&& forall|i: int| 0 <= i < MAX_TASKS && i != old.current ==> #[trigger] self.tasks@[i] == old.tasks@[i]
        &&& self.files@ == old.files@
        &&& self.pipes@ == old.pipes@
        &&& self.same_config(old)
        &&& self.same_tables(old)
    }

    /// Replacing task `i` keeps the kernel well formed when the new task
    /// keeps its regions in the slot and its descriptors' offsets in bounds.
    pub proof fn lemma_task_update_wf(&self, prev: &Kernel, i: int)
        requires
            prev.wf(),
            0 <= i < MAX_TASKS,
            self.tasks@ == prev.tasks@.update(i, self.tasks@[i]),
            self.files@ == prev.files@,
            self.pipes@ == prev.pipes@,
            self.same_config(prev),
            self.same_tables(prev),
            self.tasks@[i].status != TASK_UNUSED ==> in_slot(self.tasks@[i], self.slot_size)
                && self.tasks@[i].phys_base <= PHYS_LIMIT,
            forall|fd: int| 0 <= fd < MAX_FD ==> #[trigger] self.tasks@[i].fds@[fd].offset <= FILE_DATA_SIZE,
        ensures
            self.wf(),
    {
        assert forall|j: int, fd: int| 0 <= j < MAX_TASKS && 0 <= fd < MAX_FD implies #[trigger] self.tasks@[j].fds@[fd].offset
            <= FILE_DATA_SIZE by {
            if j != i {
                assert(self.tasks@[j] == prev.tasks@[j]);
            }
        }
        assert forall|j: int| 0 <= j < MAX_TASKS && self.tasks@[j].status != TASK_UNUSED implies #[trigger] in_slot(
            self.tasks@[j],
            self.slot_size,
        ) && self.tasks@[j].phys_base <= PHYS_LIMIT by {
            if j != i {
                assert(self.tasks@[j] == prev.tasks@[j]);
            }
        }
    }

    /// A task in use lies in its slot.
    pub proof fn lemma_task_in_slot(&self, i: int)
        requires
            self.wf(),
            0 <= i < MAX_TASKS,
            self.tasks@[i].status != TASK_UNUSED,
        ensures
            in_slot(self.tasks@[i], self.slot_size),
            self.tasks@[i].phys_base <= PHYS_LIMIT,
    {
    }

    /// Nothing changed.
    pub open spec fn unchanged(&self, old: &Kernel) -> bool {
        &&& self.tasks@ == old.tasks@
        &&& self.files@ == old.files@
        &&& self.pipes@ == old.pipes@
        &&& self.same_config(old)
        &&& self.same_tables(old)
    }

    /// The fixed parameters are the same.
    pub open spec fn same_config(&self, old: &Kernel) -> bool {
        &&& self.current == old.current
        &&& self.monotonic_us == old.monotonic_us
        &&& self.slot_size == old.slot_size
        &&& self.app_count == old.app_count
        &&& self.root_tables == old.root_tables
        &&& self.l1_tables == old.l1_tables
        &&& self.user_l0_tables == old.user_l0_tables
    }

    /// The slot found by scanning the tasks round-robin after `start`:
    /// offset `off` stands for task `(start + off) % MAX_TASKS`.
    pub open spec fn ready_at(&self, start: int) -> spec_fn(int) -> bool {
        ready_in(self.tasks@, start)
    }

    /// The next ready task after `start`, round-robin, `start` itself last.
    pub open spec fn next_ready(&self, start: int) -> Option<usize> {
        next_ready_in(self.tasks@, start)
    }

    /// The next ready task after `start`.
    pub fn find_next_ready(&self, start: usize) -> (r: Option<usize>)
        requires
            self.wf(),
            start < MAX_TASKS,
        ensures
            r == self.next_ready(start as int),
            r matches Some(i) ==> i < MAX_TASKS && self.tasks@[i as int].status == TASK_READY,
    {
        let count = MAX_TASKS;
        let mut offset: usize = 1;
        while offset <= count
            invariant
                self.wf(),
                start < MAX_TASKS,
                count == MAX_TASKS,
                1 <= offset <= count + 1,
                forall|k: int| 1 <= k < offset ==> !(#[trigger] self.ready_at(start as int)(k)),
            decreases count + 1 - offset,
        {
            let index = (start + offset) % count;
            if self.tasks[index].status == TASK_READY {
                proof {
                    lemma_first_index_skip(self.ready_at(start as int), 1, offset as int, MAX_TASKS + 1);
                }
                return Some(index);
            }
            offset = offset + 1;
        }
        proof {
            lemma_first_index_skip(self.ready_at(start as int), 1, offset as int, MAX_TASKS + 1);
        }
        None
    }

    /// Whether task `i` is unused.
    pub open spec fn unused_at(&self) -> spec_fn(int) -> bool {
        |i: int| self.tasks@[i].status == TASK_UNUSED
    }

    /// The lowest unused task slot.
    pub fn alloc_task_slot(&self) -> (r: Option<usize>)
        requires
            self.wf(),
        ensures
            r == (match first_index(self.unused_at(), 0, MAX_TASKS as int) {
                Some(i) => Some(i as usize),
                None => None,
            }),
            r matches Some(i) ==> i < MAX_TASKS,
    {
        let mut index: usize = 0;
        while index < MAX_TASKS
            invariant
                self.wf(),
                index <= MAX_TASKS,
                forall|k: int| 0 <= k < index ==> !(#[trigger] self.unused_at()(k)),
            decreases MAX_TASKS - index,
        {
            if self.tasks[index].status == TASK_UNUSED {
                proof {
                    lemma_first_index_skip(self.unused_at(), 0, index as int, MAX_TASKS as int);
                }
                return Some(index);
            }
            index = index + 1;
        }
        proof {
            lemma_first_index_skip(self.unused_at(), 0, index as int, MAX_TASKS as int);
        }
        None
    }

    /// Whether `len` bytes at `ptr` are in a user region of the running
    /// task.
    pub fn valid_user_range(&self, ptr: usize, len: usize) -> (r: bool)
        requires
            self.wf(),
        ensures
            r == user_range_ok(self.cur(), ptr as int, len as int),
    {
        if len == 0 {
            return true;
        }
        let end = match ptr.checked_add(len) {
            Some(end) => end,
            None => {
                return false;
            },
        };
        let t = &self.tasks[self.current];
        (ptr >= t.base && end <= t.program_end) || (ptr >= t.heap_base && end <= t.brk) || (ptr
            >= t.stack_bottom && end <= t.stack_top)
    }

    /// Whether descriptor `fd` of the running task is unused.
    pub open spec fn fd_free_at(&self) -> spec_fn(int) -> bool {
        |fd: int| self.cur().fds@[fd].kind == FD_UNUSED
    }

    /// The lowest unused descriptor of the running task above the
    /// standard three.
    pub fn alloc_fd(&self) -> (r: Option<usize>)
        requires
            self.wf(),
        ensures
            r == (match first_index(self.fd_free_at(), 3, MAX_FD as int) {
                Some(i) => Some(i as usize),
                None => None,
            }),
            r matches Some(i) ==> 3 <= i < MAX_FD,
    {
        let current = self.current;
        let mut fd: usize = 3;
        while fd < MAX_FD
            invariant
                self.wf(),
                current == self.current,
                3 <= fd <= MAX_FD,
                forall|k: int| 3 <= k < fd ==> !(#[trigger] self.fd_free_at()(k)),
            decreases MAX_FD - fd,
        {
            if self.tasks[current].fds[fd].kind == FD_UNUSED {
                proof {
                    lemma_first_index_skip(self.fd_free_at(), 3, fd as int, MAX_FD as int);
                }
                return Some(fd);
            }
            fd = fd + 1;
        }
        proof {
            lemma_first_index_skip(self.fd_free_at(), 3, fd as int, MAX_FD as int);
        }
        None
    }

    /// Whether pipe `i` is unused.
    pub open spec fn pipe_free_at(&self) -> spec_fn(int) -> bool {
        |i: int| self.pipes@[i].used == 0
    }

    /// Takes the lowest unused pipe slot, emptied, with one read end and
    /// one write end open.
    pub fn alloc_pipe(&mut self) -> (r: Option<usize>)
        requires
            old(self).wf(),
        ensures
            final(self).wf(),
            r == (match first_index(old(self).pipe_free_at(), 0, MAX_PIPES as int) {
                Some(i) => Some(i as usize),
                None => None,
            }),
            r is None ==> final(self).pipes@ == old(self).pipes@,
            r matches Some(i) ==> i < MAX_PIPES,
            r matches Some(i) ==> final(self).pipes@ == old(self).pipes@.update(i as int, fresh_pipe()),
            final(self).tasks@ == old(self).tasks@,
            final(self).files@ == old(self).files@,
            final(self).same_config(old(self)),
            final(self).same_tables(old(self)),
    {
        let mut index: usize = 0;
        while index < MAX_PIPES
            invariant
                *self == *old(self),
                self.wf(),
                index <= MAX_PIPES,
                forall|k: int| 0 <= k < index ==> !(#[trigger] self.pipe_free_at()(k)),
            decreases MAX_PIPES - index,
        {
            if self.pipes[index].used == 0 {
                proof {
                    lemma_first_index_skip(self.pipe_free_at(), 0, index as int, MAX_PIPES as int);
                }
                let mut p = PipeEntry::empty();
                p.used = 1;
                p.read_open = 1;
                p.write_open = 1;
                self.pipes[index] = p;
                return Some(index);
            }
            index = index + 1;
        }
        proof {
            lemma_first_index_skip(self.pipe_free_at(), 0, index as int, MAX_PIPES as int);
        }
        None
    }

    /// The pid of the running task.
    pub fn current_pid(&self) -> (r: usize)
        requires
            self.wf(),
        ensures
            r == self.cur().pid,
    {
        self.tasks[self.current].pid
    }

    /// Advances the clock by 100 ms (wrapping) and returns it, in µs.
    pub fn next_time_us(&mut self) -> (r: usize)
        ensures
            r == vstd::wrapping::usize_specs::wrapping_add(old(self).monotonic_us, 100_000),
            final(self).monotonic_us == r,
            final(self).tasks == old(self).tasks,
            final(self).files == old(self).files,
            final(self).pipes == old(self).pipes,
            final(self).current == old(self).current,
            final(self).slot_size == old(self).slot_size,
            final(self).app_count == old(self).app_count,
            final(self).root_tables == old(self).root_tables,
            final(self).l1_tables == old(self).l1_tables,
            final(self).user_l0_tables == old(self).user_l0_tables,
            final(self).same_tables(old(self)),
    {
        self.monotonic_us = self.monotonic_us.wrapping_add(100_000);
        self.monotonic_us
    }
}

} // verus!
