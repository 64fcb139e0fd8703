//! Pipes: their ends as descriptors, and the bytes written to them and
//! read from them.

use vstd::prelude::*;

use super::kernel::{
    first_index, fresh_pipe, in_slot, lemma_first_index_congruent, lemma_first_index_props,
    lemma_first_index_skip,
    lemma_user_range_in_slot, pipe_ok, user_range_ok, Kernel,
};
use super::memory::{put_bytes, word_bytes, write_word};
use super::task::{empty_fd, empty_pipe, set_fd, with_fd, FdEntry, PipeEntry, Task};
use super::{FD_PIPE_READ, FD_PIPE_WRITE, FD_UNUSED, MAX_FD, MAX_PIPES, MAX_TASKS, PIPE_DATA_SIZE, USER_BASE};

verus! {

/// `pipe` after one of its ends, of kind `kind`, was closed: the count of
/// that end goes down, and a pipe with no end left is emptied.
pub open spec fn closed_pipe(p: PipeEntry, kind: usize) -> PipeEntry {
    let r = if kind == FD_PIPE_READ && p.read_open > 0 { (p.read_open - 1) as usize } else { p.read_open };
    let w = if kind == FD_PIPE_WRITE && p.write_open > 0 { (p.write_open - 1) as usize } else { p.write_open };
    if r == 0 && w == 0 {
        empty_pipe()
    } else {
        PipeEntry { read_open: r, write_open: w, ..p }
    }
}

/// The pipes after the end `e` was closed.
pub open spec fn pipes_after_close(pipes: Seq<PipeEntry>, e: FdEntry) -> Seq<PipeEntry> {
    if e.file_index < MAX_PIPES {
        pipes.update(e.file_index as int, closed_pipe(pipes[e.file_index as int], e.kind))
    } else {
        pipes
    }
}

/// `n + 1`, saturating at `usize::MAX`.
pub open spec fn inc(n: usize) -> usize {
    if n < usize::MAX { (n + 1) as usize } else { n }
}

/// The pipes after the descriptor `e` was copied: a pipe end's count goes up.
pub open spec fn pipes_after_clone(pipes: Seq<PipeEntry>, e: FdEntry) -> Seq<PipeEntry> {
    if e.kind == FD_PIPE_READ && e.file_index < MAX_PIPES {
        let p = pipes[e.file_index as int];
        pipes.update(e.file_index as int, PipeEntry { read_open: inc(p.read_open), ..p })
    } else if e.kind == FD_PIPE_WRITE && e.file_index < MAX_PIPES {
        let p = pipes[e.file_index as int];
        pipes.update(e.file_index as int, PipeEntry { write_open: inc(p.write_open), ..p })
    } else {
        pipes
    }
}

/// The pipes after the descriptors `fds` were copied, in order.
pub open spec fn pipes_after_clone_all(pipes: Seq<PipeEntry>, fds: Seq<FdEntry>) -> Seq<PipeEntry>
    decreases fds.len(),
{
    if fds.len() == 0 {
        pipes
    } else {
        pipes_after_clone(pipes_after_clone_all(pipes, fds.drop_last()), fds.last())
    }
}

/// The pipes after the pipe ends among `fds` were closed, in order.
pub open spec fn pipes_after_close_all(pipes: Seq<PipeEntry>, fds: Seq<FdEntry>) -> Seq<PipeEntry>
    decreases fds.len(),
{
    if fds.len() == 0 {
        pipes
    } else {
        let before = pipes_after_close_all(pipes, fds.drop_last());
        let e = fds.last();
        if e.kind == FD_PIPE_READ || e.kind == FD_PIPE_WRITE {
            pipes_after_close(before, e)
        } else {
            before
        }
    }
}

/// `a` if it is the smaller, else `b`.
pub open spec fn min(a: int, b: int) -> int {
    if a <= b { a } else { b }
}

/// Whether `len` bytes at user address `ptr` are in a slot of `slot`
/// bytes.
pub open spec fn in_mem(slot: int, ptr: int, len: int) -> bool {
    len == 0 || (USER_BASE <= ptr && ptr + len <= USER_BASE + slot)
}

/// The number of bytes a write of `len` bytes puts into pipe `p`, or the
/// error: -1 for a pipe that is not open for reading, -2 for a full one.
pub open spec fn pipe_write_result(p: PipeEntry, len: int) -> int {
    if p.used == 0 || p.read_open == 0 {
        -1
    } else if p.len >= PIPE_DATA_SIZE {
        -2
    } else {
        min(len, PIPE_DATA_SIZE - p.len)
    }
}

/// The number of bytes a read of `len` bytes takes from pipe `p`, or: 0
/// at the end of an empty pipe with no writer, -2 for an empty pipe that
/// still has one, -1 for a pipe not in use.
pub open spec fn pipe_read_result(p: PipeEntry, len: int) -> int {
    if p.used == 0 {
        -1
    } else if p.len - p.read_offset <= 0 {
        if p.write_open == 0 { 0 } else { -2 }
    } else {
        min(len, p.len - p.read_offset)
    }
}

/// `p` after `n` more bytes were read from it: emptied when all are read.
pub open spec fn pipe_after_read(p: PipeEntry, n: int) -> PipeEntry {
    if p.read_offset + n == p.len {
        PipeEntry { read_offset: 0, len: 0, ..p }
    } else {
        PipeEntry { read_offset: (p.read_offset + n) as usize, ..p }
    }
}

/// The read end of pipe `pipe`.
pub open spec fn read_end(pipe: int) -> FdEntry {
    FdEntry { kind: FD_PIPE_READ, file_index: pipe as usize, offset: 0, readable: 1, writable: 0 }
}

/// The write end of pipe `pipe`.
pub open spec fn write_end(pipe: int) -> FdEntry {
    FdEntry { kind: FD_PIPE_WRITE, file_index: pipe as usize, offset: 0, readable: 0, writable: 1 }
}

/// Whether descriptor `fd` of `t` is unused.
pub open spec fn fd_free_in(t: Task) -> spec_fn(int) -> bool {
    |fd: int| t.fds@[fd].kind == FD_UNUSED
}

/// Whether descriptor `fd` of `t` is unused and not `taken`.
pub open spec fn fd_free_but(t: Task, taken: int) -> spec_fn(int) -> bool {
    |fd: int| fd != taken && t.fds@[fd].kind == FD_UNUSED
}

impl Kernel {
    /// Closes the pipe end `entry`.
    pub fn close_pipe_fd(&mut self, entry: FdEntry)
        requires
            old(self).wf(),
        ensures
            final(self).wf(),
            final(self).pipes@ == pipes_after_close(old(self).pipes@, entry),
            final(self).tasks@ == old(self).tasks@,
            final(self).files@ == old(self).files@,
            final(self).same_config(old(self)),
            final(self).same_tables(old(self)),
    {
        let pipe_index = entry.file_index;
        if pipe_index >= MAX_PIPES {
            return;
        }
        assert(pipe_ok(self.pipes@[pipe_index as int]));
        let mut p = self.pipes[pipe_index];
        if entry.kind == FD_PIPE_READ && p.read_open > 0 {
            p.read_open = p.read_open - 1;
        }
        if entry.kind == FD_PIPE_WRITE && p.write_open > 0 {
            p.write_open = p.write_open - 1;
        }
        if p.read_open == 0 && p.write_open == 0 {
            p = PipeEntry::empty();
        }
        self.pipes.set(pipe_index, p);
        proof {
            assert(pipe_ok(self.pipes@[pipe_index as int]));
            assert forall|q: int| 0 <= q < MAX_PIPES implies #[trigger] pipe_ok(self.pipes@[q]) by {
                if q != pipe_index {
                    assert(pipe_ok(old(self).pipes@[q]));
                }
            }
        }
    }

    /// Counts the pipe ends among the descriptors of task `index` once
    /// more, after they were copied to it.
    pub fn clone_fd_refs(&mut self, index: usize)
        requires
            old(self).wf(),
            index < MAX_TASKS,
        ensures
            final(self).wf(),
            final(self).pipes@ == pipes_after_clone_all(
                old(self).pipes@,
                old(self).tasks@[index as int].fds@,
            ),
            final(self).tasks@ == old(self).tasks@,
            final(self).files@ == old(self).files@,
            final(self).same_config(old(self)),
            final(self).same_tables(old(self)),
    {
        let ghost fds = self.tasks@[index as int].fds@;
        let mut fd: usize = 0;
        while fd < MAX_FD
            invariant
                self.wf(),
                index < MAX_TASKS,
                fd <= MAX_FD,
                fds == self.tasks@[index as int].fds@,
                fds.len() == MAX_FD,
                self.pipes@ == pipes_after_clone_all(old(self).pipes@, fds.subrange(0, fd as int)),
                self.tasks@ == old(self).tasks@,
                self.files@ == old(self).files@,
                self.same_config(old(self)),
                self.same_tables(old(self)),
            decreases MAX_FD - fd,
        {
            let entry = self.tasks[index].fds[fd];
            assert(fds.subrange(0, fd + 1).drop_last() == fds.subrange(0, fd as int));
            if entry.file_index < MAX_PIPES {
                assert(pipe_ok(self.pipes@[entry.file_index as int]));
            }
            if entry.kind == FD_PIPE_READ && entry.file_index < MAX_PIPES {
                let mut p = self.pipes[entry.file_index];
                if p.read_open < usize::MAX {
                    p.read_open = p.read_open + 1;
                }
                self.pipes.set(entry.file_index, p);
            } else if entry.kind == FD_PIPE_WRITE && entry.file_index < MAX_PIPES {
                let mut p = self.pipes[entry.file_index];
                if p.write_open < usize::MAX {
                    p.write_open = p.write_open + 1;
                }
                self.pipes.set(entry.file_index, p);
            }
            proof {
                assert forall|q: int| 0 <= q < MAX_PIPES implies #[trigger] pipe_ok(self.pipes@[q]) by {
                    if q != entry.file_index {
                    }
                }
            }
            fd = fd + 1;
        }
        assert(fds.subrange(0, MAX_FD as int) == fds);
    }

    /// Closes every descriptor of task `index`.
    pub fn close_all_fds(&mut self, index: usize)
        requires
            old(self).wf(),
            index < MAX_TASKS,
        ensures
            final(self).wf(),
            final(self).pipes@ == pipes_after_close_all(
                old(self).pipes@,
                old(self).tasks@[index as int].fds@,
            ),
            final(self).tasks@ == old(self).tasks@.update(index as int, final(self).tasks@[index as int]),
            final(self).tasks@[index as int] == (Task {
                fds: final(self).tasks@[index as int].fds,
                ..old(self).tasks@[index as int]
            }),
            forall|fd: int| 0 <= fd < MAX_FD ==> #[trigger] final(self).tasks@[index as int].fds@[fd] == empty_fd(),
            final(self).files@ == old(self).files@,
            final(self).same_config(old(self)),
            final(self).same_tables(old(self)),
    {
        let ghost fds = self.tasks@[index as int].fds@;
        let mut fd: usize = 0;
        while fd < MAX_FD
            invariant
                self.wf(),
                old(self).wf(),
                index < MAX_TASKS,
                fd <= MAX_FD,
                fds == old(self).tasks@[index as int].fds@,
                fds.len() == MAX_FD,
                self.pipes@ == pipes_after_close_all(old(self).pipes@, fds.subrange(0, fd as int)),
                self.tasks@ == old(self).tasks@.update(index as int, self.tasks@[index as int]),
                self.tasks@[index as int] == (Task {
                    fds: self.tasks@[index as int].fds,
                    ..old(self).tasks@[index as int]
                }),
                forall|k: int| 0 <= k < MAX_FD ==> #[trigger] self.tasks@[index as int].fds@[k] == (if k < fd {
                    empty_fd()
                } else {
                    fds[k]
                }),
                self.files@ == old(self).files@,
                self.same_config(old(self)),
                self.same_tables(old(self)),
            decreases MAX_FD - fd,
        {
            let entry = self.tasks[index].fds[fd];
            assert(fds.subrange(0, fd + 1).drop_last() == fds.subrange(0, fd as int));
            if entry.kind == FD_PIPE_READ || entry.kind == FD_PIPE_WRITE {
                self.close_pipe_fd(entry);
            }
            let mut t = self.tasks[index];
            set_fd(&mut t, fd, FdEntry::empty());
            self.tasks.set(index, t);
            proof {
                assert forall|i: int, k: int| 0 <= i < MAX_TASKS && 0 <= k < MAX_FD implies #[trigger] self.tasks@[i].fds@[k].offset
                    <= super::FILE_DATA_SIZE by {
                    if i != index {
                        assert(self.tasks@[i] == old(self).tasks@[i]);
                    }
                }
                assert forall|i: int| 0 <= i < MAX_TASKS && self.tasks@[i].status != super::TASK_UNUSED implies #[trigger] super::kernel::in_slot(
                    self.tasks@[i],
                    self.slot_size,
                ) && self.tasks@[i].phys_base <= super::kernel::PHYS_LIMIT by {
                    if i != index {
                        assert(self.tasks@[i] == old(self).tasks@[i]);
                    } else {
                        assert(super::kernel::in_slot(old(self).tasks@[i], old(self).slot_size));
                    }
                }
            }
            fd = fd + 1;
        }
        assert(fds.subrange(0, MAX_FD as int) == fds);
    }

    /// Writes up to `len` bytes at user address `ptr` into pipe
    /// `pipe_index`; returns how many, or -1 for a pipe not open for
    /// reading, -2 for a full one.
    pub fn sys_pipe_write(&mut self, mem: &Vec<u8>, pipe_index: usize, ptr: usize, len: usize) -> (r: isize)
        requires
            old(self).wf(),
            in_mem(mem.len() as int, ptr as int, len as int),
        ensures
            final(self).wf(),
            r == (if pipe_index >= MAX_PIPES {
                -1
            } else {
                pipe_write_result(old(self).pipes@[pipe_index as int], len as int)
            }),
            r <= 0 ==> final(self).unchanged(old(self)),
            r > 0 ==> {
                let p = old(self).pipes@[pipe_index as int];
                let q = final(self).pipes@[pipe_index as int];
                &&& final(self).pipes@ == old(self).pipes@.update(pipe_index as int, q)
                &&& q == (PipeEntry { len: (p.len + r) as usize, data: q.data, ..p })
                &&& q.data@ == put_bytes(
                    p.data@,
                    p.len as int,
                    mem@.subrange(ptr - USER_BASE, ptr - USER_BASE + r),
                )
                &&& final(self).tasks@ == old(self).tasks@
                &&& final(self).files@ == old(self).files@
                &&& final(self).same_config(old(self))
                &&& final(self).same_tables(old(self))
            },
    {
        if pipe_index >= MAX_PIPES || self.pipes[pipe_index].used == 0 {
            return -1;
        }
        if self.pipes[pipe_index].read_open == 0 {
            return -1;
        }
        assert(pipe_ok(self.pipes@[pipe_index as int]));
        let mut p = self.pipes[pipe_index];
        let available = PIPE_DATA_SIZE.saturating_sub(p.len);
        if available == 0 {
            return -2;
        }
        if len == 0 {
            return 0;
        }
        let write_len = if len < available { len } else { available };
        let start = p.len;
        let base = ptr - USER_BASE;
        let ghost old_data = p.data@;
        let ghost p0 = p;
        let mut offset: usize = 0;
        while offset < write_len
            invariant
                p == (PipeEntry { data: p.data, ..p0 }),
                offset <= write_len,
                start + write_len <= PIPE_DATA_SIZE,
                write_len <= len,
                write_len > 0,
                in_mem(mem.len() as int, ptr as int, len as int),
                base == ptr - USER_BASE,
                p.data@.len() == PIPE_DATA_SIZE,
                forall|k: int|
                    0 <= k < PIPE_DATA_SIZE ==> #[trigger] p.data@[k] == (if start <= k < start + offset {
                        mem@[base + k - start]
                    } else {
                        old_data[k]
                    }),
            decreases write_len - offset,
        {
            p.data[start + offset] = mem[base + offset];
            offset = offset + 1;
        }
        p.len = start + write_len;
        assert(p.data@ =~= put_bytes(old_data, start as int, mem@.subrange(base as int, base + write_len)));
        self.pipes.set(pipe_index, p);
        proof {
            assert forall|q: int| 0 <= q < MAX_PIPES implies #[trigger] pipe_ok(self.pipes@[q]) by {
                if q != pipe_index {
                    assert(pipe_ok(old(self).pipes@[q]));
                }
            }
        }
        write_len as isize
    }

    /// Reads up to `len` bytes from pipe `pipe_index` to user address
    /// `ptr`; returns how many, 0 at the end of a pipe with no writer left,
    /// -2 when it is empty but may get more, -1 for a pipe not in use.
    pub fn sys_pipe_read(&mut self, mem: &mut Vec<u8>, pipe_index: usize, ptr: usize, len: usize) -> (r: isize)
        requires
            old(self).wf(),
            in_mem(old(mem).len() as int, ptr as int, len as int),
        ensures
            final(self).wf(),
            final(mem)@.len() == old(mem)@.len(),
            r == (if pipe_index >= MAX_PIPES {
                -1
            } else {
                pipe_read_result(old(self).pipes@[pipe_index as int], len as int)
            }),
            r <= 0 ==> final(self).unchanged(old(self)) && final(mem)@ == old(mem)@,
            r > 0 ==> {
                let p = old(self).pipes@[pipe_index as int];
                &&& final(self).pipes@ == old(self).pipes@.update(
                    pipe_index as int,
                    pipe_after_read(p, r as int),
                )
                &&& final(mem)@ == put_bytes(
                    old(mem)@,
                    ptr - USER_BASE,
                    p.data@.subrange(p.read_offset as int, p.read_offset + r),
                )
                &&& final(self).tasks@ == old(self).tasks@
                &&& final(self).files@ == old(self).files@
                &&& final(self).same_config(old(self))
                &&& final(self).same_tables(old(self))
            },
    {
        if pipe_index >= MAX_PIPES || self.pipes[pipe_index].used == 0 {
            return -1;
        }
        assert(pipe_ok(self.pipes@[pipe_index as int]));
        let mut p = self.pipes[pipe_index];
        let available = p.len.saturating_sub(p.read_offset);
        if available == 0 {
            if p.write_open == 0 {
                return 0;
            }
            return -2;
        }
        if len == 0 {
            return 0;
        }
        let read_len = if len < available { len } else { available };
        let start = p.read_offset;
        let base = ptr - USER_BASE;
        let mut offset: usize = 0;
        while offset < read_len
            invariant
                offset <= read_len,
                read_len <= len,
                read_len > 0,
                start + read_len <= p.len <= PIPE_DATA_SIZE,
                p.data@.len() == PIPE_DATA_SIZE,
                in_mem(old(mem).len() as int, ptr as int, len as int),
                base == ptr - USER_BASE,
                mem@.len() == old(mem)@.len(),
                forall|k: int|
                    0 <= k < mem@.len() ==> #[trigger] mem@[k] == (if base <= k < base + offset {
                        p.data@[start + k - base]
                    } else {
                        old(mem)@[k]
                    }),
            decreases read_len - offset,
        {
            mem.set(base + offset, p.data[start + offset]);
            offset = offset + 1;
        }
        assert(mem@ =~= put_bytes(old(mem)@, base as int, p.data@.subrange(start as int, start + read_len)));
        p.read_offset = start + read_len;
        if p.read_offset == p.len {
            p.read_offset = 0;
            p.len = 0;
        }
        self.pipes.set(pipe_index, p);
        proof {
            assert forall|q: int| 0 <= q < MAX_PIPES implies #[trigger] pipe_ok(self.pipes@[q]) by {
                if q != pipe_index {
                    assert(pipe_ok(old(self).pipes@[q]));
                }
            }
        }
        read_len as isize
    }

    /// Whether `self` and `mem` are `old` and `old_mem` after a `pipe` with the
    /// descriptors' place at `pipe_fd_ptr`, which returned `r`.
    pub open spec fn pipe_outcome(&self, old: &Kernel, old_mem: Seq<u8>, mem: Seq<u8>, pipe_fd_ptr: usize, r: isize) -> bool {
        &&& ({
                    let t = old.cur();
                    let cur = old.current as int;
                    let pf = first_index(old.pipe_free_at(), 0, MAX_PIPES as int);
                    let rf = first_index(fd_free_in(t), 3, MAX_FD as int);
                    let wf = match rf {
                        Some(a) => first_index(fd_free_but(t, a), 3, MAX_FD as int),
                        None => None,
                    };
                    if !user_range_ok(t, pipe_fd_ptr as int, 16) || pf is None {
                        &&& r == -1
                        &&& self.unchanged(old)
                        &&& mem == old_mem
                    } else if rf is None || wf is None {
                        &&& r == -1
                        &&& self.pipes@ == old.pipes@.update(pf->0, empty_pipe())
                        &&& self.tasks@ == (if rf is None {
                            old.tasks@
                        } else {
                            old.tasks@.update(cur, with_fd(with_fd(t, rf->0, read_end(pf->0)), rf->0, empty_fd()))
                        })
                        &&& self.files@ == old.files@
                        &&& self.same_config(old)
                        &&& self.same_tables(old)
                        &&& mem == old_mem
                    } else {
                        &&& r == 0
                        &&& self.pipes@ == old.pipes@.update(pf->0, fresh_pipe())
                        &&& self.tasks@ == old.tasks@.update(
                            cur,
                            with_fd(with_fd(t, rf->0, read_end(pf->0)), wf->0, write_end(pf->0)),
                        )
                        &&& self.files@ == old.files@
                        &&& self.same_config(old)
                        &&& self.same_tables(old)
                        &&& mem == put_bytes(
                            put_bytes(old_mem, pipe_fd_ptr - USER_BASE, word_bytes(rf->0 as u64)),
                            pipe_fd_ptr - USER_BASE + 8,
                            word_bytes(wf->0 as u64),
                        )
                    }
                })
    }

    /// Makes a pipe and gives the running task its read end and its write
    /// end, the lowest free descriptors, whose numbers it writes at user
    /// address `pipe_fd_ptr`; -1 when the two words are not the task's, or
    /// no pipe or descriptor is free.
    pub fn sys_pipe(&mut self, mem: &mut Vec<u8>, pipe_fd_ptr: usize) -> (r: isize)
        requires
            old(self).wf(),
            old(self).runnable(),
            old(mem)@.len() == old(self).slot_size,
        ensures
            final(self).wf(),
            final(self).runnable(),
            final(self).current == old(self).current,
            final(mem)@.len() == old(mem)@.len(),
            final(self).pipe_outcome(old(self), old(mem)@, final(mem)@, pipe_fd_ptr, r),
    {
        let ghost t = self.cur();
        let ghost cur = self.current as int;
        if !self.valid_user_range(pipe_fd_ptr, 16) {
            return -1;
        }
        proof {
            lemma_user_range_in_slot(t, self.slot_size, pipe_fd_ptr as int, 16);
            lemma_first_index_props(self.pipe_free_at(), 0, MAX_PIPES as int);
            lemma_first_index_props(fd_free_in(t), 3, MAX_FD as int);
        }
        let pipe_index = match self.alloc_pipe() {
            Some(p) => p,
            None => {
                return -1;
            },
        };
        proof {
            lemma_first_index_congruent(self.fd_free_at(), fd_free_in(t), 3, MAX_FD as int);
        }
        let read_fd = match self.alloc_fd() {
            Some(fd) => fd,
            None => {
                self.pipes.set(pipe_index, PipeEntry::empty());
                proof {
                    assert forall|q: int| 0 <= q < MAX_PIPES implies #[trigger] pipe_ok(self.pipes@[q]) by {
                        if q != pipe_index {
                            assert(pipe_ok(old(self).pipes@[q]));
                        }
                    }
                    assert(self.pipes@ =~= old(self).pipes@.update(pipe_index as int, empty_pipe()));
                }
                return -1;
            },
        };
        proof {
            lemma_first_index_props(fd_free_in(t), 3, MAX_FD as int);
        }
        let current = self.current;
        let mut task = self.tasks[current];
        set_fd(&mut task, read_fd, FdEntry { kind: FD_PIPE_READ, file_index: pipe_index, offset: 0, readable: 1, writable: 0 });
        let ghost prev = *self;
        self.tasks.set(current, task);
        proof {
            self.lemma_task_update_wf(&prev, current as int);
            lemma_first_index_congruent(self.fd_free_at(), fd_free_but(t, read_fd as int), 3, MAX_FD as int);
            lemma_first_index_props(fd_free_but(t, read_fd as int), 3, MAX_FD as int);
        }
        let write_fd = match self.alloc_fd() {
            Some(fd) => fd,
            None => {
                let mut task = self.tasks[current];
                set_fd(&mut task, read_fd, FdEntry::empty());
                let ghost prev = *self;
                self.tasks.set(current, task);
                proof {
                    self.lemma_task_update_wf(&prev, current as int);
                    assert(self.tasks@ =~= old(self).tasks@.update(
                        current as int,
                        with_fd(with_fd(t, read_fd as int, read_end(pipe_index as int)), read_fd as int, empty_fd()),
                    ));
                }
                self.pipes.set(pipe_index, PipeEntry::empty());
                proof {
                    assert forall|q: int| 0 <= q < MAX_PIPES implies #[trigger] pipe_ok(self.pipes@[q]) by {
                        if q != pipe_index {
                            assert(pipe_ok(old(self).pipes@[q]));
                        }
                    }
                    assert(self.pipes@ =~= old(self).pipes@.update(pipe_index as int, empty_pipe()));
                }
                return -1;
            },
        };
        let mut task = self.tasks[current];
        set_fd(&mut task, write_fd, FdEntry { kind: FD_PIPE_WRITE, file_index: pipe_index, offset: 0, readable: 0, writable: 1 });
        let ghost prev = *self;
        self.tasks.set(current, task);
        proof {
            self.lemma_task_update_wf(&prev, current as int);
        }
        assert(self.tasks@ =~= old(self).tasks@.update(
            current as int,
            with_fd(with_fd(t, read_fd as int, read_end(pipe_index as int)), write_fd as int, write_end(pipe_index as int)),
        ));
        let at = pipe_fd_ptr - USER_BASE;
        write_word(mem, at, read_fd as u64);
        write_word(mem, at + 8, write_fd as u64);
        0
    }
}

} // verus!
