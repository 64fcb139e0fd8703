//! In-memory files, and the descriptor system calls: open, close, read
//! and write.

use vstd::prelude::*;

use super::kernel::{
    file_ok, first_index, in_slot, lemma_first_index_congruent, lemma_first_index_props,
    lemma_first_index_skip, lemma_user_range_in_slot, user_range_ok, Effect, Kernel,
};
use super::memory::put_bytes;
use super::pipes::{fd_free_in, in_mem, min, pipe_read_result, pipe_write_result};
use super::task::{empty_fd, set_fd, with_fd, FdEntry, FileEntry, PipeEntry, Task};
use super::{
    FD_FILE, FD_PIPE_READ, FD_PIPE_WRITE, FD_UNUSED, FILE_DATA_SIZE, FILE_NAME_SIZE, MAX_FD,
    MAX_FILES, MAX_PIPES, OPEN_CREATE, OPEN_RDWR, OPEN_TRUNC, OPEN_WRONLY, USER_BASE,
};

verus! {

/// Whether file `f` is in use and named `name` (of `n` bytes).
pub open spec fn file_named(f: FileEntry, name: Seq<u8>, n: int) -> bool {
    &&& f.used != 0
    &&& f.name_len == n
    &&& f.name@.subrange(0, n) == name.subrange(0, n)
}

/// Whether file `i` of `files` is named `name`.
pub open spec fn named_at(files: Seq<FileEntry>, name: Seq<u8>, n: int) -> spec_fn(int) -> bool {
    |i: int| file_named(files[i], name, n)
}

/// Whether file slot `i` is unused.
pub open spec fn file_free_at(files: Seq<FileEntry>) -> spec_fn(int) -> bool {
    |i: int| files[i].used == 0
}

/// Whether `flags` ask for writing.
pub open spec fn wants_write(flags: usize) -> bool {
    flags & (OPEN_WRONLY | OPEN_RDWR) != 0
}

/// Whether `flags` allow reading.
pub open spec fn wants_read(flags: usize) -> bool {
    flags & OPEN_WRONLY == 0 || flags & OPEN_RDWR != 0
}

/// Which file an open of `name` with `flags` uses: the one of that name,
/// else, when `flags` ask to create, the lowest unused slot.
pub open spec fn open_index(files: Seq<FileEntry>, name: Seq<u8>, n: int, flags: usize) -> Option<int> {
    match first_index(named_at(files, name, n), 0, MAX_FILES as int) {
        Some(i) => Some(i),
        None => if flags & OPEN_CREATE == 0 {
            None
        } else {
            first_index(file_free_at(files), 0, MAX_FILES as int)
        },
    }
}

/// Whether `g` is the file made in a free slot `f` for `name`: in use,
/// empty, named `name`, its old data kept.
pub open spec fn created_file(g: FileEntry, f: FileEntry, name: Seq<u8>, n: int) -> bool {
    &&& g == (FileEntry { used: 1, len: 0, name_len: n as usize, name: g.name, data: f.data })
    &&& forall|k: int| 0 <= k < FILE_NAME_SIZE ==> #[trigger] g.name@[k] == (if k < n { name[k] } else { 0 })
}

/// Whether `files2` is `files` after an open of `name` with `flags`: an
/// existing file is emptied when `flags` ask to truncate and to write; a
/// file is made when there is none of that name and `flags` ask to create.
pub open spec fn files_after_open(
    files: Seq<FileEntry>,
    files2: Seq<FileEntry>,
    name: Seq<u8>,
    n: int,
    flags: usize,
) -> bool {
    match first_index(named_at(files, name, n), 0, MAX_FILES as int) {
        Some(i) => if flags & OPEN_TRUNC != 0 && wants_write(flags) {
            files2 == files.update(i, FileEntry { len: 0, ..files[i] })
        } else {
            files2 == files
        },
        None => match open_index(files, name, n, flags) {
            Some(i) => files2 == files.update(i, files2[i]) && created_file(files2[i], files[i], name, n),
            None => files2 == files,
        },
    }
}

/// Where the scan of the name at user address `ptr` stops: the first of
/// the 32 bytes that is not the task's or is zero.
pub open spec fn cstr_stop(t: Task, mem: Seq<u8>, ptr: int) -> Option<int> {
    first_index(|i: int| !user_range_ok(t, ptr + i, 1) || mem[ptr + i - USER_BASE] == 0, 0, FILE_NAME_SIZE as int)
}

/// The length of the name at user address `ptr`: `None` for a null
/// pointer, a byte that is not the task's, or no zero in 32 bytes.
pub open spec fn cstr_len(t: Task, mem: Seq<u8>, ptr: int) -> Option<int> {
    if ptr == 0 {
        None
    } else {
        match cstr_stop(t, mem, ptr) {
            Some(i) => if user_range_ok(t, ptr + i, 1) { Some(i) } else { None },
            None => None,
        }
    }
}

/// How many bytes of the name at user address `ptr` are copied.
pub open spec fn cstr_copied(t: Task, mem: Seq<u8>, ptr: int) -> int {
    if ptr == 0 {
        0
    } else {
        match cstr_stop(t, mem, ptr) {
            Some(i) => i,
            None => FILE_NAME_SIZE as int,
        }
    }
}

/// The name buffer after `n` bytes of the name at user address `ptr`
/// were copied into a zeroed one.
pub open spec fn name_from(mem: Seq<u8>, ptr: int, n: int) -> Seq<u8> {
    Seq::new(FILE_NAME_SIZE as nat, |k: int| if k < n { mem[ptr - USER_BASE + k] } else { 0u8 })
}

/// The descriptor an open with `flags` makes for file `file`.
pub open spec fn file_fd(file: int, flags: usize) -> FdEntry {
    FdEntry {
        kind: FD_FILE,
        file_index: file as usize,
        offset: 0,
        readable: if wants_read(flags) { 1 } else { 0 },
        writable: if wants_write(flags) { 1 } else { 0 },
    }
}

/// How many bytes a read of `len` bytes at offset `off` takes from `f`.
pub open spec fn file_read_len(f: FileEntry, off: int, len: int) -> int {
    if off < f.len { min(len, f.len - off) } else { 0 }
}

/// How many bytes a write of `len` bytes at offset `off` puts into a file.
pub open spec fn file_write_len(off: int, len: int) -> int {
    if off < FILE_DATA_SIZE { min(len, FILE_DATA_SIZE - off) } else { 0 }
}

/// The `n` bytes at user address `ptr`.
pub open spec fn user_bytes(mem: Seq<u8>, ptr: int, n: int) -> Seq<u8> {
    if n <= 0 {
        Seq::empty()
    } else {
        mem.subrange(ptr - USER_BASE, ptr - USER_BASE + n)
    }
}

/// The `n` bytes at user address `ptr`, as console output.
pub open spec fn put_chars(mem: Seq<u8>, ptr: int, n: int) -> Seq<Effect> {
    user_bytes(mem, ptr, n).map_values(|b: u8| Effect::PutChar(b))
}

impl Kernel {
    /// The lowest file named `name` (its first `name_len` bytes).
    pub fn find_file(&self, name: &[u8; 32], name_len: usize) -> (r: Option<usize>)
        requires
            self.wf(),
        ensures
            r == (match first_index(named_at(self.files@, name@, name_len as int), 0, MAX_FILES as int) {
                Some(i) => Some(i as usize),
                None => None,
            }),
            r matches Some(i) ==> i < MAX_FILES,
    {
        let ghost p = named_at(self.files@, name@, name_len as int);
        let mut index: usize = 0;
        while index < MAX_FILES
            invariant
                self.wf(),
                index <= MAX_FILES,
                p == named_at(self.files@, name@, name_len as int),
                forall|k: int| 0 <= k < index ==> !#[trigger] p(k),
            decreases MAX_FILES - index,
        {
            let used = self.files[index].used != 0;
            let stored_len = self.files[index].name_len;
            if used && stored_len == name_len {
                assert(file_ok(self.files@[index as int]));
                let mut equal = true;
                let mut offset: usize = 0;
                while equal && offset < name_len
                    invariant
                        self.wf(),
                        index < MAX_FILES,
                        name_len == self.files@[index as int].name_len,
                        name_len <= FILE_NAME_SIZE,
                        offset <= name_len,
                        equal ==> forall|k: int| 0 <= k < offset ==> self.files@[index as int].name@[k] == name@[k],
                        !equal ==> offset < name_len && self.files@[index as int].name@[offset as int] != name@[offset as int],
                    decreases name_len - offset, (if equal { 1int } else { 0int }),
                {
                    if self.files[index].name[offset] != name[offset] {
                        equal = false;
                    } else {
                        offset = offset + 1;
                    }
                }
                if equal {
                    assert(self.files@[index as int].name@.subrange(0, name_len as int) =~= name@.subrange(0, name_len as int));
                    proof {
                        lemma_first_index_skip(p, 0, index as int, MAX_FILES as int);
                    }
                    return Some(index);
                }
                assert(self.files@[index as int].name@.subrange(0, name_len as int)[offset as int] != name@.subrange(0, name_len as int)[offset as int]);
            }
            index = index + 1;
        }
        proof {
            lemma_first_index_skip(p, 0, index as int, MAX_FILES as int);
        }
        None
    }

    /// Opens the file named `name` (its first `name_len` bytes), making it
    /// when `flags` ask to create and there is none; empties it when
    /// `flags` ask to truncate and to write.  `None` when there is no such
    /// file and none is made.
    pub fn open_or_create_file(&mut self, name: &[u8; 32], name_len: usize, flags: usize) -> (r: Option<usize>)
        requires
            old(self).wf(),
            name_len <= FILE_NAME_SIZE,
        ensures
            final(self).wf(),
            r == (match open_index(old(self).files@, name@, name_len as int, flags) {
                Some(i) => Some(i as usize),
                None => None,
            }),
            r matches Some(i) ==> i < MAX_FILES,
            files_after_open(old(self).files@, final(self).files@, name@, name_len as int, flags),
            final(self).tasks@ == old(self).tasks@,
            final(self).pipes@ == old(self).pipes@,
            final(self).same_config(old(self)),
            final(self).same_tables(old(self)),
    {
        proof {
            lemma_first_index_props(named_at(self.files@, name@, name_len as int), 0, MAX_FILES as int);
            lemma_first_index_props(file_free_at(self.files@), 0, MAX_FILES as int);
        }
        if let Some(index) = self.find_file(name, name_len) {
            if flags & OPEN_TRUNC != 0 && flags & (OPEN_WRONLY | OPEN_RDWR) != 0 {
                let mut f = self.files[index];
                f.len = 0;
                self.files.set(index, f);
                proof {
                    assert forall|q: int| 0 <= q < MAX_FILES implies #[trigger] file_ok(self.files@[q]) by {
                        assert(file_ok(old(self).files@[q]));
                    }
                }
            }
            return Some(index);
        }
        if flags & OPEN_CREATE == 0 {
            return None;
        }
        let mut index: usize = 0;
        while index < MAX_FILES
            invariant
                self.wf(),
                old(self).wf(),
                self.unchanged(old(self)),
                first_index(named_at(old(self).files@, name@, name_len as int), 0, MAX_FILES as int) is None,
                flags & OPEN_CREATE != 0,
                name_len <= FILE_NAME_SIZE,
                index <= MAX_FILES,
                forall|k: int| 0 <= k < index ==> !#[trigger] file_free_at(self.files@)(k),
            decreases MAX_FILES - index,
        {
            if self.files[index].used == 0 {
                proof {
                    lemma_first_index_skip(file_free_at(self.files@), 0, index as int, MAX_FILES as int);
                }
                let mut f = self.files[index];
                f.used = 1;
                f.len = 0;
                f.name_len = name_len;
                f.name = [0u8; 32];
                let ghost f0 = f;
                let mut offset: usize = 0;
                while offset < name_len
                    invariant
                        f == (FileEntry { name: f.name, ..f0 }),
                        name_len <= FILE_NAME_SIZE,
                        offset <= name_len,
                        f.name@.len() == FILE_NAME_SIZE,
                        forall|k: int| 0 <= k < FILE_NAME_SIZE ==> #[trigger] f.name@[k] == (if k < offset { name@[k] } else { 0 }),
                    decreases name_len - offset,
                {
                    f.name[offset] = name[offset];
                    offset = offset + 1;
                }
                self.files.set(index, f);
                proof {
                    assert forall|q: int| 0 <= q < MAX_FILES implies #[trigger] file_ok(self.files@[q]) by {
                        assert(file_ok(old(self).files@[q]));
                    }
                }
                return Some(index);
            }
            index = index + 1;
        }
        proof {
            lemma_first_index_skip(file_free_at(self.files@), 0, index as int, MAX_FILES as int);
        }
        None
    }

    /// Copies the zero-terminated name at user address `ptr`, at most 31
    /// bytes, into `out`; its length, or `None` for a null pointer, a byte
    /// outside the running task's regions, or no zero in 32 bytes.
    pub fn read_user_cstr(&self, mem: &Vec<u8>, ptr: usize, out: &mut [u8; 32]) -> (r: Option<usize>)
        requires
            self.wf(),
            in_slot(self.cur(), self.slot_size),
            mem@.len() == self.slot_size,
        ensures
            r == (match cstr_len(self.cur(), mem@, ptr as int) {
                Some(i) => Some(i as usize),
                None => None,
            }),
            r matches Some(n) ==> n < FILE_NAME_SIZE,
            cstr_len(self.cur(), mem@, ptr as int) matches Some(i) ==> 0 <= i < FILE_NAME_SIZE,
            forall|k: int|
                0 <= k < FILE_NAME_SIZE ==> #[trigger] final(out)@[k] == (if k < cstr_copied(self.cur(), mem@, ptr as int) {
                    mem@[ptr - USER_BASE + k]
                } else {
                    old(out)@[k]
                }),
    {
        let ghost t = self.cur();
        let ghost p = |i: int| !user_range_ok(t, ptr + i, 1) || mem@[ptr + i - USER_BASE] == 0;
        proof {
            lemma_first_index_props(p, 0, FILE_NAME_SIZE as int);
        }
        if ptr == 0 {
            return None;
        }
        let mut index: usize = 0;
        while index < FILE_NAME_SIZE
            invariant
                self.wf(),
                in_slot(self.cur(), self.slot_size),
                mem@.len() == self.slot_size,
                t == self.cur(),
                ptr != 0,
                index <= FILE_NAME_SIZE,
                p == (|i: int| !user_range_ok(t, ptr + i, 1) || mem@[ptr + i - USER_BASE] == 0),
                forall|k: int| 0 <= k < index ==> !#[trigger] p(k),
                forall|k: int|
                    0 <= k < FILE_NAME_SIZE ==> #[trigger] out@[k] == (if k < index {
                        mem@[ptr - USER_BASE + k]
                    } else {
                        old(out)@[k]
                    }),
            decreases FILE_NAME_SIZE - index,
        {
            let addr = match ptr.checked_add(index) {
                Some(a) => a,
                None => {
                    proof {
                        lemma_first_index_skip(p, 0, index as int, FILE_NAME_SIZE as int);
                    }
                    return None;
                },
            };
            if !self.valid_user_range(addr, 1) {
                proof {
                    lemma_first_index_skip(p, 0, index as int, FILE_NAME_SIZE as int);
                }
                return None;
            }
            proof {
                lemma_user_range_in_slot(t, self.slot_size, addr as int, 1);
            }
            let byte = mem[addr - USER_BASE];
            if byte == 0 {
                proof {
                    lemma_first_index_skip(p, 0, index as int, FILE_NAME_SIZE as int);
                }
                return Some(index);
            }
            out[index] = byte;
            index = index + 1;
        }
        proof {
            lemma_first_index_skip(p, 0, index as int, FILE_NAME_SIZE as int);
        }
        None
    }

    /// Whether `self` is `old` after an open of the file named `name` (of
    /// `n` bytes) with `flags` that returned `r`: the file is opened or
    /// made, and the running task's lowest free descriptor refers to it.
    pub open spec fn opened(&self, old: &Kernel, name: Seq<u8>, n: int, flags: usize, r: isize) -> bool {
        let t = old.cur();
        &&& files_after_open(old.files@, self.files@, name, n, flags)
        &&& self.pipes@ == old.pipes@
        &&& self.same_config(old)
        &&& self.same_tables(old)
        &&& match open_index(old.files@, name, n, flags) {
            None => r == -1 && self.tasks@ == old.tasks@,
            Some(fi) => match first_index(fd_free_in(t), 3, MAX_FD as int) {
                None => r == -1 && self.tasks@ == old.tasks@,
                Some(fd) => r == fd && self.tasks@ == old.tasks@.update(
                    old.current as int,
                    with_fd(t, fd, file_fd(fi, flags)),
                ),
            },
        }
    }

    /// Whether `self` is `old` after an open of the name at `path_ptr` with
    /// `flags`, which returned `r`.
    pub open spec fn open_outcome(&self, old: &Kernel, mem: Seq<u8>, path_ptr: usize, flags: usize, r: isize) -> bool {
        &&& cstr_len(old.cur(), mem, path_ptr as int) matches Some(n) ==> (n > 0 ==> self.opened(
                    old,
                    name_from(mem, path_ptr as int, n),
                    n,
                    flags,
                    r,
                ))
        &&& cstr_len(old.cur(), mem, path_ptr as int) matches Some(n) ==> (n == 0 ==> r == -1
                    && self.unchanged(old))
        &&& cstr_len(old.cur(), mem, path_ptr as int) is None ==> r == -1 && self.unchanged(
                    old,
                )
    }

    /// Opens the file named by the string at user address `path_ptr` for
    /// the running task, under the lowest free descriptor; -1 when the
    /// name cannot be read or is empty, no file is opened, or no
    /// descriptor is free.
    pub fn sys_open(&mut self, mem: &Vec<u8>, path_ptr: usize, flags: usize) -> (r: isize)
        requires
            old(self).wf(),
            old(self).runnable(),
            mem@.len() == old(self).slot_size,
        ensures
            final(self).wf(),
            final(self).runnable(),
            final(self).current == old(self).current,
            final(self).open_outcome(old(self), mem@, path_ptr, flags, r),
    {
        let ghost t = self.cur();
        let mut name = [0u8; 32];
        let ghost zeros = name@;
        proof {
            broadcast use vstd::array::group_array_axioms;

            assert(forall|k: int| 0 <= k < 32 ==> zeros[k] == 0u8);
        }
        let name_len = match self.read_user_cstr(mem, path_ptr, &mut name) {
            Some(n) => n,
            None => {
                assert(cstr_len(t, mem@, path_ptr as int) is None);
                return -1;
            },
        };
        if name_len == 0 {
            return -1;
        }
        assert(cstr_copied(t, mem@, path_ptr as int) == name_len);
        assert forall|k: int| 0 <= k < 32 implies #[trigger] name@[k] == name_from(mem@, path_ptr as int, name_len as int)[k] by {
        }
        assert(name@ =~= name_from(mem@, path_ptr as int, name_len as int));
        let file_index = match self.open_or_create_file(&name, name_len, flags) {
            Some(i) => i,
            None => {
                return -1;
            },
        };
        proof {
            lemma_first_index_congruent(self.fd_free_at(), fd_free_in(t), 3, MAX_FD as int);
            lemma_first_index_props(fd_free_in(t), 3, MAX_FD as int);
        }
        let fd = match self.alloc_fd() {
            Some(fd) => fd,
            None => {
                return -1;
            },
        };
        let writable: usize = if flags & (OPEN_WRONLY | OPEN_RDWR) != 0 {
            1
        } else {
            0
        };
        let readable: usize = if flags & OPEN_WRONLY == 0 || flags & OPEN_RDWR != 0 {
            1
        } else {
            0
        };
        let current = self.current;
        let mut task = self.tasks[current];
        set_fd(&mut task, fd, FdEntry { kind: FD_FILE, file_index, offset: 0, readable, writable });
        let ghost prev = *self;
        self.tasks.set(current, task);
        proof {
            self.lemma_task_update_wf(&prev, current as int);
        }
        fd as isize
    }

    /// Whether `self` is `old` after closing descriptor `fd`, which returned `r`.
    pub open spec fn close_outcome(&self, old: &Kernel, fd: usize, r: isize) -> bool {
        &&& ({
                    let t = old.cur();
                    if fd >= MAX_FD || t.fds@[fd as int].kind == FD_UNUSED {
                        r == -1 && self.unchanged(old)
                    } else {
                        let e = t.fds@[fd as int];
                        &&& r == 0
                        &&& self.tasks@ == old.tasks@.update(
                            old.current as int,
                            with_fd(t, fd as int, empty_fd()),
                        )
                        &&& self.pipes@ == (if e.kind == FD_PIPE_READ || e.kind == FD_PIPE_WRITE {
                            super::pipes::pipes_after_close(old.pipes@, e)
                        } else {
                            old.pipes@
                        })
                        &&& self.files@ == old.files@
                        &&& self.same_config(old)
                        &&& self.same_tables(old)
                    }
                })
    }

    /// Closes descriptor `fd` of the running task; -1 when it is not open.
    pub fn sys_close(&mut self, fd: usize) -> (r: isize)
        requires
            old(self).wf(),
            old(self).runnable(),
        ensures
            final(self).wf(),
            final(self).runnable(),
            final(self).current == old(self).current,
            final(self).close_outcome(old(self), fd, r),
    {
        if fd >= MAX_FD {
            return -1;
        }
        let current = self.current;
        let entry = self.tasks[current].fds[fd];
        let kind = entry.kind;
        if kind == FD_UNUSED {
            return -1;
        }
        if kind == FD_PIPE_READ || kind == FD_PIPE_WRITE {
            self.close_pipe_fd(entry);
        }
        let mut task = self.tasks[current];
        set_fd(&mut task, fd, FdEntry::empty());
        let ghost prev = *self;
        proof {
            assert(prev.tasks@[current as int].status != super::TASK_UNUSED ==> in_slot(
                prev.tasks@[current as int],
                prev.slot_size,
            ) && prev.tasks@[current as int].phys_base <= super::kernel::PHYS_LIMIT);
        }
        self.tasks.set(current, task);
        proof {
            self.lemma_task_update_wf(&prev, current as int);
        }
        0
    }

    /// Whether `self` and `mem` are `old` and `old_mem` after a read of
    /// `len` bytes from descriptor `fd` to user address `ptr` that
    /// returned `r`.
    pub open spec fn read_outcome(
        &self,
        old: &Kernel,
        old_mem: Seq<u8>,
        mem: Seq<u8>,
        fd: usize,
        ptr: usize,
        len: usize,
        r: isize,
    ) -> bool {
        let t = old.cur();
        let e = t.fds@[fd as int];
        if !user_range_ok(t, ptr as int, len as int) || (fd != 0 && fd >= MAX_FD) {
            r == -1 && self.unchanged(old) && mem == old_mem
        } else if fd == 0 {
            r == 0 && self.unchanged(old) && mem == old_mem
        } else if e.kind == FD_PIPE_READ {
            if e.file_index >= MAX_PIPES {
                r == -1 && self.unchanged(old) && mem == old_mem
            } else {
                let p = old.pipes@[e.file_index as int];
                &&& r == pipe_read_result(p, len as int)
                &&& r <= 0 ==> self.unchanged(old) && mem == old_mem
                &&& r > 0 ==> {
                    &&& self.pipes@ == old.pipes@.update(
                        e.file_index as int,
                        super::pipes::pipe_after_read(p, r as int),
                    )
                    &&& mem == put_bytes(
                        old_mem,
                        ptr - USER_BASE,
                        p.data@.subrange(p.read_offset as int, p.read_offset + r),
                    )
                    &&& self.tasks@ == old.tasks@
                    &&& self.files@ == old.files@
                    &&& self.same_config(old)
                    &&& self.same_tables(old)
                }
            }
        } else if e.kind != FD_FILE || e.readable == 0 || e.file_index >= MAX_FILES {
            r == -1 && self.unchanged(old) && mem == old_mem
        } else {
            let f = old.files@[e.file_index as int];
            let n = file_read_len(f, e.offset as int, len as int);
            &&& r == n
            &&& mem == put_bytes(old_mem, ptr - USER_BASE, f.data@.subrange(e.offset as int, e.offset + n))
            &&& self.tasks@ == old.tasks@.update(
                old.current as int,
                with_fd(t, fd as int, FdEntry { offset: (e.offset + n) as usize, ..e }),
            )
            &&& self.files@ == old.files@
            &&& self.pipes@ == old.pipes@
            &&& self.same_config(old)
            &&& self.same_tables(old)
        }
    }

    /// Whether `self` and `fx` are `old` and `old_fx` after a write of
    /// `len` bytes at user address `ptr` to descriptor `fd` that returned
    /// `r`.
    pub open spec fn write_outcome(
        &self,
        old: &Kernel,
        mem: Seq<u8>,
        old_fx: Seq<Effect>,
        fx: Seq<Effect>,
        fd: usize,
        ptr: usize,
        len: usize,
        r: isize,
    ) -> bool {
        let t = old.cur();
        let e = t.fds@[fd as int];
        if !user_range_ok(t, ptr as int, len as int) {
            r == -1 && self.unchanged(old) && fx == old_fx
        } else if fd == 1 || fd == 2 {
            r == len && self.unchanged(old) && fx == old_fx + put_chars(mem, ptr as int, len as int)
        } else if fd >= MAX_FD {
            r == -1 && self.unchanged(old) && fx == old_fx
        } else if e.kind == FD_PIPE_WRITE {
            &&& fx == old_fx
            &&& if e.file_index >= MAX_PIPES {
                r == -1 && self.unchanged(old)
            } else {
                let p = old.pipes@[e.file_index as int];
                let q = self.pipes@[e.file_index as int];
                &&& r == pipe_write_result(p, len as int)
                &&& r <= 0 ==> self.unchanged(old)
                &&& r > 0 ==> {
                    &&& self.pipes@ == old.pipes@.update(e.file_index as int, q)
                    &&& q == (PipeEntry { len: (p.len + r) as usize, data: q.data, ..p })
                    &&& q.data@ == put_bytes(p.data@, p.len as int, user_bytes(mem, ptr as int, r as int))
                    &&& self.tasks@ == old.tasks@
                    &&& self.files@ == old.files@
                    &&& self.same_config(old)
                    &&& self.same_tables(old)
                }
            }
        } else if e.kind != FD_FILE || e.writable == 0 || e.file_index >= MAX_FILES {
            r == -1 && self.unchanged(old) && fx == old_fx
        } else {
            let f = old.files@[e.file_index as int];
            let g = self.files@[e.file_index as int];
            let n = file_write_len(e.offset as int, len as int);
            &&& r == n
            &&& fx == old_fx
            &&& self.files@ == old.files@.update(e.file_index as int, g)
            &&& g == (FileEntry {
                len: if e.offset + n > f.len { (e.offset + n) as usize } else { f.len },
                data: g.data,
                ..f
            })
            &&& g.data@ == put_bytes(f.data@, e.offset as int, user_bytes(mem, ptr as int, n))
            &&& self.tasks@ == old.tasks@.update(
                old.current as int,
                with_fd(t, fd as int, FdEntry { offset: (e.offset + n) as usize, ..e }),
            )
            &&& self.pipes@ == old.pipes@
            &&& self.same_config(old)
            &&& self.same_tables(old)
        }
    }

    /// Reads up to `len` bytes from descriptor `fd` of the running task to
    /// user address `ptr`: from a pipe, or from a file at the descriptor's
    /// offset, which moves on; standard input gives nothing.  -1 when the
    /// buffer is not the task's or the descriptor cannot be read.
    pub fn sys_read(&mut self, mem: &mut Vec<u8>, fd: usize, ptr: usize, len: usize) -> (r: isize)
        requires
            old(self).wf(),
            old(self).runnable(),
            old(mem)@.len() == old(self).slot_size,
        ensures
            final(self).wf(),
            final(self).runnable(),
            final(self).current == old(self).current,
            final(mem)@.len() == old(mem)@.len(),
            final(self).read_outcome(old(self), old(mem)@, final(mem)@, fd, ptr, len, r),
    {
        let ghost t = self.cur();
        if !self.valid_user_range(ptr, len) {
            return -1;
        }
        if fd == 0 {
            return 0;
        }
        if fd >= MAX_FD {
            return -1;
        }
        let current = self.current;
        let entry = self.tasks[current].fds[fd];
        if len > 0 {
            proof {
                lemma_user_range_in_slot(t, self.slot_size, ptr as int, len as int);
            }
        }
        if entry.kind == FD_PIPE_READ {
            return self.sys_pipe_read(mem, entry.file_index, ptr, len);
        }
        if entry.kind != FD_FILE || entry.readable == 0 || entry.file_index >= MAX_FILES {
            return -1;
        }
        let file_index = entry.file_index;
        assert(file_ok(self.files@[file_index as int]));
        let flen = self.files[file_index].len;
        let base: usize = if len > 0 { ptr - USER_BASE } else { 0 };
        let ghost data = self.files@[file_index as int].data@;
        let mut offset = entry.offset;
        let mut read_len: usize = 0;
        while read_len < len && offset < flen
            invariant
                self.wf(),
                file_index < MAX_FILES,
                entry.offset < flen ==> offset <= flen,
                entry.offset >= flen ==> read_len == 0,
                data == self.files@[file_index as int].data@,
                data.len() == FILE_DATA_SIZE,
                flen == self.files@[file_index as int].len,
                flen <= FILE_DATA_SIZE,
                offset == entry.offset + read_len,
                read_len <= len,
                len > 0 ==> base + len <= mem.len(),
                mem@.len() == old(mem)@.len(),
                forall|k: int|
                    0 <= k < mem@.len() ==> #[trigger] mem@[k] == (if base <= k < base + read_len {
                        data[entry.offset + k - base]
                    } else {
                        old(mem)@[k]
                    }),
            decreases len - read_len,
        {
            mem.set(base + read_len, self.files[file_index].data[offset]);
            read_len = read_len + 1;
            offset = offset + 1;
        }
        proof {
            let n = file_read_len(self.files@[file_index as int], entry.offset as int, len as int);
            assert(read_len == n);
            assert(mem@ =~= put_bytes(old(mem)@, ptr - USER_BASE, data.subrange(entry.offset as int, entry.offset + n)));
        }
        let mut task = self.tasks[current];
        set_fd(&mut task, fd, FdEntry { offset, ..entry });
        let ghost prev = *self;
        proof {
            assert(self.tasks@[current as int].fds@[fd as int].offset <= FILE_DATA_SIZE);
        }
        self.tasks.set(current, task);
        proof {
            self.lemma_task_update_wf(&prev, current as int);
        }
        read_len as isize
    }

    /// Writes `len` bytes at user address `ptr` to descriptor `fd` of the
    /// running task: to the console for 1 and 2, to a pipe, or to a file
    /// at the descriptor's offset, which moves on, as far as the file's
    /// space goes.  -1 when the buffer is not the task's or the descriptor
    /// cannot be written.
    pub fn sys_write(&mut self, mem: &Vec<u8>, fx: &mut Vec<Effect>, fd: usize, ptr: usize, len: usize) -> (r: isize)
        requires
            old(self).wf(),
            old(self).runnable(),
            mem@.len() == old(self).slot_size,
        ensures
            final(self).wf(),
            final(self).runnable(),
            final(self).current == old(self).current,
            final(self).write_outcome(old(self), mem@, old(fx)@, final(fx)@, fd, ptr, len, r),
    {
        let ghost t = self.cur();
        if !self.valid_user_range(ptr, len) {
            return -1;
        }
        if len > 0 {
            proof {
                lemma_user_range_in_slot(t, self.slot_size, ptr as int, len as int);
            }
        }
        let base: usize = if len > 0 { ptr - USER_BASE } else { 0 };
        if fd == 1 || fd == 2 {
            let mut offset: usize = 0;
            while offset < len
                invariant
                    offset <= len,
                    len > 0 ==> base + len <= mem.len(),
                    len > 0 ==> base == ptr - USER_BASE,
                    fx@ == old(fx)@ + put_chars(mem@, ptr as int, offset as int),
                decreases len - offset,
            {
                fx.push(Effect::PutChar(mem[base + offset]));
                proof {
                    assert(put_chars(mem@, ptr as int, offset + 1) =~= put_chars(mem@, ptr as int, offset as int).push(Effect::PutChar(mem@[base + offset])));
                }
                offset = offset + 1;
            }
            return len as isize;
        }
        if fd >= MAX_FD {
            return -1;
        }
        let current = self.current;
        let entry = self.tasks[current].fds[fd];
        if entry.kind == FD_PIPE_WRITE {
            let r = self.sys_pipe_write(mem, entry.file_index, ptr, len);
            proof {
                if r > 0 {
                    assert(user_bytes(mem@, ptr as int, r as int) == mem@.subrange(ptr - USER_BASE, ptr - USER_BASE + r));
                }
            }
            return r;
        }
        if entry.kind != FD_FILE || entry.writable == 0 || entry.file_index >= MAX_FILES {
            return -1;
        }
        let file_index = entry.file_index;
        let mut f = self.files[file_index];
        let ghost f0 = f;
        assert(file_ok(f0));
        assert(entry.offset <= FILE_DATA_SIZE);
        let mut offset = entry.offset;
        let mut written: usize = 0;
        while written < len && offset < FILE_DATA_SIZE
            invariant
                f == (FileEntry { data: f.data, ..f0 }),
                f.data@.len() == FILE_DATA_SIZE,
                offset == entry.offset + written,
                entry.offset <= FILE_DATA_SIZE,
                offset <= FILE_DATA_SIZE,
                written <= len,
                len > 0 ==> base + len <= mem.len(),
                forall|k: int|
                    0 <= k < FILE_DATA_SIZE ==> #[trigger] f.data@[k] == (if entry.offset <= k < offset {
                        mem@[base + k - entry.offset]
                    } else {
                        f0.data@[k]
                    }),
            decreases len - written,
        {
            f.data[offset] = mem[base + written];
            written = written + 1;
            offset = offset + 1;
        }
        if offset > f.len {
            f.len = offset;
        }
        proof {
            let n = file_write_len(entry.offset as int, len as int);
            assert(written == n);
            assert(f.data@ =~= put_bytes(f0.data@, entry.offset as int, user_bytes(mem@, ptr as int, n)));
        }
        self.files.set(file_index, f);
        proof {
            assert forall|q: int| 0 <= q < MAX_FILES implies #[trigger] file_ok(self.files@[q]) by {
                assert(file_ok(old(self).files@[q]));
            }
        }
        let mut task = self.tasks[current];
        set_fd(&mut task, fd, FdEntry { offset, ..entry });
        let ghost prev = *self;
        self.tasks.set(current, task);
        proof {
            self.lemma_task_update_wf(&prev, current as int);
        }
        written as isize
    }
}

} // verus!
