//! Processes of the chapter-seven kernel: loading a program into a slot,
//! the heap break, fork, exec, wait, and choosing the task that runs.

use vstd::prelude::*;
use vstd::string::StringSliceAdditionalSpecFns;

use super::kernel::{
    first_index, in_slot, next_ready_in, lemma_first_index_props, lemma_first_index_skip,
    lemma_user_range_in_slot, user_range_ok, Effect, Kernel, PHYS_LIMIT,
};
use super::files::user_bytes;
use super::memory::{half_bytes, put_bytes, word_bytes, write_half, write_word};
use super::paging::{
    cleared_entry, region_entry, user_l0_entry, MEGA_PAGE, USER_CODE_FLAGS, USER_DATA_FLAGS,
};
use super::pipes::{pipes_after_clone_all, pipes_after_close_all};
use super::task::{empty_fd, empty_file, empty_pipe, empty_task, FdEntry, FileEntry, PipeEntry, Task};
use super::signals::signals_reset;
use super::{
    add_signed, add_signed_spec, align_up, page_ceil, page_floor, process_phys_base, user_sstatus,
    user_sstatus_spec, TrapContext, APP_LOAD_LIMIT, FD_STDIN, FD_STDOUT, FILE_DATA_SIZE, MAX_FD,
    MAX_TASKS, PAGE_SIZE, PROCESS_BASE, PROGRAM_STATIC_SIZE, TASK_EXITED, TASK_FAULTED,
    TASK_READY, TASK_RUNNING, TASK_UNUSED, USER_BASE, USER_STACK_SIZE, INITPROC_APP, MAX_FILES,
    MAX_PIPES,
};

verus! {

/// Whether `c` is the context a program starts with: stack pointer `sp`,
/// the other registers zero, the user `sstatus` made from `sstatus`, and
/// the entry at [`USER_BASE`].
pub open spec fn user_context_ok(c: TrapContext, sp: int, sstatus: usize) -> bool {
    &&& c.x@ == Seq::new(32, |i: int| if i == 2 { sp as usize } else { 0usize })
    &&& c.sstatus == user_sstatus_spec(sstatus)
    &&& c.sepc == USER_BASE
}

/// Where the program region of a loaded image ends.
pub open spec fn image_program_end() -> int {
    USER_BASE + PROGRAM_STATIC_SIZE
}

/// Whether `n` is task `t` (slot `index`) with a freshly loaded image: its
/// regions laid out in a slot of `slot` bytes, a start context, no exit
/// code, and a pid if it had none.
pub open spec fn imaged(n: Task, t: Task, index: int, slot: usize, sstatus: usize) -> bool {
    let stack_top = USER_BASE + slot;
    let stack_bottom = stack_top - USER_STACK_SIZE;
    &&& n == (Task {
        context: n.context,
        exit_code: 0,
        pid: if t.pid == 0 { (index + 1) as usize } else { t.pid },
        base: USER_BASE,
        phys_base: (PROCESS_BASE + index * slot) as usize,
        program_end: image_program_end() as usize,
        heap_base: image_program_end() as usize,
        brk: image_program_end() as usize,
        heap_limit: stack_bottom as usize,
        stack_bottom: stack_bottom as usize,
        stack_top: stack_top as usize,
        ..t
    })
    &&& user_context_ok(n.context, stack_top, sstatus)
}

/// Whether `c` is the child that task `p` forks into slot `child`, with
/// its memory at `phys`: a copy of `p` with pid `child + 1`, parent `p`,
/// ready, returning 0 from the call, with no signal pending or handled.
pub open spec fn forked(c: Task, p: Task, child: int, phys: int) -> bool {
    &&& c == (Task {
        context: c.context,
        status: TASK_READY,
        exit_code: 0,
        pid: (child + 1) as usize,
        parent_pid: p.pid,
        base: USER_BASE,
        phys_base: phys as usize,
        signal_pending: 0,
        handling_signal: 0,
        saved_signal_context: super::empty_context(),
        ..p
    })
    &&& c.context == (TrapContext {
        x: c.context.x,
        sepc: vstd::wrapping::usize_specs::wrapping_add(p.context.sepc, 4),
        ..p.context
    })
    &&& c.context.x@ == p.context.x@.update(10, 0)
}

/// Entry `j` of the level-0 table of a child of `p` whose memory is at
/// `phys`: the parent's program, stack and heap.
pub open spec fn forked_l0_entry(j: int, p: Task, phys: int) -> usize {
    let base = user_l0_entry(j, p.program_end as int, p.stack_bottom as int, p.stack_top as int, phys);
    if p.brk > p.heap_base {
        region_entry(j, p.heap_base as int, p.brk as int, phys + (p.heap_base - USER_BASE), USER_DATA_FLAGS, base)
    } else {
        base
    }
}

/// The number of applications linked into the kernel.
pub const APP_COUNT: usize = 29;

/// The name of application `i`, as `exec` finds it.
pub open spec fn app_name(i: int) -> &'static str {
    if i == 0 {
        "00hello_world"
    } else if i == 1 {
        "01store_fault"
    } else if i == 2 {
        "02power"
    } else if i == 3 {
        "03priv_inst"
    } else if i == 4 {
        "04priv_csr"
    } else if i == 5 {
        "05write_a"
    } else if i == 6 {
        "06write_b"
    } else if i == 7 {
        "07write_c"
    } else if i == 8 {
        "08power_3"
    } else if i == 9 {
        "09power_5"
    } else if i == 10 {
        "10power_7"
    } else if i == 11 {
        "12forktest"
    } else if i == 12 {
        "13forktree"
    } else if i == 13 {
        "14forktest2"
    } else if i == 14 {
        "15matrix"
    } else if i == 15 {
        "fork_exit"
    } else if i == 16 {
        "forktest_simple"
    } else if i == 17 {
        "sbrk"
    } else if i == 18 {
        "filetest_simple"
    } else if i == 19 {
        "cat_filea"
    } else if i == 20 {
        "sig_simple"
    } else if i == 21 {
        "sig_simple2"
    } else if i == 22 {
        "sig_ctrlc"
    } else if i == 23 {
        "sig_tests"
    } else if i == 24 {
        "pipetest"
    } else if i == 25 {
        "pipe_large_test"
    } else if i == 26 {
        "ch7b_usertest"
    } else if i == 27 {
        "user_shell"
    } else {
        "initproc"
    }
}

/// The name of application `i`.
pub fn app_name_of(i: usize) -> (r: &'static str)
    requires
        i < APP_COUNT,
    ensures
        r == app_name(i as int),
{
    match i {
        0 => "00hello_world",
        1 => "01store_fault",
        2 => "02power",
        3 => "03priv_inst",
        4 => "04priv_csr",
        5 => "05write_a",
        6 => "06write_b",
        7 => "07write_c",
        8 => "08power_3",
        9 => "09power_5",
        10 => "10power_7",
        11 => "12forktest",
        12 => "13forktree",
        13 => "14forktest2",
        14 => "15matrix",
        15 => "fork_exit",
        16 => "forktest_simple",
        17 => "sbrk",
        18 => "filetest_simple",
        19 => "cat_filea",
        20 => "sig_simple",
        21 => "sig_simple2",
        22 => "sig_ctrlc",
        23 => "sig_tests",
        24 => "pipetest",
        25 => "pipe_large_test",
        26 => "ch7b_usertest",
        27 => "user_shell",
        _ => "initproc",
    }
}

/// Whether application `i` is named by the `len` bytes at user address
/// `ptr`.
pub open spec fn app_named(mem: Seq<u8>, ptr: int, len: int) -> spec_fn(int) -> bool {
    |i: int| app_name(i).spec_bytes() == user_bytes(mem, ptr, len)
}

/// The application named by the `len` bytes at user address `ptr` of
/// task `t`: none for an empty name, one longer than 64 bytes, or one not
/// in the task's regions.
pub open spec fn app_by_path(t: Task, mem: Seq<u8>, ptr: int, len: int) -> Option<int> {
    if len == 0 || len > 64 || !user_range_ok(t, ptr, len) {
        None
    } else {
        first_index(app_named(mem, ptr, len), 0, APP_COUNT as int)
    }
}

/// Whether task `i` is a child of the task with pid `parent` that a wait
/// for `pid_arg` (`usize::MAX` for any) looks at.
pub open spec fn is_child(tasks: Seq<Task>, parent: usize, pid_arg: usize) -> spec_fn(int) -> bool {
    |i: int|
        tasks[i].status != TASK_UNUSED && tasks[i].parent_pid == parent && (pid_arg == usize::MAX
            || tasks[i].pid == pid_arg)
}

/// Whether task `i` is such a child that has ended.
pub open spec fn is_zombie(tasks: Seq<Task>, parent: usize, pid_arg: usize) -> spec_fn(int) -> bool {
    |i: int|
        is_child(tasks, parent, pid_arg)(i) && (tasks[i].status == TASK_EXITED || tasks[i].status
            == TASK_FAULTED)
}

/// Task `z` after it was reaped: unused, with no parent, exit code,
/// descriptors or signal state.
pub open spec fn reaped(z: Task) -> Task {
    signals_reset(
        Task {
            status: TASK_UNUSED,
            parent_pid: 0,
            exit_code: 0,
            fds: vstd::array::spec_array_fill_for_copy_type::<FdEntry, 16>(empty_fd()),
            ..z
        },
    )
}

/// Whether `f` is the first task as the kernel starts it: `initproc`
/// loaded into slot 0, ready, pid 1, no parent, the standard descriptors,
/// no signal state.
pub open spec fn initial_task(f: Task, slot: usize, sstatus: usize) -> bool {
    let stack_top = USER_BASE + slot;
    let stack_bottom = stack_top - USER_STACK_SIZE;
    &&& f == signals_reset(
        Task {
            context: f.context,
            status: TASK_READY,
            exit_code: 0,
            pid: 1,
            parent_pid: 0,
            base: USER_BASE,
            phys_base: PROCESS_BASE,
            program_end: image_program_end() as usize,
            heap_base: image_program_end() as usize,
            brk: image_program_end() as usize,
            heap_limit: stack_bottom as usize,
            stack_bottom: stack_bottom as usize,
            stack_top: stack_top as usize,
            fds: f.fds,
            ..f
        },
    )
    &&& f.fds@ == std_fds()
    &&& user_context_ok(f.context, stack_top, sstatus)
}

/// The standard descriptors: standard input, then standard output twice.
pub open spec fn std_fds() -> Seq<FdEntry> {
    Seq::new(
        MAX_FD as nat,
        |i: int|
            if i == 0 {
                FdEntry { kind: FD_STDIN, file_index: 0, offset: 0, readable: 1, writable: 0 }
            } else if i <= 2 {
                FdEntry { kind: FD_STDOUT, file_index: 0, offset: 0, readable: 0, writable: 1 }
            } else {
                empty_fd()
            },
    )
}

impl Kernel {
    /// Whether `self` and `fx` are `old` and `old_fx` after application
    /// `app` was loaded for task `index`: the task has a fresh image and
    /// fresh tables, and the machine was told to load it (and to use the
    /// tables, for the running task in use).
    pub open spec fn image_reset(
        &self,
        old: &Kernel,
        old_fx: Seq<Effect>,
        fx: Seq<Effect>,
        index: int,
        app: usize,
        sstatus: usize,
    ) -> bool {
        &&& self.tasks@ == old.tasks@.update(index, self.tasks@[index])
        &&& imaged(self.tasks@[index], old.tasks@[index], index, old.slot_size, sstatus)
        &&& self.address_space_set(
            index,
            image_program_end(),
            USER_BASE + old.slot_size - USER_STACK_SIZE,
            USER_BASE + old.slot_size,
            PROCESS_BASE + index * old.slot_size,
        )
        &&& self.root_pt@ == old.root_pt@.update(index, self.root_pt@[index])
        &&& self.l1_pt@ == old.l1_pt@.update(index, self.l1_pt@[index])
        &&& self.l0_pt@ == old.l0_pt@.update(index, self.l0_pt@[index])
        &&& self.files@ == old.files@
        &&& self.pipes@ == old.pipes@
        &&& self.same_config(old)
        &&& fx == old_fx + seq![
            Effect::DisablePaging,
            Effect::LoadApp { app, phys_base: (PROCESS_BASE + index * old.slot_size) as usize },
        ] + (if old.tasks@[index].status != TASK_UNUSED && old.current == index {
            seq![Effect::Activate(old.satp(index))]
        } else {
            Seq::empty()
        })
    }

    /// Loads application `app_index` into the slot of task `index` and
    /// lays out its regions, tables and start context; `sstatus` is the
    /// machine's current one.  The task keeps its status, parent,
    /// descriptors and signals.  The new tables are activated when the
    /// task is the running one and in use.
    pub fn reset_task_image(&mut self, fx: &mut Vec<Effect>, index: usize, app_index: usize, sstatus: usize)
        requires
            old(self).wf(),
            index < MAX_TASKS,
        ensures
            final(self).wf(),
            final(self).image_reset(old(self), old(fx)@, final(fx)@, index as int, app_index, sstatus),
            in_slot(final(self).tasks@[index as int], final(self).slot_size),
            final(self).tasks@[index as int].phys_base <= PHYS_LIMIT,
    {
        let phys_base = process_phys_base(index, self.slot_size);
        let old_status = self.tasks[index].status;
        let old_pid = self.tasks[index].pid;
        let old_parent_pid = self.tasks[index].parent_pid;
        fx.push(Effect::DisablePaging);
        fx.push(Effect::LoadApp { app: app_index, phys_base });
        let program_end = align_up(USER_BASE + PROGRAM_STATIC_SIZE, PAGE_SIZE);
        assert(page_ceil(USER_BASE + PROGRAM_STATIC_SIZE) == image_program_end());
        let stack_top = USER_BASE + self.slot_size;
        let stack_bottom = stack_top - USER_STACK_SIZE;
        let heap_base = program_end;
        let heap_limit = stack_bottom;
        self.setup_address_space(index, USER_BASE, program_end, stack_bottom, stack_top, phys_base);
        let mut context = TrapContext::empty();
        context.x[2] = stack_top;
        context.sstatus = user_sstatus(sstatus);
        context.sepc = USER_BASE;
        proof {
            broadcast use vstd::array::group_array_axioms;

            assert(context.x@ =~= Seq::new(32, |i: int| if i == 2 { stack_top } else { 0usize }));
        }
        let mut t = self.tasks[index];
        t.context = context;
        t.status = old_status;
        t.exit_code = 0;
        t.pid = if old_pid == 0 {
            index + 1
        } else {
            old_pid
        };
        t.parent_pid = old_parent_pid;
        t.base = USER_BASE;
        t.phys_base = phys_base;
        t.program_end = program_end;
        t.heap_base = heap_base;
        t.brk = heap_base;
        t.heap_limit = heap_limit;
        t.stack_bottom = stack_bottom;
        t.stack_top = stack_top;
        let ghost prev = *self;
        proof {
            assert(prev.tasks@[index as int].fds == old(self).tasks@[index as int].fds);
        }
        self.tasks.set(index, t);
        proof {
            self.lemma_task_update_wf(&prev, index as int);
        }
        if old_status != TASK_UNUSED && self.current == index {
            self.activate_task(fx, index);
        }
        assert(fx@ =~= old(fx)@ + seq![
            Effect::DisablePaging,
            Effect::LoadApp { app: app_index, phys_base: (PROCESS_BASE + index * old(self).slot_size) as usize },
        ] + (if old(self).tasks@[index as int].status != TASK_UNUSED && old(self).current == index {
            seq![Effect::Activate(old(self).satp(index as int))]
        } else {
            Seq::empty()
        }));
    }

    /// Gives task `index` the standard descriptors and no other.
    pub fn init_standard_fds(&mut self, index: usize)
        requires
            old(self).wf(),
            index < MAX_TASKS,
        ensures
            final(self).wf(),
            final(self).tasks@ == old(self).tasks@.update(index as int, final(self).tasks@[index as int]),
            final(self).tasks@[index as int] == (Task {
                fds: final(self).tasks@[index as int].fds,
                ..old(self).tasks@[index as int]
            }),
            final(self).tasks@[index as int].fds@ == std_fds(),
            final(self).files@ == old(self).files@,
            final(self).pipes@ == old(self).pipes@,
            final(self).same_config(old(self)),
            final(self).same_tables(old(self)),
    {
        let mut t = self.tasks[index];
        let empty = FdEntry::empty();
        t.fds = [empty; 16];
        t.fds[0] = FdEntry { kind: FD_STDIN, file_index: 0, offset: 0, readable: 1, writable: 0 };
        t.fds[1] = FdEntry { kind: FD_STDOUT, file_index: 0, offset: 0, readable: 0, writable: 1 };
        t.fds[2] = t.fds[1];
        proof {
            broadcast use vstd::array::group_array_axioms;

            assert(t.fds@ =~= std_fds());
        }
        let ghost prev = *self;
        proof {
            assert(prev.tasks@[index as int].status != TASK_UNUSED ==> in_slot(prev.tasks@[index as int], prev.slot_size)
                && prev.tasks@[index as int].phys_base <= PHYS_LIMIT);
        }
        self.tasks.set(index, t);
        proof {
            self.lemma_task_update_wf(&prev, index as int);
        }
    }

    /// The running task's regions lie in its slot, and its slot in memory.
    pub open spec fn runnable(&self) -> bool {
        &&& in_slot(self.cur(), self.slot_size)
        &&& self.cur().phys_base <= PHYS_LIMIT
    }

    /// Everything but the clock is the same.
    pub open spec fn only_clock_changed(&self, old: &Kernel) -> bool {
        &&& self.tasks@ == old.tasks@
        &&& self.files@ == old.files@
        &&& self.pipes@ == old.pipes@
        &&& self.same_tables(old)
        &&& self.current == old.current
        &&& self.slot_size == old.slot_size
        &&& self.app_count == old.app_count
        &&& self.root_tables == old.root_tables
        &&& self.l1_tables == old.l1_tables
        &&& self.user_l0_tables == old.user_l0_tables
    }

    /// Whether `self` and `fx` are `old` and `old_fx` after the break moved by
    /// `delta`, which returned `r`.
    pub open spec fn sbrk_outcome(&self, old: &Kernel, old_fx: Seq<Effect>, fx: Seq<Effect>, delta: isize, r: isize) -> bool {
        &&& ({
                    let t = old.cur();
                    let cur = old.current as int;
                    if delta == 0 {
                        r == t.brk as isize && self.unchanged(old) && fx == old_fx
                    } else if add_signed_spec(t.brk, delta) is None || add_signed_spec(t.brk, delta)->0 < t.heap_base
                        || add_signed_spec(t.brk, delta)->0 > t.heap_limit {
                        r == -1 && self.unchanged(old) && fx == old_fx
                    } else {
                        let nb = add_signed_spec(t.brk, delta)->0;
                        &&& r == t.brk as isize
                        &&& self.tasks@ == old.tasks@.update(cur, Task { brk: nb, ..t })
                        &&& self.l0_pt@ == old.l0_pt@.update(cur, self.l0_pt@[cur])
                        &&& forall|j: int|
                            0 <= j < 512 ==> #[trigger] self.l0_pt@[cur]@[j] == (if nb > t.brk {
                                region_entry(
                                    j,
                                    page_floor(t.brk as int),
                                    page_ceil(nb as int),
                                    t.phys_base + (page_floor(t.brk as int) - USER_BASE),
                                    USER_DATA_FLAGS,
                                    old.l0_pt@[cur]@[j],
                                )
                            } else {
                                cleared_entry(j, nb as int, t.brk as int, old.l0_pt@[cur]@[j])
                            })
                        &&& self.root_pt@ == old.root_pt@
                        &&& self.l1_pt@ == old.l1_pt@
                        &&& self.files@ == old.files@
                        &&& self.pipes@ == old.pipes@
                        &&& self.same_config(old)
                        &&& fx == old_fx + seq![Effect::DisablePaging, Effect::Activate(old.satp(cur))]
                    }
                })
    }

    /// Moves the running task's break by `delta` within its heap, mapping
    /// or unmapping the pages in between; returns the old break, or -1
    /// when the new one would leave the heap.
    pub fn sys_sbrk(&mut self, fx: &mut Vec<Effect>, delta: isize) -> (r: isize)
        requires
            old(self).wf(),
            old(self).runnable(),
        ensures
            final(self).wf(),
            final(self).runnable(),
            final(self).current == old(self).current,
            final(self).sbrk_outcome(old(self), old(fx)@, final(fx)@, delta, r),
    {
        let current = self.current;
        let old_brk = self.tasks[current].brk;
        if delta == 0 {
            return old_brk as isize;
        }
        let new_brk = match add_signed(old_brk, delta) {
            Some(b) => b,
            None => {
                return -1;
            },
        };
        let heap_base = self.tasks[current].heap_base;
        let heap_limit = self.tasks[current].heap_limit;
        if new_brk < heap_base || new_brk > heap_limit {
            return -1;
        }
        fx.push(Effect::DisablePaging);
        if new_brk > old_brk {
            self.map_user_heap(current, old_brk, new_brk);
        } else {
            self.unmap_user_heap(current, new_brk, old_brk);
        }
        let mut t = self.tasks[current];
        t.brk = new_brk;
        let ghost prev = *self;
        self.tasks.set(current, t);
        proof {
            self.lemma_task_update_wf(&prev, current as int);
        }
        self.activate_task(fx, current);
        assert(fx@ =~= old(fx)@ + seq![Effect::DisablePaging, Effect::Activate(old(self).satp(current as int))]);
        old_brk as isize
    }

    /// Whether `self` and `mem` are `old` and `old_mem` after the clock was
    /// read to `timespec_ptr`, which returned `r`.
    pub open spec fn clock_outcome(&self, old: &Kernel, old_mem: Seq<u8>, mem: Seq<u8>, timespec_ptr: usize, r: isize) -> bool {
        &&& ({
                    let now = vstd::wrapping::usize_specs::wrapping_add(old.monotonic_us, 100_000);
                    let at = timespec_ptr - USER_BASE;
                    if timespec_ptr % 8 != 0 || !user_range_ok(old.cur(), timespec_ptr as int, 16) {
                        r == -1 && self.unchanged(old) && mem == old_mem
                    } else {
                        &&& r == 0
                        &&& self.monotonic_us == now
                        &&& self.only_clock_changed(old)
                        &&& mem == put_bytes(
                            put_bytes(old_mem, at, word_bytes((now / 1_000_000) as u64)),
                            at + 8,
                            word_bytes((now % 1_000_000) as u64),
                        )
                    }
                })
    }

    /// Advances the clock and writes it, in seconds and microseconds, at
    /// user address `timespec_ptr`; -1 when that is not a word-aligned
    /// pair of words of the running task.
    pub fn sys_clock_gettime(&mut self, mem: &mut Vec<u8>, clock_id: usize, timespec_ptr: usize) -> (r: isize)
        requires
            old(self).wf(),
            old(self).runnable(),
            old(mem)@.len() == old(self).slot_size,
        ensures
            final(self).wf(),
            final(self).runnable(),
            final(self).current == old(self).current,
            final(mem)@.len() == old(mem)@.len(),
            final(self).clock_outcome(old(self), old(mem)@, final(mem)@, timespec_ptr, r),
    {
        let ghost t = self.cur();
        if timespec_ptr % 8 != 0 || !self.valid_user_range(timespec_ptr, 16) {
            return -1;
        }
        proof {
            lemma_user_range_in_slot(t, self.slot_size, timespec_ptr as int, 16);
        }
        let now = self.next_time_us();
        let at = timespec_ptr - USER_BASE;
        write_word(mem, at, (now / 1_000_000) as u64);
        write_word(mem, at + 8, (now % 1_000_000) as u64);
        0
    }

    /// Whether `self` and `fx` are `old` and `old_fx` after the next ready
    /// task after the running one was chosen from `tasks`: it becomes the
    /// running one, and its tables are activated; `r` is it, or `None`
    /// when no task is ready.
    pub open spec fn schedule_outcome(
        &self,
        old: &Kernel,
        tasks: Seq<Task>,
        old_fx: Seq<Effect>,
        fx: Seq<Effect>,
        r: Option<usize>,
    ) -> bool {
        &&& r == next_ready_in(tasks, old.current as int)
        &&& match r {
            Some(n) => {
                &&& self.current == n
                &&& self.tasks@ == tasks.update(n as int, Task { status: TASK_RUNNING, ..tasks[n as int] })
                &&& fx == old_fx.push(Effect::Activate(old.satp(n as int)))
            },
            None => self.current == old.current && self.tasks@ == tasks && fx == old_fx,
        }
        &&& self.files@ == old.files@
        &&& self.pipes@ == old.pipes@
        &&& self.same_tables(old)
        &&& self.monotonic_us == old.monotonic_us
        &&& self.slot_size == old.slot_size
        &&& self.app_count == old.app_count
        &&& self.root_tables == old.root_tables
        &&& self.l1_tables == old.l1_tables
        &&& self.user_l0_tables == old.user_l0_tables
    }

    /// Runs the next ready task after the running one, round-robin;
    /// `None` when no task is ready, and the machine shuts down.
    pub fn schedule_from_current(&mut self, fx: &mut Vec<Effect>) -> (r: Option<usize>)
        requires
            old(self).wf(),
        ensures
            final(self).wf(),
            final(self).schedule_outcome(old(self), old(self).tasks@, old(fx)@, final(fx)@, r),
            r is Some ==> final(self).runnable(),
    {
        let start = self.current;
        match self.find_next_ready(start) {
            Some(next) => {
                let mut t = self.tasks[next];
                t.status = TASK_RUNNING;
                let ghost prev = *self;
                proof {
                    assert(in_slot(prev.tasks@[next as int], prev.slot_size) && prev.tasks@[next as int].phys_base
                        <= PHYS_LIMIT);
                }
                self.tasks.set(next, t);
                proof {
                    self.lemma_task_update_wf(&prev, next as int);
                }
                self.current = next;
                self.activate_task(fx, next);
                Some(next)
            },
            None => None,
        }
    }

    /// Ends the running task with `status` and `exit_code`, and runs the
    /// next ready one.
    pub fn finish_current_task(&mut self, fx: &mut Vec<Effect>, status: usize, exit_code: isize) -> (r: Option<usize>)
        requires
            old(self).wf(),
            old(self).runnable(),
            status != TASK_UNUSED,
        ensures
            final(self).wf(),
            final(self).schedule_outcome(
                old(self),
                old(self).tasks@.update(
                    old(self).current as int,
                    Task { status, exit_code, ..old(self).cur() },
                ),
                old(fx)@,
                final(fx)@,
                r,
            ),
            r is Some ==> final(self).runnable(),
    {
        let current = self.current;
        let mut t = self.tasks[current];
        t.status = status;
        t.exit_code = exit_code;
        let ghost prev = *self;
        self.tasks.set(current, t);
        proof {
            self.lemma_task_update_wf(&prev, current as int);
        }
        self.schedule_from_current(fx)
    }

    /// Puts the running task back among the ready ones, if it is still
    /// running, and runs the next ready one.
    pub fn switch_to_next_task(&mut self, fx: &mut Vec<Effect>) -> (r: Option<usize>)
        requires
            old(self).wf(),
        ensures
            final(self).wf(),
            final(self).schedule_outcome(
                old(self),
                if old(self).cur().status == TASK_RUNNING {
                    old(self).tasks@.update(old(self).current as int, Task { status: TASK_READY, ..old(self).cur() })
                } else {
                    old(self).tasks@
                },
                old(fx)@,
                final(fx)@,
                r,
            ),
            r is Some ==> final(self).runnable(),
    {
        let current = self.current;
        if self.tasks[current].status == TASK_RUNNING {
            let mut t = self.tasks[current];
            t.status = TASK_READY;
            let ghost prev = *self;
            proof {
                assert(in_slot(prev.tasks@[current as int], prev.slot_size) && prev.tasks@[current as int].phys_base
                    <= PHYS_LIMIT);
            }
            self.tasks.set(current, t);
            proof {
                self.lemma_task_update_wf(&prev, current as int);
            }
        }
        self.schedule_from_current(fx)
    }

    /// Whether `self` and `fx` are `old` and `old_fx` after the running
    /// task forked into slot `c`.
    pub open spec fn fork_outcome(&self, old: &Kernel, old_fx: Seq<Effect>, fx: Seq<Effect>, c: int) -> bool {
        let p = old.cur();
        let phys = PROCESS_BASE + c * old.slot_size;
        &&& self.tasks@ == old.tasks@.update(c, self.tasks@[c])
        &&& forked(self.tasks@[c], p, c, phys)
        &&& self.pipes@ == pipes_after_clone_all(old.pipes@, p.fds@)
        &&& self.kernel_tables_set(c)
        &&& forall|j: int| 0 <= j < 512 ==> #[trigger] self.l0_pt@[c]@[j] == forked_l0_entry(j, p, phys)
        &&& self.root_pt@ == old.root_pt@.update(c, self.root_pt@[c])
        &&& self.l1_pt@ == old.l1_pt@.update(c, self.l1_pt@[c])
        &&& self.l0_pt@ == old.l0_pt@.update(c, self.l0_pt@[c])
        &&& self.files@ == old.files@
        &&& self.same_config(old)
        &&& fx == old_fx + seq![
            Effect::DisablePaging,
            Effect::CopyMemory { from: p.phys_base, to: phys as usize, len: old.slot_size },
            Effect::Activate(old.satp(old.current as int)),
        ]
    }

    /// Whether `self` and `fx` are `old` and `old_fx` after a fork that
    /// returned `r`.
    pub open spec fn fork_result(&self, old: &Kernel, old_fx: Seq<Effect>, fx: Seq<Effect>, r: isize) -> bool {
        &&& first_index(old.unused_at(), 0, MAX_TASKS as int) is None ==> r == -1 && self.unchanged(
                    old,
                ) && fx == old_fx
        &&& first_index(old.unused_at(), 0, MAX_TASKS as int) matches Some(c) ==> r == c + 1
                    && self.fork_outcome(old, old_fx, fx, c)
    }

    /// Copies the running task into the lowest unused slot: its memory,
    /// regions, descriptors and signal actions; returns the child's pid, or
    /// -1 when no slot is free.
    pub fn sys_fork(&mut self, fx: &mut Vec<Effect>) -> (r: isize)
        requires
            old(self).wf(),
            old(self).runnable(),
        ensures
            final(self).wf(),
            final(self).runnable(),
            final(self).current == old(self).current,
            final(self).fork_result(old(self), old(fx)@, final(fx)@, r),
    {
        let parent = self.current;
        proof {
            lemma_first_index_props(self.unused_at(), 0, MAX_TASKS as int);
        }
        let child = match self.alloc_task_slot() {
            Some(c) => c,
            None => {
                return -1;
            },
        };
        let p = self.tasks[parent];
        let child_phys = process_phys_base(child, self.slot_size);
        fx.push(Effect::DisablePaging);
        fx.push(Effect::CopyMemory { from: p.phys_base, to: child_phys, len: self.slot_size });
        self.setup_address_space(child, USER_BASE, p.program_end, p.stack_bottom, p.stack_top, child_phys);
        if p.brk > p.heap_base {
            self.map_user_region(
                child,
                p.heap_base,
                p.brk,
                child_phys + (p.heap_base - USER_BASE),
                USER_DATA_FLAGS,
            );
        }
        let mut context = p.context;
        context.x[10] = 0;
        context.sepc = context.sepc.wrapping_add(4);
        let c = Task {
            context,
            status: TASK_READY,
            exit_code: 0,
            pid: child + 1,
            parent_pid: p.pid,
            base: USER_BASE,
            phys_base: child_phys,
            program_end: p.program_end,
            heap_base: p.heap_base,
            brk: p.brk,
            heap_limit: p.heap_limit,
            stack_bottom: p.stack_bottom,
            stack_top: p.stack_top,
            fds: p.fds,
            signal_actions: p.signal_actions,
            signal_mask: p.signal_mask,
            signal_pending: 0,
            handling_signal: 0,
            saved_signal_context: TrapContext::empty(),
        };
        let ghost prev = *self;
        proof {
            assert forall|fd: int| 0 <= fd < MAX_FD implies #[trigger] c.fds@[fd].offset <= FILE_DATA_SIZE by {
                assert(prev.tasks@[parent as int].fds@[fd].offset <= FILE_DATA_SIZE);
            }
        }
        self.tasks.set(child, c);
        proof {
            self.lemma_task_update_wf(&prev, child as int);
        }
        self.clone_fd_refs(child);
        self.activate_task(fx, parent);
        proof {
            assert(fx@ =~= old(fx)@ + seq![
                Effect::DisablePaging,
                Effect::CopyMemory { from: p.phys_base, to: child_phys, len: old(self).slot_size },
                Effect::Activate(old(self).satp(parent as int)),
            ]);
            let cc = child as int;
            let ph = PROCESS_BASE + cc * old(self).slot_size;
            assert(self.tasks@ == old(self).tasks@.update(cc, self.tasks@[cc]));
            assert(forked(self.tasks@[cc], old(self).cur(), cc, ph));
            assert(self.pipes@ == pipes_after_clone_all(old(self).pipes@, old(self).cur().fds@));
            assert(self.kernel_tables_set(cc));
            assert(forall|j: int| 0 <= j < 512 ==> #[trigger] self.l0_pt@[cc]@[j] == forked_l0_entry(j, old(self).cur(), ph));
            assert(self.root_pt@ == old(self).root_pt@.update(cc, self.root_pt@[cc]));
            assert(self.l1_pt@ == old(self).l1_pt@.update(cc, self.l1_pt@[cc]));
            assert(self.l0_pt@ == old(self).l0_pt@.update(cc, self.l0_pt@[cc]));
        }
        (child + 1) as isize
    }

    /// The application named by the `path_len` bytes at user address
    /// `path_ptr`.
    pub fn find_app_by_user_path(&self, mem: &Vec<u8>, path_ptr: usize, path_len: usize) -> (r: Option<usize>)
        requires
            self.wf(),
            in_slot(self.cur(), self.slot_size),
            mem@.len() == self.slot_size,
        ensures
            r == (match app_by_path(self.cur(), mem@, path_ptr as int, path_len as int) {
                Some(i) => Some(i as usize),
                None => None,
            }),
            r matches Some(i) ==> i < APP_COUNT,
    {
        if path_len == 0 || path_len > 64 || !self.valid_user_range(path_ptr, path_len) {
            return None;
        }
        proof {
            lemma_user_range_in_slot(self.cur(), self.slot_size, path_ptr as int, path_len as int);
        }
        let base = path_ptr - USER_BASE;
        let ghost p = app_named(mem@, path_ptr as int, path_len as int);
        let mut index: usize = 0;
        while index < APP_COUNT
            invariant
                index <= APP_COUNT,
                path_len > 0,
                path_len <= 64,
                user_range_ok(self.cur(), path_ptr as int, path_len as int),
                base == path_ptr - USER_BASE,
                base + path_len <= mem.len(),
                p == app_named(mem@, path_ptr as int, path_len as int),
                forall|k: int| 0 <= k < index ==> !#[trigger] p(k),
            decreases APP_COUNT - index,
        {
            let name = app_name_of(index).as_bytes();
            let ghost want = user_bytes(mem@, path_ptr as int, path_len as int);
            if path_len == name.len() {
                let mut equal = true;
                let mut offset: usize = 0;
                while equal && offset < path_len
                    invariant
                        path_len == name@.len(),
                        base + path_len <= mem.len(),
                        want == mem@.subrange(base as int, base + path_len),
                        offset <= path_len,
                        equal ==> forall|k: int| 0 <= k < offset ==> name@[k] == want[k],
                        !equal ==> offset < path_len && name@[offset as int] != want[offset as int],
                    decreases path_len - offset, (if equal { 1int } else { 0int }),
                {
                    if mem[base + offset] != name[offset] {
                        equal = false;
                    } else {
                        offset = offset + 1;
                    }
                }
                if equal {
                    assert(name@ =~= want);
                    assert(p(index as int));
                    proof {
                        lemma_first_index_skip(p, 0, index as int, APP_COUNT as int);
                    }
                    return Some(index);
                }
            }
            assert(name@ != want);
            index = index + 1;
        }
        proof {
            lemma_first_index_skip(p, 0, index as int, APP_COUNT as int);
        }
        None
    }

    /// Whether `self` and `fx` are `old` and `old_fx` after an exec of the
    /// name at `path_ptr`, which returned `r`.
    pub open spec fn exec_outcome(&self, old: &Kernel, mem: Seq<u8>, old_fx: Seq<Effect>, fx: Seq<Effect>, path_ptr: usize, path_len: usize, sstatus: usize, r: isize) -> bool {
        &&& app_by_path(old.cur(), mem, path_ptr as int, path_len as int) is None ==> r == -1
                    && self.unchanged(old) && fx == old_fx
        &&& app_by_path(old.cur(), mem, path_ptr as int, path_len as int) matches Some(a) ==> r == 0
                    && self.image_reset(old, old_fx, fx, old.current as int, a as usize, sstatus)
    }

    /// Replaces the running task's program by the application named by
    /// the `path_len` bytes at user address `path_ptr`; -1 when there is
    /// none.
    pub fn sys_exec(
        &mut self,
        mem: &Vec<u8>,
        fx: &mut Vec<Effect>,
        path_ptr: usize,
        path_len: usize,
        sstatus: usize,
    ) -> (r: isize)
        requires
            old(self).wf(),
            old(self).runnable(),
            mem@.len() == old(self).slot_size,
        ensures
            final(self).wf(),
            final(self).runnable(),
            final(self).current == old(self).current,
            final(self).exec_outcome(old(self), mem@, old(fx)@, final(fx)@, path_ptr, path_len, sstatus, r),
    {
        let app_index = match self.find_app_by_user_path(mem, path_ptr, path_len) {
            Some(a) => a,
            None => {
                return -1;
            },
        };
        let current = self.current;
        self.reset_task_image(fx, current, app_index, sstatus);
        0
    }

    /// Whether `self` and `mem` are `old` and `old_mem` after a wait that
    /// reaped task `i`, writing its exit code at `exit_code_ptr` when that
    /// is not null and is the running task's, and returned `r`.
    pub open spec fn wait_outcome(
        &self,
        old: &Kernel,
        old_mem: Seq<u8>,
        mem: Seq<u8>,
        i: int,
        exit_code_ptr: usize,
        r: isize,
    ) -> bool {
        let z = old.tasks@[i];
        &&& r == z.pid as isize
        &&& mem == (if exit_code_ptr != 0 && user_range_ok(old.cur(), exit_code_ptr as int, 4) {
            put_bytes(old_mem, exit_code_ptr - USER_BASE, half_bytes((z.exit_code as i32) as u32))
        } else {
            old_mem
        })
        &&& self.tasks@ == old.tasks@.update(i, reaped(z))
        &&& self.pipes@ == pipes_after_close_all(old.pipes@, z.fds@)
        &&& self.files@ == old.files@
        &&& self.same_config(old)
        &&& self.same_tables(old)
    }

    /// Whether `self` and `mem` are `old` and `old_mem` after a wait for
    /// `pid_arg`, which returned `r`.
    pub open spec fn wait_result(&self, old: &Kernel, old_mem: Seq<u8>, mem: Seq<u8>, pid_arg: usize, exit_code_ptr: usize, r: isize) -> bool {
        &&& first_index(is_zombie(old.tasks@, old.cur().pid, pid_arg), 0, MAX_TASKS as int) is None
                    ==> self.unchanged(old) && mem == old_mem && r == (if exists|i: int|
                    0 <= i < MAX_TASKS && #[trigger] is_child(old.tasks@, old.cur().pid, pid_arg)(i) {
                    -2isize
                } else {
                    -1isize
                })
        &&& first_index(is_zombie(old.tasks@, old.cur().pid, pid_arg), 0, MAX_TASKS as int) matches Some(i)
                    ==> self.wait_outcome(old, old_mem, mem, i, exit_code_ptr, r)
    }

    /// Reaps the lowest ended child of the running task with pid
    /// `pid_arg` (any child for `usize::MAX`); returns its pid, -2 when
    /// there are such children but none has ended, -1 when there are none.
    pub fn sys_wait(&mut self, mem: &mut Vec<u8>, pid_arg: usize, exit_code_ptr: usize) -> (r: isize)
        requires
            old(self).wf(),
            old(self).runnable(),
            old(mem)@.len() == old(self).slot_size,
        ensures
            final(self).wf(),
            final(self).runnable(),
            final(self).current == old(self).current,
            final(mem)@.len() == old(mem)@.len(),
            final(self).wait_result(old(self), old(mem)@, final(mem)@, pid_arg, exit_code_ptr, r),
    {
        let ghost t = self.cur();
        let cur_pid = self.current_pid();
        let wait_any = pid_arg == usize::MAX;
        let ghost child = is_child(self.tasks@, cur_pid, pid_arg);
        let ghost zombie = is_zombie(self.tasks@, cur_pid, pid_arg);
        let mut has_matching_child = false;
        let mut index: usize = 0;
        while index < MAX_TASKS
            invariant
                self.wf(),
                old(self).runnable(),
                self.unchanged(old(self)),
                mem@ == old(mem)@,
                t == self.cur(),
                in_slot(t, self.slot_size),
                mem@.len() == self.slot_size,
                cur_pid == t.pid,
                wait_any == (pid_arg == usize::MAX),
                child == is_child(self.tasks@, cur_pid, pid_arg),
                zombie == is_zombie(self.tasks@, cur_pid, pid_arg),
                index <= MAX_TASKS,
                forall|k: int| 0 <= k < index ==> !#[trigger] zombie(k),
                has_matching_child == exists|k: int| 0 <= k < index && #[trigger] child(k),
            decreases MAX_TASKS - index,
        {
            let status = self.tasks[index].status;
            let parent_pid = self.tasks[index].parent_pid;
            let task_pid = self.tasks[index].pid;
            if status == TASK_UNUSED || parent_pid != cur_pid || (!wait_any && task_pid != pid_arg) {
                assert(!child(index as int));
                assert forall|k: int| 0 <= k < index + 1 && #[trigger] child(k) implies 0 <= k < index && child(k) by {
                }
                index = index + 1;
            } else {
                assert(child(index as int));
                has_matching_child = true;
                if status == TASK_EXITED || status == TASK_FAULTED {
                    assert(zombie(index as int));
                    proof {
                        lemma_first_index_skip(zombie, 0, index as int, MAX_TASKS as int);
                    }
                    let exit_code = self.tasks[index].exit_code;
                    if exit_code_ptr != 0 && self.valid_user_range(exit_code_ptr, 4) {
                        proof {
                            lemma_user_range_in_slot(t, self.slot_size, exit_code_ptr as int, 4);
                        }
                        write_half(mem, exit_code_ptr - USER_BASE, (exit_code as i32) as u32);
                    }
                    let mut z = self.tasks[index];
                    z.status = TASK_UNUSED;
                    z.parent_pid = 0;
                    z.exit_code = 0;
                    let ghost prev = *self;
                    self.tasks.set(index, z);
                    proof {
                        self.lemma_task_update_wf(&prev, index as int);
                    }
                    self.close_all_fds(index);
                    self.init_signal_state(index);
                    proof {
                        broadcast use vstd::array::group_array_axioms;

                        let f = self.tasks@[index as int].fds;
                        assert(f =~= vstd::array::spec_array_fill_for_copy_type::<FdEntry, 16>(empty_fd()));
                        assert(self.tasks@[index as int] == reaped(old(self).tasks@[index as int]));
                        assert(self.tasks@ =~= old(self).tasks@.update(index as int, reaped(old(self).tasks@[index as int])));
                        if index != old(self).current {
                            assert(self.cur() == t);
                        }
                    }
                    return task_pid as isize;
                }
                assert(!zombie(index as int));
                index = index + 1;
            }
        }
        proof {
            lemma_first_index_skip(zombie, 0, index as int, MAX_TASKS as int);
        }
        if has_matching_child {
            -2
        } else {
            -1
        }
    }

    /// Loads `initproc` as the first task, ready to run with pid 1 and the
    /// standard descriptors; `false`, with nothing done, when there is no
    /// application and the machine shuts down.
    pub fn init_tasks(&mut self, fx: &mut Vec<Effect>, sstatus: usize) -> (r: bool)
        requires
            old(self).wf(),
        ensures
            final(self).wf(),
            r == (old(self).app_count != 0),
            !r ==> final(self).unchanged(old(self)) && final(fx)@ == old(fx)@,
            r ==> {
                &&& final(self).tasks@ == old(self).tasks@.update(0, final(self).tasks@[0])
                &&& initial_task(final(self).tasks@[0], old(self).slot_size, sstatus)
                &&& final(self).address_space_set(
                    0,
                    image_program_end(),
                    USER_BASE + old(self).slot_size - USER_STACK_SIZE,
                    USER_BASE + old(self).slot_size,
                    PROCESS_BASE as int,
                )
                &&& final(self).root_pt@ == old(self).root_pt@.update(0, final(self).root_pt@[0])
                &&& final(self).l1_pt@ == old(self).l1_pt@.update(0, final(self).l1_pt@[0])
                &&& final(self).l0_pt@ == old(self).l0_pt@.update(0, final(self).l0_pt@[0])
                &&& final(self).files@ == old(self).files@
                &&& final(self).pipes@ == old(self).pipes@
                &&& final(self).same_config(old(self))
                &&& final(fx)@ == old(fx)@ + seq![
                    Effect::DisablePaging,
                    Effect::LoadApp { app: INITPROC_APP, phys_base: PROCESS_BASE },
                ] + (if old(self).tasks@[0].status != TASK_UNUSED && old(self).current == 0 {
                    seq![Effect::Activate(old(self).satp(0))]
                } else {
                    Seq::empty()
                })
            },
    {
        if self.app_count == 0 {
            return false;
        }
        self.reset_task_image(fx, 0, INITPROC_APP, sstatus);
        let mut t = self.tasks[0];
        t.status = TASK_READY;
        t.pid = 1;
        t.parent_pid = 0;
        let ghost prev = *self;
        self.tasks.set(0, t);
        proof {
            self.lemma_task_update_wf(&prev, 0);
        }
        self.init_standard_fds(0);
        self.init_signal_state(0);
        true
    }

    /// Starts running the first task: it becomes the running one, and its
    /// tables are activated.
    pub fn run_first_task(&mut self, fx: &mut Vec<Effect>)
        requires
            old(self).wf(),
            old(self).tasks@[0].status != TASK_UNUSED,
        ensures
            final(self).wf(),
            final(self).runnable(),
            final(self).current == 0,
            final(self).tasks@ == old(self).tasks@.update(0, Task { status: TASK_RUNNING, ..old(self).tasks@[0] }),
            final(fx)@ == old(fx)@.push(Effect::Activate(old(self).satp(0))),
            final(self).files@ == old(self).files@,
            final(self).pipes@ == old(self).pipes@,
            final(self).same_tables(old(self)),
            final(self).monotonic_us == old(self).monotonic_us,
            final(self).slot_size == old(self).slot_size,
            final(self).app_count == old(self).app_count,
            final(self).root_tables == old(self).root_tables,
            final(self).l1_tables == old(self).l1_tables,
            final(self).user_l0_tables == old(self).user_l0_tables,
    {
        let mut t = self.tasks[0];
        t.status = TASK_RUNNING;
        let ghost prev = *self;
        proof {
            assert(in_slot(prev.tasks@[0], prev.slot_size) && prev.tasks@[0].phys_base <= PHYS_LIMIT);
        }
        self.tasks.set(0, t);
        proof {
            self.lemma_task_update_wf(&prev, 0);
        }
        self.current = 0;
        self.activate_task(fx, 0);
    }

    /// A kernel with every table empty, for slots of `slot_size` bytes and
    /// `app_count` applications, its page tables at the given addresses.
    pub fn new(
        slot_size: usize,
        app_count: usize,
        root_tables: usize,
        l1_tables: usize,
        user_l0_tables: usize,
    ) -> (k: Kernel)
        requires
            PROGRAM_STATIC_SIZE + USER_STACK_SIZE <= slot_size <= APP_LOAD_LIMIT,
            root_tables + MAX_TASKS * PAGE_SIZE <= usize::MAX,
            l1_tables + MAX_TASKS * PAGE_SIZE <= usize::MAX,
            user_l0_tables + MAX_TASKS * PAGE_SIZE <= usize::MAX,
        ensures
            k.wf(),
            k.tasks@ == Seq::new(MAX_TASKS as nat, |i: int| empty_task()),
            k.files@ == Seq::new(MAX_FILES as nat, |i: int| empty_file()),
            k.pipes@ == Seq::new(MAX_PIPES as nat, |i: int| empty_pipe()),
            k.root_pt@ == Seq::new(MAX_TASKS as nat, |i: int| vstd::array::spec_array_fill_for_copy_type::<usize, 512>(0)),
            k.l1_pt@ == Seq::new(MAX_TASKS as nat, |i: int| vstd::array::spec_array_fill_for_copy_type::<usize, 512>(0)),
            k.l0_pt@ == Seq::new(MAX_TASKS as nat, |i: int| vstd::array::spec_array_fill_for_copy_type::<usize, 512>(0)),
            k.current == 0,
            k.monotonic_us == 0,
            k.slot_size == slot_size,
            k.app_count == app_count,
            k.root_tables == root_tables,
            k.l1_tables == l1_tables,
            k.user_l0_tables == user_l0_tables,
    {
        let mut tasks: Vec<Task> = Vec::new();
        let mut root_pt: Vec<[usize; 512]> = Vec::new();
        let mut l1_pt: Vec<[usize; 512]> = Vec::new();
        let mut l0_pt: Vec<[usize; 512]> = Vec::new();
        let mut i: usize = 0;
        while i < MAX_TASKS
            invariant
                i <= MAX_TASKS,
                tasks@ == Seq::new(i as nat, |j: int| empty_task()),
                root_pt@ == Seq::new(i as nat, |j: int| vstd::array::spec_array_fill_for_copy_type::<usize, 512>(0)),
                l1_pt@ == Seq::new(i as nat, |j: int| vstd::array::spec_array_fill_for_copy_type::<usize, 512>(0)),
                l0_pt@ == Seq::new(i as nat, |j: int| vstd::array::spec_array_fill_for_copy_type::<usize, 512>(0)),
            decreases MAX_TASKS - i,
        {
            tasks.push(Task::empty());
            root_pt.push([0usize; 512]);
            l1_pt.push([0usize; 512]);
            l0_pt.push([0usize; 512]);
            i = i + 1;
        }
        let mut files: Vec<FileEntry> = Vec::new();
        let mut pipes: Vec<PipeEntry> = Vec::new();
        let mut i: usize = 0;
        while i < MAX_FILES
            invariant
                i <= MAX_FILES,
                MAX_FILES == MAX_PIPES,
                files@ == Seq::new(i as nat, |j: int| empty_file()),
                pipes@ == Seq::new(i as nat, |j: int| empty_pipe()),
            decreases MAX_FILES - i,
        {
            files.push(FileEntry::empty());
            pipes.push(PipeEntry::empty());
            i = i + 1;
        }
        let k = Kernel {
            tasks,
            files,
            pipes,
            current: 0,
            monotonic_us: 0,
            slot_size,
            app_count,
            root_tables,
            l1_tables,
            user_l0_tables,
            root_pt,
            l1_pt,
            l0_pt,
        };
        proof {
            broadcast use vstd::array::group_array_axioms;

            assert forall|i: int, fd: int| 0 <= i < MAX_TASKS && 0 <= fd < MAX_FD implies #[trigger] k.tasks@[i].fds@[fd].offset
                <= FILE_DATA_SIZE by {
                assert(k.tasks@[i] == empty_task());
                assert(empty_task().fds@[fd] == empty_fd());
            }
        }
        k
    }
}

} // verus!
