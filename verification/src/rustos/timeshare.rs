//! The time-sharing kernel of chapter three: every application is loaded
//! at start into its own area with its own stack and becomes a task; a
//! timer interrupt or `sched_yield` passes the processor round-robin to
//! the next ready task, and the machine stops when none is left.  Printing,
//! storing the time into user memory and loading images are left, as
//! [`Effect`]s, to the code that runs the kernel.

use vstd::prelude::*;

use super::batch::{entry_sstatus, entry_sstatus_spec, interrupt_bit};
use super::kernel::{first_index, lemma_first_index_skip};
use super::{
    app_slot_size, empty_context, slot_size_of, TrapContext, APP_LOAD_LIMIT, SYSCALL_CLOCK_GETTIME,
    SYSCALL_EXIT, SYSCALL_SCHED_YIELD, SYSCALL_WRITE, TASK_EXITED, TASK_FAULTED, TASK_READY,
    TASK_RUNNING, TASK_UNUSED, USER_STACK_SIZE,
};

verus! {

/// The number of task slots.
pub const TS_MAX_TASKS: usize = 12;
/// Cause of an `ecall` from user mode.
pub const TS_SCAUSE_USER_ECALL: usize = 8;

/// Work the kernel leaves to the machine, in order.
#[derive(Clone, Copy, Debug, PartialEq, Eq, Structural)]
pub enum Effect {
    /// Print the `len` bytes at address `from`.
    Print { from: usize, len: usize },
    /// Store the two words `sec` and `usec` at address `at`.
    StoreTime { at: usize, sec: usize, usec: usize },
    /// Zero the `limit` bytes at `base` and copy application `app` there
    /// (the machine shuts down when the image is larger).
    LoadApp { app: usize, base: usize, limit: usize },
}

/// A task: its saved registers, its state, its exit code, and the area
/// its program was loaded into.
#[derive(Clone, Copy)]
pub struct TsTask {
    pub context: TrapContext,
    pub status: usize,
    pub exit_code: isize,
    pub base: usize,
    pub limit: usize,
}

/// The kernel: the task table, how many tasks there are, the running one,
/// the clock, and where applications and stacks are.
pub struct TimeShare {
    pub tasks: Vec<TsTask>,
    pub task_count: usize,
    pub current: usize,
    pub monotonic_us: usize,
    pub app_base: usize,
    pub app_step: usize,
    pub app_count_raw: usize,
    pub stacks_base: usize,
}

/// The unused task.
pub open spec fn empty_ts_task() -> TsTask {
    TsTask { context: empty_context(), status: TASK_UNUSED, exit_code: 0, base: 0, limit: 0 }
}

/// Whether offset `off` after `start` names a ready task, among `count`
/// tasks round-robin.
pub open spec fn ts_ready_in(tasks: Seq<TsTask>, count: int, start: int) -> spec_fn(int) -> bool {
    |off: int| tasks[(start + off) % count].status == TASK_READY
}

/// The next ready task after `start` among the first `count`, round-robin,
/// `start` itself last.
pub open spec fn ts_next_ready(tasks: Seq<TsTask>, count: int, start: int) -> Option<usize> {
    match first_index(ts_ready_in(tasks, count, start), 1, count + 1) {
        Some(off) => Some(((start + off) % count) as usize),
        None => None,
    }
}

/// The tasks with the running one put back among the ready ones, if it
/// was running.
pub open spec fn ts_yielded(tasks: Seq<TsTask>, current: int) -> Seq<TsTask> {
    if tasks[current].status == TASK_RUNNING {
        tasks.update(current, TsTask { status: TASK_READY, ..tasks[current] })
    } else {
        tasks
    }
}

/// Whether `cx` is `old` with `value` in `a0` and the pc past the
/// `ecall`.
pub open spec fn ts_returned(cx: TrapContext, old: TrapContext, value: usize) -> bool {
    &&& cx.x@ == old.x@.update(10, value)
    &&& cx.sstatus == old.sstatus
    &&& cx.sepc == vstd::wrapping::usize_specs::wrapping_add(old.sepc, 4)
}

impl TimeShare {
    /// The table has its size, the counts are in range, the running task
    /// is one of the table, and the addresses of every area fit.
    pub open spec fn wf(&self) -> bool {
        &&& self.tasks@.len() == TS_MAX_TASKS
        &&& self.task_count <= TS_MAX_TASKS
        &&& self.current < TS_MAX_TASKS
        &&& self.app_base + self.app_step * TS_MAX_TASKS + APP_LOAD_LIMIT <= usize::MAX
        &&& self.stacks_base + TS_MAX_TASKS * USER_STACK_SIZE <= usize::MAX
    }

    /// There are tasks and the running one is among them.
    pub open spec fn runnable(&self) -> bool {
        0 < self.task_count && self.current < self.task_count
    }

    /// The running task.
    pub open spec fn cur(&self) -> TsTask {
        self.tasks@[self.current as int]
    }

    /// Everything but the tasks, the running one and the clock is the same.
    pub open spec fn same_config(&self, old: &TimeShare) -> bool {
        &&& self.task_count == old.task_count
        &&& self.app_base == old.app_base
        &&& self.app_step == old.app_step
        &&& self.app_count_raw == old.app_count_raw
        &&& self.stacks_base == old.stacks_base
    }

    /// A kernel with no task yet.
    pub fn new(app_base: usize, app_step: usize, app_count_raw: usize, stacks_base: usize) -> (k: TimeShare)
        requires
            app_base + app_step * TS_MAX_TASKS + APP_LOAD_LIMIT <= usize::MAX,
            stacks_base + TS_MAX_TASKS * USER_STACK_SIZE <= usize::MAX,
        ensures
            k.wf(),
            k.tasks@ == Seq::new(TS_MAX_TASKS as nat, |i: int| empty_ts_task()),
            k.task_count == 0,
            k.current == 0,
            k.monotonic_us == 0,
            k.app_base == app_base,
            k.app_step == app_step,
            k.app_count_raw == app_count_raw,
            k.stacks_base == stacks_base,
    {
        let mut tasks: Vec<TsTask> = Vec::new();
        let mut i: usize = 0;
        while i < TS_MAX_TASKS
            invariant
                i <= TS_MAX_TASKS,
                tasks@ == Seq::new(i as nat, |j: int| empty_ts_task()),
            decreases TS_MAX_TASKS - i,
        {
            tasks.push(TsTask { context: TrapContext::empty(), status: TASK_UNUSED, exit_code: 0, base: 0, limit: 0 });
            i = i + 1;
        }
        TimeShare { tasks, task_count: 0, current: 0, monotonic_us: 0, app_base, app_step, app_count_raw, stacks_base }
    }

    /// The number of applications run: the table's count, at most the
    /// number of task slots.
    pub open spec fn count(&self) -> usize {
        if self.app_count_raw < TS_MAX_TASKS { self.app_count_raw } else { TS_MAX_TASKS }
    }

    /// The number of applications run.
    pub fn app_count(&self) -> (r: usize)
        ensures
            r == self.count(),
    {
        if self.app_count_raw < TS_MAX_TASKS {
            self.app_count_raw
        } else {
            TS_MAX_TASKS
        }
    }

    /// The load address of application `index`.
    pub open spec fn base_of(&self, index: int) -> int {
        self.app_base + self.app_step * index
    }

    /// The lowest address of the stack of task `index`.
    pub fn user_stack_bottom(&self, index: usize) -> (r: usize)
        requires
            self.wf(),
            index < TS_MAX_TASKS,
        ensures
            r == self.stacks_base + index * USER_STACK_SIZE,
            r + USER_STACK_SIZE <= usize::MAX,
    {
        self.stacks_base + index * USER_STACK_SIZE
    }

    /// The top of the stack of task `index`.
    pub fn user_stack_top(&self, index: usize) -> (r: usize)
        requires
            self.wf(),
            index < TS_MAX_TASKS,
        ensures
            r == self.stacks_base + index * USER_STACK_SIZE + USER_STACK_SIZE,
    {
        self.user_stack_bottom(index) + USER_STACK_SIZE
    }

    /// Loads application `index` into its area and returns the area's
    /// address.
    pub fn load_app(&self, fx: &mut Vec<Effect>, index: usize) -> (r: usize)
        requires
            self.wf(),
            index < TS_MAX_TASKS,
        ensures
            r == self.base_of(index as int),
            r + APP_LOAD_LIMIT <= usize::MAX,
            final(fx)@ == old(fx)@.push(
                Effect::LoadApp { app: index, base: r, limit: slot_size_of(self.app_step) },
            ),
    {
        proof {
            assert(self.app_step * index <= self.app_step * TS_MAX_TASKS) by (nonlinear_arith)
                requires
                    index < TS_MAX_TASKS,
            ;
            assert(0 <= self.app_step * index) by (nonlinear_arith);
        }
        let base = self.app_base + self.app_step * index;
        let limit = app_slot_size(self.app_step);
        fx.push(Effect::LoadApp { app: index, base, limit });
        base
    }

    /// Whether `t` is the task application `index` starts as: ready, at
    /// its load address, with its stack and the user `sstatus`.
    pub open spec fn initial_task(&self, t: TsTask, index: int, sstatus: usize) -> bool {
        &&& t.context.x@ == empty_context().x@.update(
            2,
            (self.stacks_base + index * USER_STACK_SIZE + USER_STACK_SIZE) as usize,
        )
        &&& t.context.sstatus == entry_sstatus_spec(sstatus)
        &&& t.context.sepc == self.base_of(index)
        &&& t.status == TASK_READY
        &&& t.exit_code == 0
        &&& t.base == self.base_of(index)
        &&& t.limit == self.base_of(index) + slot_size_of(self.app_step)
    }

    /// Loads every application (at most the number of slots) and makes it
    /// a ready task; `false`, with nothing done, when there is none and the
    /// machine shuts down.  `sstatus` is the machine's current one.
    pub fn init_tasks(&mut self, fx: &mut Vec<Effect>, sstatus: usize) -> (r: bool)
        requires
            old(self).wf(),
        ensures
            final(self).wf(),
            r == (old(self).count() != 0),
            !r ==> *final(self) == *old(self) && final(fx)@ == old(fx)@,
            r ==> {
                &&& final(self).task_count == old(self).count()
                &&& final(self).current == old(self).current
                &&& final(self).monotonic_us == old(self).monotonic_us
                &&& final(self).app_base == old(self).app_base
                &&& final(self).app_step == old(self).app_step
                &&& final(self).app_count_raw == old(self).app_count_raw
                &&& final(self).stacks_base == old(self).stacks_base
                &&& forall|i: int| 0 <= i < old(self).count() ==> #[trigger] old(self).initial_task(final(self).tasks@[i], i, sstatus)
                &&& forall|i: int| old(self).count() <= i < TS_MAX_TASKS ==> #[trigger] final(self).tasks@[i] == old(self).tasks@[i]
                &&& final(fx)@ == old(fx)@ + Seq::new(
                    old(self).count() as nat,
                    |i: int| Effect::LoadApp { app: i as usize, base: old(self).base_of(i) as usize, limit: slot_size_of(old(self).app_step) },
                )
            },
    {
        let count = self.app_count();
        if count == 0 {
            return false;
        }
        self.task_count = count;
        let user_status = entry_sstatus(sstatus);
        let mut index: usize = 0;
        while index < count
            invariant
                self.wf(),
                count == old(self).count(),
                0 < count <= TS_MAX_TASKS,
                index <= count,
                self.task_count == count,
                self.current == old(self).current,
                self.monotonic_us == old(self).monotonic_us,
                self.app_base == old(self).app_base,
                self.app_step == old(self).app_step,
                self.app_count_raw == old(self).app_count_raw,
                self.stacks_base == old(self).stacks_base,
                user_status == entry_sstatus_spec(sstatus),
                forall|i: int| 0 <= i < index ==> #[trigger] old(self).initial_task(self.tasks@[i], i, sstatus),
                forall|i: int| index <= i < TS_MAX_TASKS ==> #[trigger] self.tasks@[i] == old(self).tasks@[i],
                fx@ == old(fx)@ + Seq::new(
                    index as nat,
                    |i: int| Effect::LoadApp { app: i as usize, base: old(self).base_of(i) as usize, limit: slot_size_of(old(self).app_step) },
                ),
            decreases count - index,
        {
            let ghost fx_before = fx@;
            let entry = self.load_app(fx, index);
            let top = self.user_stack_top(index);
            let limit = app_slot_size(self.app_step);
            let mut context = TrapContext::empty();
            context.x[2] = top;
            context.sstatus = user_status;
            context.sepc = entry;
            let t = TsTask { context, status: TASK_READY, exit_code: 0, base: entry, limit: entry + limit };
            self.tasks.set(index, t);
            proof {
                assert(t.context.x@ =~= empty_context().x@.update(2, top));
                assert(fx@ =~= old(fx)@ + Seq::new(
                    (index + 1) as nat,
                    |i: int| Effect::LoadApp { app: i as usize, base: old(self).base_of(i) as usize, limit: slot_size_of(old(self).app_step) },
                ));
            }
            index = index + 1;
        }
        true
    }

    /// Starts the first task: it becomes the running one.
    pub fn run_first_task(&mut self)
        requires
            old(self).wf(),
            old(self).task_count > 0,
        ensures
            final(self).wf(),
            final(self).runnable(),
            final(self).current == 0,
            final(self).tasks@ == old(self).tasks@.update(0, TsTask { status: TASK_RUNNING, ..old(self).tasks@[0] }),
            final(self).monotonic_us == old(self).monotonic_us,
            final(self).same_config(old(self)),
    {
        let mut t = self.tasks[0];
        t.status = TASK_RUNNING;
        self.tasks.set(0, t);
        self.current = 0;
    }

    /// The next ready task after `start`.
    pub fn find_next_ready(&self, start: usize) -> (r: Option<usize>)
        requires
            self.wf(),
            start < TS_MAX_TASKS,
        ensures
            r == ts_next_ready(self.tasks@, self.task_count as int, start as int),
            r matches Some(i) ==> i < self.task_count && self.tasks@[i as int].status == TASK_READY,
    {
        let count = self.task_count;
        let mut offset: usize = 1;
        while offset <= count
            invariant
                self.wf(),
                start < TS_MAX_TASKS,
                count == self.task_count,
                1 <= offset <= count + 1,
                forall|k: int| 1 <= k < offset ==> !(#[trigger] ts_ready_in(self.tasks@, count as int, start as int)(k)),
            decreases count + 1 - offset,
        {
            let index = (start + offset) % count;
            if self.tasks[index].status == TASK_READY {
                proof {
                    lemma_first_index_skip(ts_ready_in(self.tasks@, count as int, start as int), 1, offset as int, count + 1);
                }
                return Some(index);
            }
            offset = offset + 1;
        }
        proof {
            lemma_first_index_skip(ts_ready_in(self.tasks@, count as int, start as int), 1, offset as int, count + 1);
        }
        None
    }

    /// Whether `self` is `old` after the next ready task was chosen from
    /// `tasks`: it becomes the running one; `r` is it, or `None` when no
    /// task is ready.
    pub open spec fn schedule_outcome(&self, old: &TimeShare, tasks: Seq<TsTask>, r: Option<usize>) -> bool {
        &&& r == ts_next_ready(tasks, old.task_count as int, old.current as int)
        &&& match r {
            Some(n) => {
                &&& self.current == n
                &&& self.tasks@ == tasks.update(n as int, TsTask { status: TASK_RUNNING, ..tasks[n as int] })
            },
            None => self.current == old.current && self.tasks@ == tasks,
        }
        &&& self.monotonic_us == old.monotonic_us
        &&& self.same_config(old)
    }

    /// Runs the next ready task after the running one, round-robin;
    /// `None` when no task is ready, and the machine shuts down.
    pub fn schedule_from_current(&mut self) -> (r: Option<usize>)
        requires
            old(self).wf(),
        ensures
            final(self).wf(),
            final(self).schedule_outcome(old(self), old(self).tasks@, r),
            r is Some ==> final(self).runnable(),
    {
        let start = self.current;
        match self.find_next_ready(start) {
            Some(next) => {
                let mut t = self.tasks[next];
                t.status = TASK_RUNNING;
                self.tasks.set(next, t);
                self.current = next;
                Some(next)
            },
            None => None,
        }
    }

    /// Ends the running task with `status` and `exit_code`, and runs the
    /// next ready one.
    pub fn finish_current_task(&mut self, status: usize, exit_code: isize) -> (r: Option<usize>)
        requires
            old(self).wf(),
        ensures
            final(self).wf(),
            final(self).schedule_outcome(
                old(self),
                old(self).tasks@.update(old(self).current as int, TsTask { status, exit_code, ..old(self).cur() }),
                r,
            ),
            r is Some ==> final(self).runnable(),
    {
        let current = self.current;
        let mut t = self.tasks[current];
        t.status = status;
        t.exit_code = exit_code;
        self.tasks.set(current, t);
        self.schedule_from_current()
    }

    /// Puts the running task back among the ready ones, if it is still
    /// running, and runs the next ready one.
    pub fn switch_to_next_task(&mut self) -> (r: Option<usize>)
        requires
            old(self).wf(),
        ensures
            final(self).wf(),
            final(self).schedule_outcome(old(self), ts_yielded(old(self).tasks@, old(self).current as int), r),
            r is Some ==> final(self).runnable(),
    {
        let current = self.current;
        if self.tasks[current].status == TASK_RUNNING {
            let mut t = self.tasks[current];
            t.status = TASK_READY;
            self.tasks.set(current, t);
        }
        self.schedule_from_current()
    }

    /// Whether `len` bytes at `ptr` lie in the running task's load area or
    /// in its stack (an empty range always does).
    pub open spec fn range_ok(&self, ptr: usize, len: usize) -> bool {
        let t = self.cur();
        let bottom = self.stacks_base + self.current * USER_STACK_SIZE;
        ||| len == 0
        ||| ptr + len <= usize::MAX && ((ptr >= t.base && ptr + len <= t.limit) || (ptr >= bottom && ptr + len
            <= bottom + USER_STACK_SIZE))
    }

    /// Whether `len` bytes at `ptr` are the running task's.
    pub fn valid_user_range(&self, ptr: usize, len: usize) -> (r: bool)
        requires
            self.wf(),
        ensures
            r == self.range_ok(ptr, len),
    {
        if len == 0 {
            return true;
        }
        let end = match ptr.checked_add(len) {
            Some(end) => end,
            None => {
                return false;
            },
        };
        let current = self.current;
        let base = self.tasks[current].base;
        let limit = self.tasks[current].limit;
        if ptr >= base && end <= limit {
            return true;
        }
        let stack_bottom = self.user_stack_bottom(current);
        let stack_top = stack_bottom + USER_STACK_SIZE;
        ptr >= stack_bottom && end <= stack_top
    }

    /// Advances the clock by 100 ms (wrapping) and returns it, in µs.
    pub fn next_time_us(&mut self) -> (r: usize)
        ensures
            r == vstd::wrapping::usize_specs::wrapping_add(old(self).monotonic_us, 100_000),
            final(self).monotonic_us == r,
            final(self).tasks == old(self).tasks,
            final(self).current == old(self).current,
            final(self).same_config(old(self)),
    {
        self.monotonic_us = self.monotonic_us.wrapping_add(100_000);
        self.monotonic_us
    }

    /// Whether `write` prints: the descriptor is 1 or 2 and the range is
    /// the task's.
    pub open spec fn write_allowed(&self, fd: usize, ptr: usize, len: usize) -> bool {
        (fd == 1 || fd == 2) && self.range_ok(ptr, len)
    }

    /// What `write` returns: the length when it prints, else -1.
    pub open spec fn write_ret(&self, fd: usize, ptr: usize, len: usize) -> isize {
        if self.write_allowed(fd, ptr, len) { len as isize } else { -1isize }
    }

    /// Prints `len` bytes at `ptr` to the console.
    pub fn sys_write(&self, fx: &mut Vec<Effect>, fd: usize, ptr: usize, len: usize) -> (r: isize)
        requires
            self.wf(),
        ensures
            r == self.write_ret(fd, ptr, len),
            !self.write_allowed(fd, ptr, len) ==> final(fx)@ == old(fx)@,
            self.write_allowed(fd, ptr, len) ==> final(fx)@ == old(fx)@.push(Effect::Print { from: ptr, len }),
    {
        if fd != 1 && fd != 2 {
            return -1;
        }
        if !self.valid_user_range(ptr, len) {
            return -1;
        }
        fx.push(Effect::Print { from: ptr, len });
        len as isize
    }

    /// Whether the time can be stored at `ptr`: aligned to a word and in
    /// the task's memory.
    pub open spec fn time_slot_ok(&self, ptr: usize) -> bool {
        ptr % 8 == 0 && self.range_ok(ptr, 16)
    }

    /// Stores the clock, advanced by 100 ms, as seconds and microseconds
    /// at `timespec_ptr`; -1, with the clock unchanged, for an address not
    /// aligned or not the task's.
    pub fn sys_clock_gettime(&mut self, fx: &mut Vec<Effect>, clock_id: usize, timespec_ptr: usize) -> (r: isize)
        requires
            old(self).wf(),
        ensures
            final(self).wf(),
            final(self).tasks == old(self).tasks,
            final(self).current == old(self).current,
            final(self).same_config(old(self)),
            !old(self).time_slot_ok(timespec_ptr) ==> r == -1 && final(fx)@ == old(fx)@ && final(self).monotonic_us
                == old(self).monotonic_us,
            old(self).time_slot_ok(timespec_ptr) ==> {
                let now = vstd::wrapping::usize_specs::wrapping_add(old(self).monotonic_us, 100_000);
                &&& r == 0
                &&& final(self).monotonic_us == now
                &&& final(fx)@ == old(fx)@.push(
                    Effect::StoreTime { at: timespec_ptr, sec: now / 1_000_000, usec: now % 1_000_000 },
                )
            },
    {
        if timespec_ptr % 8 != 0 || !self.valid_user_range(timespec_ptr, 16) {
            return -1;
        }
        let now = self.next_time_us();
        fx.push(Effect::StoreTime { at: timespec_ptr, sec: now / 1_000_000, usec: now % 1_000_000 });
        0
    }

    /// Whether `self` is `mid` with `value` in the running task's `a0` and
    /// its pc past the `ecall`.
    pub open spec fn returned(&self, mid: &TimeShare, value: usize) -> bool {
        &&& self.regs_returned(mid, value)
        &&& self.monotonic_us == mid.monotonic_us
    }

    /// Whether `self` is `mid` with `value` in the running task's `a0` and
    /// its pc past the `ecall`, the clock aside.
    pub open spec fn regs_returned(&self, mid: &TimeShare, value: usize) -> bool {
        &&& self.current == mid.current
        &&& self.tasks@ == mid.tasks@.update(mid.current as int, self.cur())
        &&& self.cur() == (TsTask { context: self.cur().context, ..mid.cur() })
        &&& ts_returned(self.cur().context, mid.cur().context, value)
        &&& self.same_config(mid)
    }

    /// Puts `value` in the running task's `a0` and moves its pc past the
    /// `ecall`.
    pub fn set_return(&mut self, value: usize)
        requires
            old(self).wf(),
        ensures
            final(self).wf(),
            final(self).returned(old(self), value),
    {
        let current = self.current;
        let mut t = self.tasks[current];
        t.context.x[10] = value;
        t.context.sepc = t.context.sepc.wrapping_add(4);
        self.tasks.set(current, t);
        proof {
            assert(t.context.x@ =~= old(self).cur().context.x@.update(10, value));
        }
    }

    /// Register `i` of the running task's saved context.
    pub open spec fn reg(&self, i: int) -> usize {
        self.cur().context.x@[i]
    }

    /// Whether `self`, `fx` and `r` are what the `ecall` of the running
    /// task of `old` leads to: `write` prints, `exit` ends the task,
    /// `clock_gettime` stores the time, `sched_yield` passes the processor
    /// on, and anything else returns -1; `r` is the task to resume.
    pub open spec fn ecall_outcome(&self, old: &TimeShare, old_fx: Seq<Effect>, fx: Seq<Effect>, r: Option<usize>) -> bool {
        let n = old.reg(17);
        let a0 = old.reg(10);
        let a1 = old.reg(11);
        let a2 = old.reg(12);
        if n == SYSCALL_WRITE {
            &&& r == Some(old.current)
            &&& self.returned(old, old.write_ret(a0, a1, a2) as usize)
            &&& old.write_allowed(a0, a1, a2) ==> fx == old_fx.push(Effect::Print { from: a1, len: a2 })
            &&& !old.write_allowed(a0, a1, a2) ==> fx == old_fx
        } else if n == SYSCALL_EXIT {
            &&& fx == old_fx
            &&& self.schedule_outcome(
                old,
                old.tasks@.update(old.current as int, TsTask { status: TASK_EXITED, exit_code: a0 as isize, ..old.cur() }),
                r,
            )
        } else if n == SYSCALL_CLOCK_GETTIME {
            let now = vstd::wrapping::usize_specs::wrapping_add(old.monotonic_us, 100_000);
            &&& r == Some(old.current)
            &&& old.time_slot_ok(a1) ==> {
                &&& self.regs_returned(old, 0)
                &&& self.monotonic_us == now
                &&& fx == old_fx.push(Effect::StoreTime { at: a1, sec: now / 1_000_000, usec: now % 1_000_000 })
            }
            &&& !old.time_slot_ok(a1) ==> self.returned(old, (-1isize) as usize) && fx == old_fx
        } else if n == SYSCALL_SCHED_YIELD {
            &&& fx == old_fx
            &&& exists|mid: TimeShare|
                #[trigger] mid.returned(old, 0) && self.schedule_outcome(&mid, ts_yielded(mid.tasks@, mid.current as int), r)
        } else {
            &&& r == Some(old.current)
            &&& fx == old_fx
            &&& self.returned(old, (-1isize) as usize)
        }
    }

    /// Handles an `ecall` of the running task; returns the task to resume,
    /// `None` when no task is left and the machine shuts down.
    pub fn handle_user_ecall(&mut self, fx: &mut Vec<Effect>) -> (r: Option<usize>)
        requires
            old(self).wf(),
            old(self).runnable(),
        ensures
            final(self).wf(),
            r matches Some(n) ==> n == final(self).current && final(self).runnable(),
            final(self).ecall_outcome(old(self), old(fx)@, final(fx)@, r),
    {
        let current = self.current;
        let n = self.tasks[current].context.x[17];
        let a0 = self.tasks[current].context.x[10];
        let a1 = self.tasks[current].context.x[11];
        let a2 = self.tasks[current].context.x[12];
        if n == SYSCALL_WRITE {
            let ret = self.sys_write(fx, a0, a1, a2);
            self.set_return(ret as usize);
            Some(current)
        } else if n == SYSCALL_EXIT {
            self.finish_current_task(TASK_EXITED, a0 as isize)
        } else if n == SYSCALL_CLOCK_GETTIME {
            let ret = self.sys_clock_gettime(fx, a0, a1);
            self.set_return(ret as usize);
            Some(current)
        } else if n == SYSCALL_SCHED_YIELD {
            self.set_return(0);
            let ghost mid = *self;
            let r = self.switch_to_next_task();
            assert(mid.returned(old(self), 0));
            r
        } else {
            self.set_return((-1isize) as usize);
            Some(current)
        }
    }

    /// Handles a trap of the running task with cause `scause`: a timer
    /// interrupt passes the processor on, an `ecall` is a call, and any
    /// other cause ends the task as faulted with -1.  Returns the task to
    /// resume, `None` when no task is left.
    pub fn rust_trap(&mut self, fx: &mut Vec<Effect>, scause: usize) -> (r: Option<usize>)
        requires
            old(self).wf(),
            old(self).runnable(),
        ensures
            final(self).wf(),
            r matches Some(n) ==> n == final(self).current && final(self).runnable(),
            scause & interrupt_bit() != 0 ==> final(fx)@ == old(fx)@ && final(self).schedule_outcome(
                old(self),
                ts_yielded(old(self).tasks@, old(self).current as int),
                r,
            ),
            scause & interrupt_bit() == 0 && scause == TS_SCAUSE_USER_ECALL ==> final(self).ecall_outcome(
                old(self),
                old(fx)@,
                final(fx)@,
                r,
            ),
            scause & interrupt_bit() == 0 && scause != TS_SCAUSE_USER_ECALL ==> final(fx)@ == old(fx)@ && final(self).schedule_outcome(
                old(self),
                old(self).tasks@.update(
                    old(self).current as int,
                    TsTask { status: TASK_FAULTED, exit_code: -1isize, ..old(self).cur() },
                ),
                r,
            ),
    {
        if scause & (1usize << (usize::BITS - 1)) != 0 {
            return self.switch_to_next_task();
        }
        if scause == TS_SCAUSE_USER_ECALL {
            self.handle_user_ecall(fx)
        } else {
            self.finish_current_task(TASK_FAULTED, -1)
        }
    }
}

} // verus!
