//! The trap handler of the chapter-seven kernel: system calls dispatched
//! on `a7`, faults and timer interrupts.

use vstd::prelude::*;

use super::kernel::{in_slot, Effect, Kernel, PHYS_LIMIT};
use super::task::Task;
use super::{
    TrapContext, SYSCALL_BRK, SYSCALL_CLOCK_GETTIME, SYSCALL_CLONE, SYSCALL_CLOSE, SYSCALL_EXECVE,
    SYSCALL_EXIT, SYSCALL_GETPID, SYSCALL_KILL, SYSCALL_OPENAT, SYSCALL_PIPE2, SYSCALL_READ,
    SYSCALL_RT_SIGACTION, SYSCALL_RT_SIGPROCMASK, SYSCALL_RT_SIGRETURN, SYSCALL_SCHED_YIELD,
    SYSCALL_WAIT4, SYSCALL_WRITE, TASK_EXITED, TASK_FAULTED, TASK_READY, TASK_RUNNING,
};

verus! {

/// The cause register's interrupt bit, on a 64-bit machine.
pub const SCAUSE_INTERRUPT: u64 = 0x8000_0000_0000_0000;

/// The cause of an environment call from user mode.
pub const SCAUSE_USER_ECALL: u64 = 8;

/// The tasks of `k` after the running one, if still running, became ready.
pub open spec fn yielded_tasks(k: &Kernel) -> Seq<Task> {
    if k.cur().status == TASK_RUNNING {
        k.tasks@.update(k.current as int, Task { status: TASK_READY, ..k.cur() })
    } else {
        k.tasks@
    }
}

impl Kernel {
    /// Register `i` of the running task's saved context.
    pub open spec fn reg(&self, i: int) -> usize {
        self.cur().context.x@[i]
    }

    /// Whether `self` is `mid` with `value` in the running task's `a0` and
    /// its pc past the `ecall`.
    pub open spec fn returned(&self, mid: &Kernel, value: usize) -> bool {
        let t = mid.cur();
        let c = self.cur().context;
        &&& self.tasks@ == mid.tasks@.update(mid.current as int, self.cur())
        &&& self.cur() == (Task { context: c, ..t })
        &&& c == (TrapContext { x: c.x, sepc: vstd::wrapping::usize_specs::wrapping_add(t.context.sepc, 4), ..t.context })
        &&& c.x@ == t.context.x@.update(10, value)
        &&& self.files@ == mid.files@
        &&& self.pipes@ == mid.pipes@
        &&& self.same_config(mid)
        &&& self.same_tables(mid)
    }

    /// Puts `value` in the running task's `a0` and moves its pc past the
    /// `ecall`.
    pub fn set_return(&mut self, value: usize)
        requires
            old(self).wf(),
            old(self).runnable(),
        ensures
            final(self).wf(),
            final(self).runnable(),
            final(self).returned(old(self), value),
    {
        let current = self.current;
        let mut t = self.tasks[current];
        t.context.x[10] = value;
        t.context.sepc = t.context.sepc.wrapping_add(4);
        let ghost prev = *self;
        self.tasks.set(current, t);
        proof {
            self.lemma_task_update_wf(&prev, current as int);
        }
    }

    /// Whether `self`, `mem` and `fx` are `old`, `old_mem` and `old_fx`
    /// after the running task's `ecall`: the system call named in `a7` ran
    /// on the arguments in `a0 .. a2`, its result was put in `a0` and the
    /// pc moved past the call, except where the call changes the running
    /// task's context itself (exit, yield, `sigreturn`, a successful
    /// `exec`); `r` is the task to resume, `None` when none is left.
    pub open spec fn ecall_outcome(
        &self,
        old: &Kernel,
        old_mem: Seq<u8>,
        mem: Seq<u8>,
        old_fx: Seq<Effect>,
        fx: Seq<Effect>,
        sstatus: usize,
        r: Option<usize>,
    ) -> bool {
        let n = old.reg(17);
        let a0 = old.reg(10);
        let a1 = old.reg(11);
        let a2 = old.reg(12);
        let here = Some(old.current);
        if n == SYSCALL_OPENAT {
            &&& r == here && mem == old_mem && fx == old_fx
            &&& exists|mid: Kernel, ret: isize|
                #[trigger] mid.open_outcome(old, old_mem, a0, a1, ret) && self.returned(&mid, ret as usize)
        } else if n == SYSCALL_CLOSE {
            &&& r == here && mem == old_mem && fx == old_fx
            &&& exists|mid: Kernel, ret: isize|
                #[trigger] mid.close_outcome(old, a0, ret) && self.returned(&mid, ret as usize)
        } else if n == SYSCALL_PIPE2 {
            &&& r == here && fx == old_fx
            &&& exists|mid: Kernel, ret: isize|
                #[trigger] mid.pipe_outcome(old, old_mem, mem, a0, ret) && self.returned(&mid, ret as usize)
        } else if n == SYSCALL_READ {
            &&& r == here && fx == old_fx
            &&& exists|mid: Kernel, ret: isize|
                #[trigger] mid.read_outcome(old, old_mem, mem, a0, a1, a2, ret) && self.returned(&mid, ret as usize)
        } else if n == SYSCALL_WRITE {
            &&& r == here && mem == old_mem
            &&& exists|mid: Kernel, ret: isize|
                #[trigger] mid.write_outcome(old, old_mem, old_fx, fx, a0, a1, a2, ret) && self.returned(&mid, ret as usize)
        } else if n == SYSCALL_EXIT {
            &&& mem == old_mem
            &&& self.schedule_outcome(
                old,
                old.tasks@.update(old.current as int, Task { status: TASK_EXITED, exit_code: a0 as isize, ..old.cur() }),
                old_fx,
                fx,
                r,
            )
        } else if n == SYSCALL_CLOCK_GETTIME {
            &&& r == here && fx == old_fx
            &&& exists|mid: Kernel, ret: isize|
                #[trigger] mid.clock_outcome(old, old_mem, mem, a1, ret) && self.returned(&mid, ret as usize)
        } else if n == SYSCALL_SCHED_YIELD {
            &&& mem == old_mem
            &&& exists|m1: Kernel, m2: Kernel|
                #![trigger m1.returned(old, 0), m2.deliver_outcome(&m1)]
                m1.returned(old, 0) && m2.deliver_outcome(&m1) && self.schedule_outcome(&m2, yielded_tasks(&m2), old_fx, fx, r)
        } else if n == SYSCALL_KILL {
            &&& r == here && mem == old_mem && fx == old_fx
            &&& exists|m1: Kernel, ret: isize, m2: Kernel|
                #![trigger m1.kill_outcome(old, a0, a1, ret), m2.returned(&m1, ret as usize)]
                m1.kill_outcome(old, a0, a1, ret) && m2.returned(&m1, ret as usize) && self.deliver_outcome(&m2)
        } else if n == SYSCALL_RT_SIGACTION {
            &&& r == here && fx == old_fx
            &&& exists|mid: Kernel, ret: isize|
                #[trigger] mid.sigaction_outcome(old, old_mem, mem, a0, a1, a2, ret) && self.returned(&mid, ret as usize)
        } else if n == SYSCALL_RT_SIGPROCMASK {
            &&& r == here && mem == old_mem && fx == old_fx
            &&& exists|mid: Kernel| #[trigger] mid.mask_outcome(old, a0) && self.returned(&mid, 0)
        } else if n == SYSCALL_RT_SIGRETURN {
            r == here && mem == old_mem && fx == old_fx && self.sigreturn_outcome(old)
        } else if n == SYSCALL_GETPID {
            r == here && mem == old_mem && fx == old_fx && self.returned(old, old.cur().pid)
        } else if n == SYSCALL_BRK {
            &&& r == here && mem == old_mem
            &&& exists|mid: Kernel, ret: isize|
                #[trigger] mid.sbrk_outcome(old, old_fx, fx, a0 as isize, ret) && self.returned(&mid, ret as usize)
        } else if n == SYSCALL_CLONE {
            &&& r == here && mem == old_mem
            &&& exists|mid: Kernel, ret: isize|
                #[trigger] mid.fork_result(old, old_fx, fx, ret) && self.returned(&mid, ret as usize)
        } else if n == SYSCALL_EXECVE {
            &&& r == here && mem == old_mem
            &&& exists|mid: Kernel, ret: isize|
                #[trigger] mid.exec_outcome(old, old_mem, old_fx, fx, a0, a1, sstatus, ret) && (ret < 0
                    ==> self.returned(&mid, ret as usize)) && (ret >= 0 ==> self.unchanged(&mid))
        } else if n == SYSCALL_WAIT4 {
            &&& r == here && fx == old_fx
            &&& exists|mid: Kernel, ret: isize|
                #[trigger] mid.wait_result(old, old_mem, mem, a0, a1, ret) && self.returned(&mid, ret as usize)
        } else {
            r == here && mem == old_mem && fx == old_fx && self.returned(old, (-1isize) as usize)
        }
    }

    /// Handles an `ecall` of the running task; returns the task to resume,
    /// `None` when no task is left and the machine shuts down.  `sstatus`
    /// is the machine's current one.
    #[verifier::spinoff_prover]
    #[verifier::rlimit(100)]
    pub fn handle_user_ecall(&mut self, mem: &mut Vec<u8>, fx: &mut Vec<Effect>, sstatus: usize) -> (r: Option<usize>)
        requires
            old(self).wf(),
            old(self).runnable(),
            old(mem)@.len() == old(self).slot_size,
        ensures
            final(self).wf(),
            final(mem)@.len() == old(mem)@.len(),
            r matches Some(n) ==> n == final(self).current && final(self).runnable(),
            final(self).ecall_outcome(old(self), old(mem)@, final(mem)@, old(fx)@, final(fx)@, sstatus, r),
    {
        let current = self.current;
        let n = self.tasks[current].context.x[17];
        let a0 = self.tasks[current].context.x[10];
        let a1 = self.tasks[current].context.x[11];
        let a2 = self.tasks[current].context.x[12];
        assert(n == old(self).reg(17) && a0 == old(self).reg(10) && a1 == old(self).reg(11) && a2 == old(self).reg(12));
        if n == SYSCALL_OPENAT {
            let ret = self.sys_open(mem, a0, a1);
            let ghost mid = *self;
            self.set_return(ret as usize);
            assert(mid.open_outcome(old(self), old(mem)@, a0, a1, ret) && self.returned(&mid, ret as usize));
            Some(current)
        } else if n == SYSCALL_CLOSE {
            let ret = self.sys_close(a0);
            let ghost mid = *self;
            self.set_return(ret as usize);
            assert(mid.close_outcome(old(self), a0, ret) && self.returned(&mid, ret as usize));
            Some(current)
        } else if n == SYSCALL_PIPE2 {
            let ret = self.sys_pipe(mem, a0);
            let ghost mid = *self;
            self.set_return(ret as usize);
            assert(mid.pipe_outcome(old(self), old(mem)@, mem@, a0, ret) && self.returned(&mid, ret as usize));
            Some(current)
        } else if n == SYSCALL_READ {
            let ret = self.sys_read(mem, a0, a1, a2);
            let ghost mid = *self;
            self.set_return(ret as usize);
            assert(mid.read_outcome(old(self), old(mem)@, mem@, a0, a1, a2, ret) && self.returned(&mid, ret as usize));
            Some(current)
        } else if n == SYSCALL_WRITE {
            let ret = self.sys_write(mem, fx, a0, a1, a2);
            let ghost mid = *self;
            self.set_return(ret as usize);
            assert(mid.write_outcome(old(self), old(mem)@, old(fx)@, fx@, a0, a1, a2, ret) && self.returned(&mid, ret as usize));
            Some(current)
        } else if n == SYSCALL_EXIT {
            self.finish_current_task(fx, TASK_EXITED, a0 as isize)
        } else if n == SYSCALL_CLOCK_GETTIME {
            let ret = self.sys_clock_gettime(mem, a0, a1);
            let ghost mid = *self;
            self.set_return(ret as usize);
            assert(mid.clock_outcome(old(self), old(mem)@, mem@, a1, ret) && self.returned(&mid, ret as usize));
            Some(current)
        } else if n == SYSCALL_SCHED_YIELD {
            self.set_return(0);
            let ghost m1 = *self;
            self.deliver_pending_signal();
            let ghost m2 = *self;
            assert(m1.returned(old(self), 0) && m2.deliver_outcome(&m1));
            let r = self.switch_to_next_task(fx);
            assert(yielded_tasks(&m2) == (if m2.cur().status == TASK_RUNNING {
                m2.tasks@.update(m2.current as int, Task { status: TASK_READY, ..m2.cur() })
            } else {
                m2.tasks@
            }));
            r
        } else if n == SYSCALL_KILL {
            let ret = self.sys_kill(a0, a1);
            let ghost m1 = *self;
            self.set_return(ret as usize);
            let ghost m2 = *self;
            self.deliver_pending_signal();
            assert(m1.kill_outcome(old(self), a0, a1, ret) && m2.returned(&m1, ret as usize) && self.deliver_outcome(&m2));
            Some(current)
        } else if n == SYSCALL_RT_SIGACTION {
            let ret = self.sys_sigaction(mem, a0, a1, a2);
            let ghost mid = *self;
            self.set_return(ret as usize);
            assert(mid.sigaction_outcome(old(self), old(mem)@, mem@, a0, a1, a2, ret) && self.returned(&mid, ret as usize));
            Some(current)
        } else if n == SYSCALL_RT_SIGPROCMASK {
            let ret = self.sys_sigprocmask(a0);
            let ghost mid = *self;
            self.set_return(ret as usize);
            assert(mid.mask_outcome(old(self), a0) && self.returned(&mid, 0));
            Some(current)
        } else if n == SYSCALL_RT_SIGRETURN {
            self.sys_sigreturn();
            Some(current)
        } else if n == SYSCALL_GETPID {
            let pid = self.current_pid();
            self.set_return(pid);
            Some(current)
        } else if n == SYSCALL_BRK {
            let ret = self.sys_sbrk(fx, a0 as isize);
            let ghost mid = *self;
            self.set_return(ret as usize);
            assert(mid.sbrk_outcome(old(self), old(fx)@, fx@, a0 as isize, ret) && self.returned(&mid, ret as usize));
            Some(current)
        } else if n == SYSCALL_CLONE {
            let ret = self.sys_fork(fx);
            let ghost mid = *self;
            self.set_return(ret as usize);
            assert(mid.fork_result(old(self), old(fx)@, fx@, ret) && self.returned(&mid, ret as usize));
            Some(current)
        } else if n == SYSCALL_EXECVE {
            let ret = self.sys_exec(mem, fx, a0, a1, sstatus);
            let ghost mid = *self;
            if ret < 0 {
                self.set_return(ret as usize);
            }
            assert(mid.exec_outcome(old(self), old(mem)@, old(fx)@, fx@, a0, a1, sstatus, ret) && (ret < 0
                ==> self.returned(&mid, ret as usize)) && (ret >= 0 ==> self.unchanged(&mid)));
            Some(current)
        } else if n == SYSCALL_WAIT4 {
            let ret = self.sys_wait(mem, a0, a1);
            let ghost mid = *self;
            self.set_return(ret as usize);
            assert(mid.wait_result(old(self), old(mem)@, mem@, a0, a1, ret) && self.returned(&mid, ret as usize));
            Some(current)
        } else {
            self.set_return((-1isize) as usize);
            Some(current)
        }
    }

    /// Handles a trap of the running task with cause `scause`: a timer
    /// interrupt switches tasks, an `ecall` is a system call, and any
    /// other exception ends the task with -1.  Returns the task to resume,
    /// `None` when no task is left.
    pub fn rust_trap(&mut self, mem: &mut Vec<u8>, fx: &mut Vec<Effect>, scause: u64, sstatus: usize) -> (r: Option<usize>)
        requires
            old(self).wf(),
            old(self).runnable(),
            old(mem)@.len() == old(self).slot_size,
        ensures
            final(self).wf(),
            final(mem)@.len() == old(mem)@.len(),
            r matches Some(n) ==> n == final(self).current && final(self).runnable(),
            scause & SCAUSE_INTERRUPT != 0 ==> final(mem)@ == old(mem)@ && final(self).schedule_outcome(
                old(self),
                yielded_tasks(old(self)),
                old(fx)@,
                final(fx)@,
                r,
            ),
            scause & SCAUSE_INTERRUPT == 0 && scause == SCAUSE_USER_ECALL ==> final(self).ecall_outcome(
                old(self),
                old(mem)@,
                final(mem)@,
                old(fx)@,
                final(fx)@,
                sstatus,
                r,
            ),
            scause & SCAUSE_INTERRUPT == 0 && scause != SCAUSE_USER_ECALL ==> final(mem)@ == old(mem)@
                && final(self).schedule_outcome(
                old(self),
                old(self).tasks@.update(
                    old(self).current as int,
                    Task { status: TASK_FAULTED, exit_code: -1isize, ..old(self).cur() },
                ),
                old(fx)@,
                final(fx)@,
                r,
            ),
    {
        if scause & SCAUSE_INTERRUPT != 0 {
            return self.switch_to_next_task(fx);
        }
        if scause == SCAUSE_USER_ECALL {
            self.handle_user_ecall(mem, fx, sstatus)
        } else {
            self.finish_current_task(fx, TASK_FAULTED, -1)
        }
    }
}

} // verus!
