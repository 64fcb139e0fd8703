//! The batch kernel of chapter two: the applications run one after the
//! other, each from the start of its load address with its own stack; a
//! program ends by `exit`, by a fault, or by an unknown call, and the
//! next one is loaded.  The kernel keeps only the number of the next
//! program; printing, loading and entering user mode are left to the code
//! that runs it.

use vstd::prelude::*;

use super::{TrapContext, SSTATUS_SPIE, SSTATUS_SPP, SYSCALL_EXIT, SYSCALL_WRITE};

verus! {

/// At most this many programs are run.
pub const MAX_PROGRAM_COUNT: usize = 8;
/// The largest image a load address takes.
pub const BATCH_LOAD_LIMIT: usize = 0x20_0000;
/// Cause of an `ecall` from user mode.
pub const SCAUSE_USER_ECALL: usize = 8;
/// Cause of an illegal instruction.
pub const SCAUSE_ILLEGAL_INSTRUCTION: usize = 2;
/// Cause of a store access fault.
pub const SCAUSE_STORE_FAULT: usize = 7;
/// Cause of a store page fault.
pub const SCAUSE_STORE_PAGE_FAULT: usize = 15;

/// Work the batch kernel leaves to the machine.
#[derive(Clone, Copy, Debug, PartialEq, Eq, Structural)]
pub enum Effect {
    /// Print the `len` bytes at address `from`.
    Print { from: usize, len: usize },
    /// Zero the load area at `base` and copy application `app` there (the
    /// machine shuts down when the image is larger than the area).
    LoadApp { app: usize, base: usize },
}

/// Where to enter a loaded program.
#[derive(Clone, Copy, Debug, PartialEq, Eq, Structural)]
pub struct Launch {
    /// The first instruction: the load address.
    pub entry: usize,
    /// The top of the program's stack.
    pub user_sp: usize,
}

/// The state of the batch: the program to run next, and where things are.
pub struct Batch {
    /// The number of the next program to run.
    pub current_program: usize,
    /// Load address of program 0.
    pub app_base: usize,
    /// Distance between load addresses.
    pub app_step: usize,
    /// Number of programs in the application table.
    pub app_count_raw: usize,
    /// Top of the kernel stack a finished program returns on.
    pub kernel_stack_top: usize,
    /// Address of the kernel code that runs the next program.
    pub user_return: usize,
    /// Tops of the program stacks; the last one serves every later program.
    pub stack_tops: [usize; 8],
}

/// The interrupt bit of `scause`: its highest bit.
pub open spec fn interrupt_bit() -> usize {
    1usize << ((usize::BITS - 1) as usize)
}

/// The cause of a trap: `scause` with its interrupt bit cleared.
pub open spec fn cause_of(scause: usize) -> usize {
    scause & !interrupt_bit()
}

/// The `sstatus` a program is entered with: `SPP` cleared and `SPIE` set.
pub open spec fn entry_sstatus_spec(current: usize) -> usize {
    (current & !SSTATUS_SPP) | SSTATUS_SPIE
}

/// The `sstatus` to enter a program with, from the current one.
pub fn entry_sstatus(current: usize) -> (r: usize)
    ensures
        r == entry_sstatus_spec(current),
{
    (current & !SSTATUS_SPP) | SSTATUS_SPIE
}

/// Whether `cx` is `old` after the program finished with `code`: `a0`
/// holds the code, the stack is the kernel's, it resumes in the kernel at
/// `user_return` with `SPP` and `SPIE` set and bit 0 cleared.
pub open spec fn finished(cx: TrapContext, old: TrapContext, code: isize, kernel_sp: usize, user_return: usize) -> bool {
    &&& cx.x@ == old.x@.update(10, code as usize).update(2, kernel_sp)
    &&& cx.sstatus == (old.sstatus | SSTATUS_SPP | SSTATUS_SPIE) & !1usize
    &&& cx.sepc == user_return
}

/// Whether `cx` is `old` with `value` in `a0` and the pc past the
/// `ecall`.
pub open spec fn returned(cx: TrapContext, old: TrapContext, value: usize) -> bool {
    &&& cx.x@ == old.x@.update(10, value)
    &&& cx.sstatus == old.sstatus
    &&& cx.sepc == vstd::wrapping::usize_specs::wrapping_add(old.sepc, 4)
}

/// `+ 1`, saturating.
pub open spec fn next_program(n: usize) -> usize {
    if n == usize::MAX { n } else { (n + 1) as usize }
}

/// The code a program ending by call `n` with argument `a0` ends with.
pub open spec fn call_exit_code(n: usize, a0: usize) -> isize {
    if n == SYSCALL_EXIT { a0 as isize } else { -1isize }
}

/// The code a program ending by a trap of cause `cause` ends with.
pub open spec fn fault_exit_code(cause: usize) -> isize {
    if cause == SCAUSE_ILLEGAL_INSTRUCTION || cause == SCAUSE_STORE_FAULT || cause == SCAUSE_STORE_PAGE_FAULT {
        0isize
    } else {
        1isize
    }
}

impl Batch {
    /// A batch at program 0.
    pub fn new(
        app_base: usize,
        app_step: usize,
        app_count_raw: usize,
        kernel_stack_top: usize,
        user_return: usize,
        stack_tops: [usize; 8],
    ) -> (r: Batch)
        ensures
            r.current_program == 0,
            r.app_base == app_base,
            r.app_step == app_step,
            r.app_count_raw == app_count_raw,
            r.kernel_stack_top == kernel_stack_top,
            r.user_return == user_return,
            r.stack_tops == stack_tops,
    {
        Batch { current_program: 0, app_base, app_step, app_count_raw, kernel_stack_top, user_return, stack_tops }
    }

    /// The number of programs run: the table's count, at most eight.
    pub open spec fn count(&self) -> usize {
        if self.app_count_raw < MAX_PROGRAM_COUNT { self.app_count_raw } else { MAX_PROGRAM_COUNT }
    }

    /// The number of programs run.
    pub fn app_count(&self) -> (r: usize)
        ensures
            r == self.count(),
    {
        if self.app_count_raw < MAX_PROGRAM_COUNT {
            self.app_count_raw
        } else {
            MAX_PROGRAM_COUNT
        }
    }

    /// The load address of program `index`.
    pub fn load_app(&self, fx: &mut Vec<Effect>, index: usize) -> (r: usize)
        requires
            self.app_base + self.app_step * index <= usize::MAX,
        ensures
            r == self.app_base + self.app_step * index,
            final(fx)@ == old(fx)@.push(Effect::LoadApp { app: index, base: r }),
    {
        proof {
            assert(0 <= self.app_step * index) by (nonlinear_arith);
        }
        let base = self.app_base + self.app_step * index;
        fx.push(Effect::LoadApp { app: index, base });
        base
    }

    /// The top of the stack of program `index`; programs from the eighth
    /// on share the last stack.
    pub fn user_stack_top(&self, index: usize) -> (r: usize)
        ensures
            r == self.stack_tops[if index < 7 { index as int } else { 7 }],
    {
        if index < 7 {
            self.stack_tops[index]
        } else {
            self.stack_tops[7]
        }
    }

    /// Loads the next program and says where to enter it; `None` after
    /// the last one, and the machine shuts down.
    pub fn run_next_program(&self, fx: &mut Vec<Effect>) -> (r: Option<Launch>)
        requires
            self.app_base + self.app_step * MAX_PROGRAM_COUNT <= usize::MAX,
        ensures
            self.current_program >= self.count() ==> r is None && final(fx)@ == old(fx)@,
            self.current_program < self.count() ==> r == Some(Launch {
                entry: (self.app_base + self.app_step * self.current_program) as usize,
                user_sp: self.stack_tops[if self.current_program < 7 { self.current_program as int } else { 7 }],
            }) && final(fx)@ == old(fx)@.push(Effect::LoadApp {
                app: self.current_program,
                base: (self.app_base + self.app_step * self.current_program) as usize,
            }),
    {
        let index = self.current_program;
        if index >= self.app_count() {
            return None;
        }
        proof {
            assert(self.app_step * index <= self.app_step * MAX_PROGRAM_COUNT) by (nonlinear_arith)
                requires
                    index < MAX_PROGRAM_COUNT,
            ;
        }
        let entry = self.load_app(fx, index);
        let user_sp = self.user_stack_top(index);
        Some(Launch { entry, user_sp })
    }

    /// Writes `len` bytes from `ptr` to the console; -1 unless `fd` is 1.
    pub fn sys_write(&self, fx: &mut Vec<Effect>, fd: usize, ptr: usize, len: usize) -> (r: isize)
        ensures
            fd != 1 ==> r == -1 && final(fx)@ == old(fx)@,
            fd == 1 ==> r == len as isize && final(fx)@ == old(fx)@.push(Effect::Print { from: ptr, len }),
    {
        if fd != 1 {
            return -1;
        }
        fx.push(Effect::Print { from: ptr, len });
        len as isize
    }

    /// Ends the running program with `code`: the next one is due, and the
    /// context returns into the kernel, which runs it.
    pub fn finish_current_program(&mut self, cx: &mut TrapContext, code: isize)
        ensures
            final(self).current_program == next_program(old(self).current_program),
            final(self).same_config(old(self)),
            finished(*final(cx), *old(cx), code, old(self).kernel_stack_top, old(self).user_return),
    {
        self.current_program = self.current_program.saturating_add(1);
        cx.x[10] = code as usize;
        cx.x[2] = self.kernel_stack_top;
        cx.sepc = self.user_return;
        cx.sstatus = (cx.sstatus | SSTATUS_SPP | SSTATUS_SPIE) & !1usize;
        proof {
            assert(cx.x@ =~= old(cx).x@.update(10, code as usize).update(2, self.kernel_stack_top));
        }
    }

    /// Everything but the program counter is the same.
    pub open spec fn same_config(&self, old: &Batch) -> bool {
        &&& self.app_base == old.app_base
        &&& self.app_step == old.app_step
        &&& self.app_count_raw == old.app_count_raw
        &&& self.kernel_stack_top == old.kernel_stack_top
        &&& self.user_return == old.user_return
        &&& self.stack_tops == old.stack_tops
    }

    /// Handles an `ecall`: `write` prints and resumes after the call,
    /// `exit` ends the program with its argument, anything else ends it
    /// with -1.
    pub fn handle_user_ecall(&mut self, cx: &mut TrapContext, fx: &mut Vec<Effect>)
        ensures
            final(self).same_config(old(self)),
            old(cx).x[17] == SYSCALL_WRITE ==> {
                &&& final(self).current_program == old(self).current_program
                &&& old(cx).x[10] != 1 ==> final(fx)@ == old(fx)@ && returned(*final(cx), *old(cx), (-1isize) as usize)
                &&& old(cx).x[10] == 1 ==> final(fx)@ == old(fx)@.push(
                    Effect::Print { from: old(cx).x[11], len: old(cx).x[12] },
                ) && returned(*final(cx), *old(cx), (old(cx).x[12] as isize) as usize)
            },
            old(cx).x[17] != SYSCALL_WRITE ==> {
                &&& final(fx)@ == old(fx)@
                &&& final(self).current_program == next_program(old(self).current_program)
                &&& finished(
                    *final(cx),
                    *old(cx),
                    call_exit_code(old(cx).x[17], old(cx).x[10]),
                    old(self).kernel_stack_top,
                    old(self).user_return,
                )
            },
    {
        let n = cx.x[17];
        if n == SYSCALL_WRITE {
            let ret = self.sys_write(fx, cx.x[10], cx.x[11], cx.x[12]);
            cx.x[10] = ret as usize;
            cx.sepc = cx.sepc.wrapping_add(4);
            proof {
                assert(cx.x@ =~= old(cx).x@.update(10, ret as usize));
            }
        } else if n == SYSCALL_EXIT {
            let code = cx.x[10] as isize;
            self.finish_current_program(cx, code);
        } else {
            self.finish_current_program(cx, -1);
        }
    }

    /// Handles a trap with cause `scause` (interrupt bit ignored): an
    /// `ecall` is a call; an illegal instruction or a store fault ends the
    /// program with 0, any other cause with 1.
    pub fn rust_trap(&mut self, cx: &mut TrapContext, fx: &mut Vec<Effect>, scause: usize)
        ensures
            final(self).same_config(old(self)),
            cause_of(scause) != SCAUSE_USER_ECALL ==> {
                &&& final(fx)@ == old(fx)@
                &&& final(self).current_program == next_program(old(self).current_program)
                &&& finished(
                    *final(cx),
                    *old(cx),
                    fault_exit_code(cause_of(scause)),
                    old(self).kernel_stack_top,
                    old(self).user_return,
                )
            },
            cause_of(scause) == SCAUSE_USER_ECALL && old(cx).x[17] == SYSCALL_WRITE ==> {
                &&& final(self).current_program == old(self).current_program
                &&& old(cx).x[10] != 1 ==> final(fx)@ == old(fx)@ && returned(*final(cx), *old(cx), (-1isize) as usize)
                &&& old(cx).x[10] == 1 ==> final(fx)@ == old(fx)@.push(
                    Effect::Print { from: old(cx).x[11], len: old(cx).x[12] },
                ) && returned(*final(cx), *old(cx), (old(cx).x[12] as isize) as usize)
            },
            cause_of(scause) == SCAUSE_USER_ECALL && old(cx).x[17] != SYSCALL_WRITE ==> {
                &&& final(fx)@ == old(fx)@
                &&& final(self).current_program == next_program(old(self).current_program)
                &&& finished(
                    *final(cx),
                    *old(cx),
                    call_exit_code(old(cx).x[17], old(cx).x[10]),
                    old(self).kernel_stack_top,
                    old(self).user_return,
                )
            },
    {
        let cause = scause & !(1usize << (usize::BITS - 1));
        if cause == SCAUSE_USER_ECALL {
            self.handle_user_ecall(cx, fx);
        } else if cause == SCAUSE_ILLEGAL_INSTRUCTION || cause == SCAUSE_STORE_FAULT || cause
            == SCAUSE_STORE_PAGE_FAULT {
            self.finish_current_program(cx, 0);
        } else {
            self.finish_current_program(cx, 1);
        }
    }
}

} // verus!
