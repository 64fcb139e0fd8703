//! The saved register state of a RISC-V hart, as the kernel switches
//! between user programs and kernel threads.

use vstd::prelude::*;

pub mod foreign;

verus! {

/// Number of general purpose registers `x0` ..= `x31`.
pub const REGISTER_COUNT: usize = 32;
/// Number of argument registers `a0` ..= `a7`.
pub const ARGUMENT_REGISTER_COUNT: usize = 8;
/// `a0` is `x10`.
pub const ARGUMENT_REGISTER_BASE: usize = 10;
/// `sp` is `x2`.
pub const STACK_POINTER_INDEX: usize = 2;
/// `ra` is `x1`.
pub const RETURN_ADDRESS_INDEX: usize = 1;
/// Size in bytes of one (uncompressed) instruction.
pub const INSTRUCTION_SIZE: usize = 4;

/// A saved execution context: privilege, interrupt enable, program counter
/// and the 32 general purpose registers.
#[derive(Clone, Copy)]
pub struct LocalContext {
    pub supervisor: bool,
    pub interrupt: bool,
    pc: usize,
    registers: [usize; REGISTER_COUNT],
}

impl LocalContext {
    /// The saved program counter.
    pub closed spec fn pc_view(&self) -> usize {
        self.pc
    }

    /// The saved registers, `x0` first.
    pub closed spec fn regs(&self) -> Seq<usize> {
        self.registers@
    }

    /// A context always holds exactly 32 registers.
    pub proof fn lemma_regs_len(&self)
        ensures
            self.regs().len() == REGISTER_COUNT,
    {
    }

    /// Whether the context runs in supervisor mode.
    pub closed spec fn supervisor_view(&self) -> bool {
        self.supervisor
    }

    /// Whether interrupts are enabled in the context.
    pub closed spec fn interrupt_view(&self) -> bool {
        self.interrupt
    }

    /// Everything but the program counter and the registers is the same.
    pub open spec fn same_flags(&self, other: &LocalContext) -> bool {
        self.supervisor_view() == other.supervisor_view() && self.interrupt_view()
            == other.interrupt_view()
    }

    /// A context with every register, the pc and both flags zero.
    pub fn empty() -> (r: Self)
        ensures
            !r.supervisor_view(),
            !r.interrupt_view(),
            r.pc_view() == 0,
            r.regs().len() == REGISTER_COUNT,
            forall|i: int| 0 <= i < REGISTER_COUNT ==> r.regs()[i] == 0,
    {
        LocalContext { supervisor: false, interrupt: false, pc: 0, registers: [0usize; 32] }
    }

    /// A user-mode context that starts at `pc` with interrupts enabled.
    pub fn user(pc: usize) -> (r: Self)
        ensures
            !r.supervisor_view(),
            r.interrupt_view(),
            r.pc_view() == pc,
            r.regs() == LocalContext::empty_regs(),
    {
        let mut ctx = Self::empty();
        ctx.interrupt = true;
        ctx.pc = pc;
        proof {
            assert(ctx.regs() =~= LocalContext::empty_regs());
        }
        ctx
    }

    /// Thirty-two zero registers.
    pub open spec fn empty_regs() -> Seq<usize> {
        Seq::new(REGISTER_COUNT as nat, |i: int| 0usize)
    }

    /// A supervisor-mode (kernel thread) context starting at `pc`.
    pub fn thread(pc: usize, interrupt: bool) -> (r: Self)
        ensures
            r.supervisor_view(),
            r.interrupt_view() == interrupt,
            r.pc_view() == pc,
            r.regs() == LocalContext::empty_regs(),
    {
        let mut ctx = Self::empty();
        ctx.supervisor = true;
        ctx.interrupt = interrupt;
        ctx.pc = pc;
        proof {
            assert(ctx.regs() =~= LocalContext::empty_regs());
        }
        ctx
    }

    /// Checks a register index; an index out of range is an error of the
    /// caller, so the index must be in range.
    fn validate_index(index: usize) -> (r: usize)
        requires
            index < REGISTER_COUNT,
        ensures
            r == index,
    {
        index
    }

    /// Register `x{index}`.
    pub fn x(&self, index: usize) -> (r: usize)
        requires
            index < REGISTER_COUNT,
        ensures
            r == self.regs()[index as int],
    {
        self.registers[Self::validate_index(index)]
    }

    /// A mutable reference to register `x{index}`.
    pub fn x_mut(&mut self, index: usize) -> (r: &mut usize)
        requires
            index < REGISTER_COUNT,
        ensures
            *r == old(self).regs()[index as int],
            final(self).regs() == old(self).regs().update(index as int, *final(r)),
            final(self).pc_view() == old(self).pc_view(),
            final(self).same_flags(old(self)),
    {
        let index = Self::validate_index(index);
        &mut self.registers[index]
    }

    /// The return address register `ra` (`x1`).
    pub fn ra(&self) -> (r: usize)
        ensures
            r == self.regs()[RETURN_ADDRESS_INDEX as int],
    {
        self.x(RETURN_ADDRESS_INDEX)
    }

    /// The stack pointer `sp` (`x2`).
    pub fn sp(&self) -> (r: usize)
        ensures
            r == self.regs()[STACK_POINTER_INDEX as int],
    {
        self.x(STACK_POINTER_INDEX)
    }

    /// A mutable reference to the stack pointer.
    pub fn sp_mut(&mut self) -> (r: &mut usize)
        ensures
            *r == old(self).regs()[STACK_POINTER_INDEX as int],
            final(self).regs() == old(self).regs().update(STACK_POINTER_INDEX as int, *final(r)),
            final(self).pc_view() == old(self).pc_view(),
            final(self).same_flags(old(self)),
    {
        self.x_mut(STACK_POINTER_INDEX)
    }

    /// Argument register `a{index}`, that is `x{10 + index}`.
    pub fn a(&self, index: usize) -> (r: usize)
        requires
            index < ARGUMENT_REGISTER_COUNT,
        ensures
            r == self.regs()[ARGUMENT_REGISTER_BASE + index],
    {
        self.x(ARGUMENT_REGISTER_BASE + index)
    }

    /// A mutable reference to argument register `a{index}`.
    pub fn a_mut(&mut self, index: usize) -> (r: &mut usize)
        requires
            index < ARGUMENT_REGISTER_COUNT,
        ensures
            *r == old(self).regs()[ARGUMENT_REGISTER_BASE + index],
            final(self).regs() == old(self).regs().update(
                ARGUMENT_REGISTER_BASE + index,
                *final(r),
            ),
            final(self).pc_view() == old(self).pc_view(),
            final(self).same_flags(old(self)),
    {
        self.x_mut(ARGUMENT_REGISTER_BASE + index)
    }

    /// The saved program counter.
    pub fn pc(&self) -> (r: usize)
        ensures
            r == self.pc_view(),
    {
        self.pc
    }

    /// A mutable reference to the saved program counter.
    pub fn pc_mut(&mut self) -> (r: &mut usize)
        ensures
            *r == old(self).pc_view(),
            final(self).pc_view() == *final(r),
            final(self).regs() == old(self).regs(),
            final(self).same_flags(old(self)),
    {
        &mut self.pc
    }

    /// Advances the pc past the current instruction, wrapping on overflow.
    pub fn move_next(&mut self)
        ensures
            final(self).pc_view() == wrapping_add_usize(
                old(self).pc_view() as int,
                INSTRUCTION_SIZE as int,
            ),
            final(self).regs() == old(self).regs(),
            final(self).same_flags(old(self)),
    {
        self.pc = self.pc.wrapping_add(INSTRUCTION_SIZE);
    }
}

impl Default for LocalContext {
    /// The empty context.
    fn default() -> (r: Self)
        ensures
            !r.supervisor_view(),
            !r.interrupt_view(),
            r.pc_view() == 0,
            r.regs() == LocalContext::empty_regs(),
    {
        let r = Self::empty();
        proof {
            assert(r.regs() =~= LocalContext::empty_regs());
        }
        r
    }
}

/// `a + b` reduced modulo `usize::MAX + 1`, for `a, b` in range.
pub open spec fn wrapping_add_usize(a: int, b: int) -> int {
    if a + b > usize::MAX {
        a + b - (usize::MAX + 1)
    } else {
        a + b
    }
}

} // verus!
