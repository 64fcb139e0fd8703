//! Contexts of other address spaces, entered through a shared portal page.

use vstd::prelude::*;

use super::LocalContext;

pub mod multislot_portal;

pub use multislot_portal::MultislotPortal;

verus! {

/// `sstatus.SPP`: the previous privilege was supervisor.
pub const SSTATUS_SPP_BIT: usize = 0x100;
/// `sstatus.SIE`: supervisor interrupts are enabled.
pub const SSTATUS_SIE_BIT: usize = 0x2;

/// The thread pointer register value of a foreign context.
#[derive(Clone, Copy, PartialEq, Eq, Structural)]
pub struct TpReg(pub usize);

impl TpReg {
    /// Wraps a register value.
    pub fn new(value: usize) -> (r: Self)
        ensures
            r.0 == value,
    {
        TpReg(value)
    }

    /// The register value.
    pub fn get(self) -> (r: usize)
        ensures
            r == self.0,
    {
        self.0
    }
}

impl Default for TpReg {
    /// The zero register value.
    fn default() -> (r: Self)
        ensures
            r.0 == 0,
    {
        TpReg(0)
    }
}

impl From<usize> for TpReg {
    fn from(value: usize) -> (r: Self) {
        TpReg(value)
    }
}

impl vstd::std_specs::convert::FromSpecImpl<usize> for TpReg {
    open spec fn obeys_from_spec() -> bool {
        true
    }

    open spec fn from_spec(v: usize) -> TpReg {
        TpReg(v)
    }
}

impl From<TpReg> for usize {
    fn from(value: TpReg) -> (r: usize) {
        value.0
    }
}

impl vstd::std_specs::convert::FromSpecImpl<TpReg> for usize {
    open spec fn obeys_from_spec() -> bool {
        true
    }

    open spec fn from_spec(v: TpReg) -> usize {
        v.0
    }
}

/// The per-slot cache the portal code reads when it switches address
/// space: page table root, entry pc, first argument and status word.
#[derive(Clone, Copy)]
pub struct PortalCache {
    pub satp: usize,
    pub sepc: usize,
    pub a0: usize,
    pub sstatus: usize,
}

/// The `sstatus` value for a context with the given privilege and
/// interrupt enable: `SPP` for supervisor, `SIE` for interrupts.
pub open spec fn sstatus_of(supervisor: bool, interrupt: bool) -> usize {
    (if supervisor { SSTATUS_SPP_BIT } else { 0usize }) | (if interrupt {
        SSTATUS_SIE_BIT
    } else {
        0usize
    })
}

impl PortalCache {
    /// Fills the cache for one switch.
    pub fn init(&mut self, satp: usize, sepc: usize, a0: usize, supervisor: bool, interrupt: bool)
        ensures
            final(self).satp == satp,
            final(self).sepc == sepc,
            final(self).a0 == a0,
            final(self).sstatus == sstatus_of(supervisor, interrupt),
    {
        self.satp = satp;
        self.sepc = sepc;
        self.a0 = a0;
        self.sstatus = Self::compose_sstatus(supervisor, interrupt);
    }

    /// The status word with `SPP` and `SIE` set as asked.
    fn compose_sstatus(supervisor: bool, interrupt: bool) -> (r: usize)
        ensures
            r == sstatus_of(supervisor, interrupt),
    {
        let mut sstatus: usize = 0;
        if supervisor {
            sstatus = sstatus | SSTATUS_SPP_BIT;
        }
        if interrupt {
            sstatus = sstatus | SSTATUS_SIE_BIT;
        }
        proof {
            assert(0usize | SSTATUS_SPP_BIT == SSTATUS_SPP_BIT) by (bit_vector);
            assert(0usize | SSTATUS_SIE_BIT == SSTATUS_SIE_BIT) by (bit_vector);
            assert(0usize | 0usize == 0usize) by (bit_vector);
            assert(SSTATUS_SPP_BIT | 0usize == SSTATUS_SPP_BIT) by (bit_vector);
        }
        sstatus
    }

    /// The address of the cache in memory.
    #[verifier::external_body]
    pub fn address(&self) -> usize {
        core::ptr::from_ref(self).addr()
    }
}

impl Default for PortalCache {
    /// A cache of zeros.
    fn default() -> (r: Self)
        ensures
            r.satp == 0,
            r.sepc == 0,
            r.a0 == 0,
            r.sstatus == 0,
    {
        PortalCache { satp: 0, sepc: 0, a0: 0, sstatus: 0 }
    }
}

/// A context together with the page table root of its address space.
#[derive(Clone, Copy)]
pub struct ForeignContext {
    pub context: LocalContext,
    pub satp: usize,
}

impl ForeignContext {
    /// Pairs a context with an address space.
    pub fn new(context: LocalContext, satp: usize) -> (r: Self)
        ensures
            r.context == context,
            r.satp == satp,
    {
        ForeignContext { context, satp }
    }

    /// Writes what the portal needs to enter this context into `cache`.
    pub fn fill_cache(&self, cache: &mut PortalCache)
        ensures
            final(cache).satp == self.satp,
            final(cache).sepc == self.context.pc_view(),
            final(cache).a0 == self.context.regs()[10],
            final(cache).sstatus == sstatus_of(
                self.context.supervisor_view(),
                self.context.interrupt_view(),
            ),
    {
        cache.init(
            self.satp,
            self.context.pc(),
            self.context.a(0),
            self.context.supervisor,
            self.context.interrupt,
        );
    }
}

/// Something that names a portal slot.
pub trait SlotKey {
    /// The slot named.
    fn slot_index(&self) -> usize;
}

impl SlotKey for usize {
    /// A number names the slot of that number.
    fn slot_index(&self) -> (r: usize)
        ensures
            r == *self,
    {
        *self
    }
}

impl SlotKey for () {
    /// The unit key names slot 0.
    fn slot_index(&self) -> (r: usize)
        ensures
            r == 0,
    {
        0
    }
}

} // verus!
