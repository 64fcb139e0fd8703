use rcore_os::context::foreign::multislot_portal::MultislotPortal;
use rcore_os::context::foreign::{ForeignContext, PortalCache, SlotKey, TpReg};
use rcore_os::context::LocalContext;

#[test]
fn test_local_context_empty() {
    let ctx = LocalContext::empty();
    assert!(!ctx.supervisor);
    assert!(!ctx.interrupt);
    assert_eq!(ctx.pc(), 0);
    for i in 1..=31 {
        assert_eq!(ctx.x(i), 0);
    }
}

#[test]
fn test_local_context_user() {
    let pc = 0x1000;
    let ctx = LocalContext::user(pc);
    assert!(!ctx.supervisor);
    assert!(ctx.interrupt);
    assert_eq!(ctx.pc(), pc);
}

#[test]
fn test_local_context_thread() {
    let ctx = LocalContext::thread(0x2000, false);
    assert!(ctx.supervisor);
    assert!(!ctx.interrupt);
    assert_eq!(ctx.pc(), 0x2000);
}

#[test]
fn test_local_context_accessors() {
    let mut ctx = LocalContext::empty();
    *ctx.x_mut(1) = 0x11;
    *ctx.sp_mut() = 0x22;
    *ctx.a_mut(0) = 0x33;
    *ctx.a_mut(7) = 0x44;
    *ctx.pc_mut() = 0x55;

    assert_eq!(ctx.ra(), 0x11);
    assert_eq!(ctx.sp(), 0x22);
    assert_eq!(ctx.a(0), 0x33);
    assert_eq!(ctx.x(10), 0x33);
    assert_eq!(ctx.a(7), 0x44);
    assert_eq!(ctx.x(17), 0x44);
    assert_eq!(ctx.pc(), 0x55);
}

#[test]
fn test_move_next_uses_wrapping_add() {
    let mut ctx = LocalContext::empty();
    *ctx.pc_mut() = usize::MAX - 3;
    ctx.move_next();
    assert_eq!(ctx.pc(), 0);
}

#[test]
fn test_clone_is_deep_copy() {
    let mut original = LocalContext::user(0x3000);
    *original.sp_mut() = 0x1234;
    let cloned = original.clone();
    *original.sp_mut() = 0x5678;

    assert_eq!(cloned.pc(), 0x3000);
    assert_eq!(cloned.sp(), 0x1234);
}

#[test]
fn test_local_context_repr_c_size_is_stable() {
    let size = core::mem::size_of::<LocalContext>();
    assert!(size >= 264);
    assert!(size <= 280);
}

#[test]
fn test_portal_cache_init_matches_current_layout_rules() {
    let mut cache: PortalCache = PortalCache::default();
    cache.init(0x88, 0x99, 1, true, false);

    assert_eq!(cache.satp, 0x88);
    assert_eq!(cache.sepc, 0x99);
    assert_eq!(cache.a0, 1);
    assert_eq!(cache.sstatus, 1 << 8);
    assert_eq!(cache.address(), std::ptr::from_ref(&cache).addr());
}

#[test]
fn move_next_advances_one_instruction() {
    let mut ctx = LocalContext::thread(0x100, true);
    ctx.move_next();
    assert_eq!(ctx.pc(), 0x104);
    assert_eq!(LocalContext::default().pc(), 0);
}

#[test]
fn portal_cache_status_bits() {
    let mut cache = PortalCache::default();
    cache.init(1, 2, 3, false, true);
    assert_eq!(cache.sstatus, 1 << 1);
    cache.init(1, 2, 3, true, true);
    assert_eq!(cache.sstatus, (1 << 8) | (1 << 1));
    cache.init(1, 2, 3, false, false);
    assert_eq!(cache.sstatus, 0);
}

#[test]
fn foreign_context_fills_cache() {
    let mut ctx = LocalContext::thread(0x8020_0000, true);
    *ctx.a_mut(0) = 42;
    let foreign = ForeignContext::new(ctx, 0x8000_0000_0008_0000);
    let mut cache = PortalCache::default();
    foreign.fill_cache(&mut cache);
    assert_eq!(cache.satp, 0x8000_0000_0008_0000);
    assert_eq!(cache.sepc, 0x8020_0000);
    assert_eq!(cache.a0, 42);
    assert_eq!(cache.sstatus, (1 << 8) | (1 << 1));
}

#[test]
fn tp_reg_and_slot_keys() {
    let tp = TpReg::new(7);
    assert_eq!(tp.get(), 7);
    assert_eq!(usize::from(TpReg::from(9usize)), 9);
    assert!(TpReg::default() == TpReg(0));
    assert_eq!(5usize.slot_index(), 5);
    assert_eq!(().slot_index(), 0);
}

#[test]
fn multislot_portal_layout() {
    // header 16 + text align16(3 * 64) + 3 caches of 32
    assert_eq!(MultislotPortal::calculate_size(3), 16 + 192 + 96);
    // zero slots count as one
    assert_eq!(MultislotPortal::calculate_size(0), 16 + 64 + 32);
    let portal = MultislotPortal::header(3);
    assert_eq!(portal.slot_count(), 3);
    assert_eq!(portal.text_len(), 192);
    assert_eq!(portal.text_offset(), core::mem::size_of::<MultislotPortal>());
    assert_eq!(portal.cache_offset(0), 16 + 192);
    assert!(portal.cache_offset(1) > portal.cache_offset(0));
    assert!(portal.cache_offset(2) > portal.cache_offset(1));
}

#[test]
fn test_multislot_portal_offsets_are_monotonic() {
    let slots = 3;
    let size = MultislotPortal::calculate_size(slots);
    assert!(size > 0);
    let portal = MultislotPortal::header(slots);

    assert_eq!(portal.text_offset(), core::mem::size_of::<MultislotPortal>());
    assert!(portal.cache_offset(1) > portal.cache_offset(0));
    assert!(portal.cache_offset(2) > portal.cache_offset(1));
}
