use rcore_os::kernel_vm::{
    block_offset, entry_span, entry_vpn, extern_ppn, find_step, slot_step, translates, FindStep,
    SlotStep,
};

#[test]
fn walk_to_a_slot_descends_allocates_or_stops() {
    assert_eq!(slot_step(0, false, false), SlotStep::Here);
    assert_eq!(slot_step(0, true, true), SlotStep::Here);
    assert_eq!(slot_step(2, true, false), SlotStep::Descend);
    assert_eq!(slot_step(2, false, false), SlotStep::Allocate);
    assert_eq!(slot_step(1, true, true), SlotStep::Allocate);
}

#[test]
fn lookup_stops_at_invalid_or_leaf_entries() {
    assert_eq!(find_step(2, false, false), FindStep::Missing);
    assert_eq!(find_step(0, false, true), FindStep::Missing);
    assert_eq!(find_step(1, true, true), FindStep::Found);
    assert_eq!(find_step(0, true, false), FindStep::Found);
    assert_eq!(find_step(2, true, false), FindStep::Descend);
}

#[test]
fn translation_needs_a_valid_mapping_with_the_flags() {
    assert!(translates(true, true, 1, true));
    assert!(translates(true, false, 0, true));
    assert!(!translates(false, true, 0, true));
    assert!(!translates(true, false, 2, true));
    assert!(!translates(true, true, 0, false));
}

#[test]
fn entry_arithmetic() {
    assert_eq!(block_offset(0x8020_1234, 0x8020_0000), 0x1234);
    assert_eq!(block_offset(0, 1), usize::MAX);
    assert_eq!(entry_span(0, 512), 1);
    assert_eq!(entry_span(2, 512 * 512), 512 * 512);
    assert_eq!(entry_vpn(0x100, 3, 512), 0x100 + 3 * 512);
    assert_eq!(extern_ppn(0x80000, 0x10, 0x13), 0x80003);
}
