use rcore_os::linker::{AppMeta, KernelLayout, KernelRegionTitle, SCRIPT};

#[test]
fn test_script_not_empty() {
    assert!(!SCRIPT.is_empty());
    assert!(SCRIPT.len() > 100);
}

#[test]
fn test_script_contains_sections() {
    let script = SCRIPT;
    for needle in [".text", ".rodata", ".data", ".bss", ".boot", "__start", "__end"] {
        assert!(script.contains(needle), "missing section marker {needle}");
    }
    assert!(script.contains("riscv") || script.contains("RISCV"));
}

#[test]
fn test_kernel_layout_init_and_iter() {
    let layout = KernelLayout::init();
    assert_eq!(layout.start(), usize::MAX);
    assert_eq!(layout.end(), usize::MAX);
    assert_eq!(layout.len(), 0);

    let mut regions = Vec::new();
    let mut iter = layout.iter();
    while let Some(region) = iter.next() {
        regions.push(region);
    }
    assert_eq!(regions.len(), 4);
    assert!(matches!(regions[0].title, KernelRegionTitle::Text));
    assert!(matches!(regions[1].title, KernelRegionTitle::Rodata));
    assert!(matches!(regions[2].title, KernelRegionTitle::Data));
    assert!(matches!(regions[3].title, KernelRegionTitle::Boot));
    for region in &regions {
        assert!(region.range.start <= region.range.end);
        assert!(region.display_string().contains("0x"));
    }
}

#[test]
fn test_app_meta_structure() {
    assert_eq!(core::mem::size_of::<AppMeta>(), 32);
    assert!(core::mem::size_of::<rcore_os::linker::AppIterator>() > 0);
}

#[test]
fn region_display_and_iterator_size() {
    let layout = KernelLayout::init();
    let mut iter = layout.iter();
    assert_eq!(iter.size_hint(), (4, Some(4)));
    let first = iter.next().unwrap();
    assert_eq!(
        first.display_string(),
        "Text: [0xffffffffffffffff .. 0xffffffffffffffff)"
    );
    assert_eq!(first.clone(), first);
    assert_eq!(iter.size_hint(), (3, Some(3)));
}

#[test]
fn app_slot_copy_arithmetic() {
    static META: AppMeta = AppMeta { base: 0x8040_0000, step: 0x2_0000, count: 2, first: 0 };
    let mut it = META.iter();
    assert!(!it.contiguous());
    assert_eq!(it.advance(), Some(0));
    assert_eq!(it.advance(), Some(1));
    assert_eq!(it.advance(), None);
    let plan = it.slot_copy(1, 0x100);
    assert_eq!(plan.dst, 0x8042_0000);
    assert_eq!(plan.copy_len, 0x100);
    assert_eq!(plan.zero_len, 0x2_0000 - 0x100);
    assert_eq!(it.boundary_address(2), it.boundary_address(0) + 16);
    assert_eq!(rcore_os::linker::app::normalize_count(5), 5);
    let inplace = AppMeta::new(0, 0, 1, 0);
    assert_eq!(inplace.count, 1);
}

#[test]
fn region_titles_are_named_and_shown() {
    assert_eq!(KernelRegionTitle::Text.name(), "Text");
    assert_eq!(KernelRegionTitle::Rodata.name(), "Rodata");
    assert_eq!(KernelRegionTitle::Data.name(), "Data");
    assert_eq!(KernelRegionTitle::Boot.name(), "Boot");
}
