use rcore_os::kernel_vm::{page_copy, PageCopy};

#[test]
fn data_lands_in_the_pages_it_overlaps() {
    assert_eq!(page_copy(0, 4, 4, 4096), Some(PageCopy { dst_offset: 4, src_offset: 0, len: 4 }));
    assert_eq!(page_copy(1, 4, 4, 4096), None);
    assert_eq!(page_copy(0, 4094, 4, 4096), Some(PageCopy { dst_offset: 4094, src_offset: 0, len: 2 }));
    assert_eq!(page_copy(1, 4094, 4, 4096), Some(PageCopy { dst_offset: 0, src_offset: 2, len: 2 }));
    assert_eq!(page_copy(0, 0, 0, 4096), None);
    assert_eq!(page_copy(2, 0, 10000, 4096), Some(PageCopy { dst_offset: 0, src_offset: 8192, len: 1808 }));
    assert_eq!(page_copy(0, usize::MAX - 1, 8, 4096), None);
}
