use kernel_heap::region::{
    page_range, HeapInit, InitAction, InitError, PageEvent, HEAP_SIZE, HEAP_START, PAGE_SIZE,
};

#[test]
fn heap_constants() {
    assert_eq!(HEAP_START, 0x4444_4444_0000);
    assert_eq!(HEAP_SIZE, 100 * 1024);
    assert_eq!(PAGE_SIZE, 4096);
}

#[test]
fn page_range_of_heap() {
    assert_eq!(page_range(HEAP_START, HEAP_SIZE), (HEAP_START, HEAP_START + 24 * 4096));
}

#[test]
fn page_range_of_unaligned_region() {
    assert_eq!(page_range(0x1234, 0x2000), (0x1000, 0x3000));
    assert_eq!(page_range(0x1fff, 2), (0x1000, 0x2000));
    assert_eq!(page_range(0x5000, 1), (0x5000, 0x5000));
}

#[test]
fn page_range_in_upper_half() {
    assert_eq!(page_range(0xffff_8000_0000_0123, 0x1000), (0xffff_8000_0000_0000, 0xffff_8000_0000_1000));
}

#[test]
fn init_maps_every_page_then_hands_over() {
    let mut plan = HeapInit::new(HEAP_START, HEAP_SIZE);
    let mut mapped = Vec::new();
    loop {
        match plan.next_action() {
            InitAction::MapPage { page } => {
                mapped.push(page);
                plan.record(PageEvent::Mapped);
            }
            InitAction::InitAllocator { start, size } => {
                assert_eq!((start, size), (HEAP_START, HEAP_SIZE));
                break;
            }
            InitAction::Abort(e) => panic!("unexpected failure {:?}", e),
        }
    }
    assert_eq!(mapped.len(), 25);
    for (k, page) in mapped.iter().enumerate() {
        assert_eq!(*page, HEAP_START + k as u64 * PAGE_SIZE);
    }
    // Events after the last page change nothing.
    plan.record(PageEvent::NoFrame);
    assert_eq!(plan.next_action(), InitAction::InitAllocator { start: HEAP_START, size: HEAP_SIZE });
}

#[test]
fn missing_frame_aborts() {
    let mut plan = HeapInit::new(0x1800, 0x2000);
    assert_eq!(plan.next_action(), InitAction::MapPage { page: 0x1000 });
    plan.record(PageEvent::Mapped);
    assert_eq!(plan.next_action(), InitAction::MapPage { page: 0x2000 });
    plan.record(PageEvent::NoFrame);
    assert_eq!(plan.next_action(), InitAction::Abort(InitError::FrameAllocationFailed));
    plan.record(PageEvent::Mapped);
    assert_eq!(plan.next_action(), InitAction::Abort(InitError::FrameAllocationFailed));
}

#[test]
fn refused_mapping_aborts() {
    let mut plan = HeapInit::new(0x1000, 1);
    assert_eq!(plan.next_action(), InitAction::MapPage { page: 0x1000 });
    plan.record(PageEvent::MapFailed);
    assert_eq!(plan.next_action(), InitAction::Abort(InitError::MappingFailed));
}
