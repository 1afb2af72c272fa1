use kernel_heap::align::{_align_up, align_up};
use kernel_heap::bump::{BumpAllocator, HeapError};
use kernel_heap::dummy::Dummy;
use kernel_heap::lock::Locked;

fn heap(start: usize, size: usize) -> BumpAllocator {
    let mut a = BumpAllocator::new();
    a.init(start, size);
    a
}

#[test]
fn two_allocations_then_reset() {
    let mut a = heap(0x1000, 4096);
    assert_eq!(a.allocate(100, 8), Ok(0x1000));
    assert_eq!(a.allocate(50, 16), Ok(0x1070));
    assert_eq!(a.next(), 0x1070 + 50);
    assert_eq!(a.allocations(), 2);
    assert_eq!(a.deallocate(), Ok(()));
    assert_eq!(a.next(), 0x1070 + 50);
    assert_eq!(a.deallocate(), Ok(()));
    assert_eq!(a.next(), 0x1000);
    assert_eq!(a.allocations(), 0);
}

#[test]
fn init_sets_bounds() {
    let a = heap(0x8000, 300);
    assert_eq!(a.heap_start(), 0x8000);
    assert_eq!(a.heap_end(), 0x8000 + 300);
    assert_eq!(a.next(), 0x8000);
    assert_eq!(a.allocations(), 0);
}

#[test]
fn allocations_are_aligned() {
    let mut a = heap(0x1001, 1 << 16);
    for shift in 0..12u32 {
        let align = 1usize << shift;
        match a.allocate(3, align) {
            Ok(addr) => assert_eq!(addr % align, 0),
            Err(e) => assert_eq!(e, HeapError::OutOfMemory),
        }
    }
    assert_eq!(a.allocate(1, 1 << 20), Err(HeapError::OutOfMemory));
}

#[test]
fn allocations_do_not_overlap() {
    let mut a = heap(0x1000, 4096);
    let requests = [(10usize, 1usize), (7, 8), (0, 4), (33, 32), (5, 2), (64, 64)];
    let mut previous_end = 0usize;
    for (i, &(size, align)) in requests.iter().enumerate() {
        let addr = a.allocate(size, align).unwrap();
        if i > 0 {
            assert!(addr >= previous_end);
        }
        previous_end = addr + size;
    }
    // A free that leaves allocations live does not rewind.
    assert_eq!(a.deallocate(), Ok(()));
    let addr = a.allocate(1, 1).unwrap();
    assert!(addr >= previous_end);
}

#[test]
fn bulk_reset_in_any_order() {
    let mut a = heap(0x1003, 4096);
    assert!(a.allocate(10, 4).is_ok());
    assert!(a.allocate(20, 8).is_ok());
    assert_eq!(a.deallocate(), Ok(()));
    assert!(a.allocate(30, 2).is_ok());
    assert_eq!(a.deallocate(), Ok(()));
    assert_eq!(a.deallocate(), Ok(()));
    assert_eq!(a.next(), 0x1003);
    assert_eq!(a.allocate(8, 64), Ok(0x1040));
}

#[test]
fn exhaustion_boundary() {
    let mut a = heap(0x2000, 4096);
    assert_eq!(a.allocate(4096, 1), Ok(0x2000));
    assert_eq!(a.allocate(4096, 1), Err(HeapError::OutOfMemory));
    assert_eq!(a.next(), 0x3000);
    assert_eq!(a.allocations(), 1);
}

#[test]
fn request_one_past_the_end_fails() {
    let mut a = heap(0x2000, 4096);
    assert_eq!(a.allocate(4097, 1), Err(HeapError::OutOfMemory));
    assert_eq!(a.allocate(4095, 2), Ok(0x2000));
    assert_eq!(a.allocate(1, 2), Err(HeapError::OutOfMemory));
    assert_eq!(a.allocate(1, 1), Ok(0x2000 + 4095));
}

#[test]
fn overflowing_size_fails() {
    let mut a = heap(0x1000, 4096);
    assert_eq!(a.allocate(usize::MAX, 1), Err(HeapError::OutOfMemory));
    assert_eq!(a.allocate(usize::MAX - 0x800, 1), Err(HeapError::OutOfMemory));
    assert_eq!(a.next(), 0x1000);
    assert_eq!(a.allocations(), 0);
}

#[test]
fn overflowing_alignment_fails() {
    let mut a = heap(usize::MAX - 10, 10);
    assert_eq!(a.allocate(1, 4096), Err(HeapError::OutOfMemory));
    assert_eq!(a.allocate(1, 1), Ok(usize::MAX - 10));
}

#[test]
fn free_without_allocation_is_refused() {
    let mut a = heap(0x1000, 4096);
    assert_eq!(a.deallocate(), Err(HeapError::ConsistencyViolation));
    assert_eq!(a.allocations(), 0);
    assert_eq!(a.allocate(1, 1), Ok(0x1000));
    assert_eq!(a.deallocate(), Ok(()));
    assert_eq!(a.deallocate(), Err(HeapError::ConsistencyViolation));
    assert_eq!(a.next(), 0x1000);
}

#[test]
fn uninitialized_allocator_grants_only_empty() {
    let mut a = BumpAllocator::new();
    assert_eq!(a.allocate(1, 1), Err(HeapError::OutOfMemory));
    assert_eq!(a.allocate(0, 1), Ok(0));
}

#[test]
fn align_up_by_remainder() {
    assert_eq!(align_up(0x1064, 16), 0x1070);
    assert_eq!(align_up(0x1000, 16), 0x1000);
    assert_eq!(align_up(0, 8), 0);
    assert_eq!(align_up(7, 3), 9);
    assert_eq!(align_up(1, 4096), 4096);
}

#[test]
fn align_up_by_mask() {
    assert_eq!(_align_up(0x1064, 16), 0x1070);
    assert_eq!(_align_up(0x1000, 16), 0x1000);
    assert_eq!(_align_up(0, 8), 0);
    assert_eq!(_align_up(5, 1), 5);
    assert_eq!(_align_up(4097, 4096), 8192);
}

#[test]
fn dummy_grants_nothing() {
    let d = Dummy;
    assert_eq!(d.allocate(8, 8), Err(HeapError::OutOfMemory));
    assert_eq!(d.allocate(0, 1), Err(HeapError::OutOfMemory));
    assert_eq!(d.deallocate(), Err(HeapError::ConsistencyViolation));
}

#[test]
fn locked_allocator_serves_through_the_lock() {
    let locked = Locked::new(BumpAllocator::new());
    locked.lock().init(0x1000, 4096);
    assert_eq!(locked.lock().allocate(100, 8), Ok(0x1000));
    assert_eq!(locked.lock().allocate(50, 16), Ok(0x1070));
    assert_eq!(locked.lock().deallocate(), Ok(()));
    assert_eq!(locked.lock().deallocate(), Ok(()));
    assert_eq!(locked.lock().next(), 0x1000);
}
