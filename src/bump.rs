//! The bump-pointer allocation engine.
//!
//! Allocation advances `next` through one contiguous region; freeing only
//! counts down, and the whole region is reclaimed at once when the count of
//! live allocations reaches zero. Memory of an allocation that outlives all
//! of its siblings is therefore held until every other allocation is freed
//! too.
use vstd::prelude::*;
use crate::align::{align_up, is_power_of_two, lemma_round_up, round_up};

verus! {

/// Why an allocator request was refused.
#[derive(Clone, Copy, Debug, PartialEq, Eq, Structural)]
pub enum HeapError {
    /// The tail of the region cannot hold the request.
    OutOfMemory,
    /// A free with no live allocation to account for it.
    ConsistencyViolation,
}

/// The abstract state of a bump allocator.
pub struct HeapState {
    pub heap_start: nat,
    /// One past the last byte of the region.
    pub heap_end: nat,
    pub next: nat,
    /// Live allocations.
    pub allocations: nat,
}

impl HeapState {
    /// The state before the region is handed over: all zero.
    pub open spec fn empty() -> HeapState {
        HeapState { heap_start: 0, heap_end: 0, next: 0, allocations: 0 }
    }

    /// The state right after the region `[start, start + size)` is handed over.
    pub open spec fn fresh(start: nat, size: nat) -> HeapState {
        HeapState { heap_start: start, heap_end: start + size, next: start, allocations: 0 }
    }

    pub open spec fn wf(self) -> bool {
        &&& self.heap_start <= self.next <= self.heap_end <= usize::MAX
        &&& self.allocations <= usize::MAX
        &&& self.allocations == 0 ==> self.next == self.heap_start
    }

    /// Where an allocation aligned to `align` would start.
    pub open spec fn alloc_start(self, align: nat) -> int {
        round_up(self.next as int, align as int)
    }

    /// Whether a request of `size` bytes aligned to `align` is granted: it
    /// fits in the tail of the region, and the count of live allocations
    /// still fits in a machine word.
    pub open spec fn can_alloc(self, size: nat, align: nat) -> bool {
        &&& self.alloc_start(align) + size <= self.heap_end
        &&& self.allocations < usize::MAX
    }

    pub open spec fn after_alloc(self, size: nat, align: nat) -> HeapState {
        if self.can_alloc(size, align) {
            HeapState {
                next: (self.alloc_start(align) + size) as nat,
                allocations: self.allocations + 1,
                ..self
            }
        } else {
            self
        }
    }

    pub open spec fn can_dealloc(self) -> bool {
        self.allocations > 0
    }

    pub open spec fn after_dealloc(self) -> HeapState {
        if self.allocations == 0 {
            self
        } else if self.allocations == 1 {
            HeapState { next: self.heap_start, allocations: 0, ..self }
        } else {
            HeapState { allocations: (self.allocations - 1) as nat, ..self }
        }
    }
}

/// A bump allocator over one region of addresses.
pub struct BumpAllocator {
    heap_start: usize,
    heap_end: usize,
    next: usize,
    allocations: usize,
}

impl View for BumpAllocator {
    type V = HeapState;

    closed spec fn view(&self) -> HeapState {
        HeapState {
            heap_start: self.heap_start as nat,
            heap_end: self.heap_end as nat,
            next: self.next as nat,
            allocations: self.allocations as nat,
        }
    }
}

/// `addr` rounded up to `align`, or `None` where that passes the top of the
/// address space.
fn checked_align_up(addr: usize, align: usize) -> (r: Option<usize>)
    requires
        align > 0,
    ensures
        r == (if round_up(addr as int, align as int) <= usize::MAX {
            Some(round_up(addr as int, align as int) as usize)
        } else {
            None::<usize>
        }),
{
    let remainder = addr % align;
    assert(remainder <= addr) by (nonlinear_arith)
        requires
            align > 0,
            remainder == addr % align,
    ;
    if remainder != 0 && addr - remainder > usize::MAX - align {
        None
    } else {
        Some(align_up(addr, align))
    }
}

impl BumpAllocator {
    #[verifier::type_invariant]
    spec fn inv(self) -> bool {
        self@.wf()
    }

    /// An allocator with no region yet; every request but an empty one at
    /// address zero fails until `init`.
    pub fn new() -> (r: BumpAllocator)
        ensures
            r@ == HeapState::empty(),
            r@.wf(),
    {
        BumpAllocator { heap_start: 0, heap_end: 0, next: 0, allocations: 0 }
    }

    /// Hands the region `[heap_start, heap_start + heap_size)` to the
    /// allocator, which then has no live allocation. The region must be
    /// mapped, writable, and used by nothing else.
    pub fn init(&mut self, heap_start: usize, heap_size: usize)
        requires
            heap_start + heap_size <= usize::MAX,
        ensures
            final(self)@ == HeapState::fresh(heap_start as nat, heap_size as nat),
            final(self)@.wf(),
    {
        *self = BumpAllocator {
            heap_start,
            heap_end: heap_start + heap_size,
            next: heap_start,
            allocations: 0,
        };
    }

    /// Allocates `size` bytes aligned to `align`, returning their first
    /// address, or `OutOfMemory` where the tail of the region cannot hold
    /// them. An end past the top of the address space is a failure, never a
    /// wrapped address.
    pub fn allocate(&mut self, size: usize, align: usize) -> (r: Result<usize, HeapError>)
        requires
            is_power_of_two(align),
        ensures
            final(self)@ == old(self)@.after_alloc(size as nat, align as nat),
            final(self)@.wf(),
            r == (if old(self)@.can_alloc(size as nat, align as nat) {
                Ok::<usize, HeapError>(old(self)@.alloc_start(align as nat) as usize)
            } else {
                Err::<usize, HeapError>(HeapError::OutOfMemory)
            }),
            r matches Ok(a) ==> a % align == 0 && old(self)@.next <= a && a + size
                == final(self)@.next,
    {
        proof {
            use_type_invariant(&*self);
            lemma_round_up(self.next as int, align as int);
        }
        if self.allocations == usize::MAX {
            return Err(HeapError::OutOfMemory);
        }
        let alloc_start = match checked_align_up(self.next, align) {
            Some(a) => a,
            None => return Err(HeapError::OutOfMemory),
        };
        let alloc_end = match alloc_start.checked_add(size) {
            Some(end) => end,
            None => return Err(HeapError::OutOfMemory),
        };
        if alloc_end > self.heap_end {
            Err(HeapError::OutOfMemory)
        } else {
            *self = BumpAllocator {
                heap_start: self.heap_start,
                heap_end: self.heap_end,
                next: alloc_end,
                allocations: self.allocations + 1,
            };
            Ok(alloc_start)
        }
    }

    /// Accounts for one freed allocation; when none is left live, `next`
    /// goes back to the start of the region. A free with no live allocation
    /// is refused with `ConsistencyViolation` and changes nothing.
    pub fn deallocate(&mut self) -> (r: Result<(), HeapError>)
        ensures
            final(self)@ == old(self)@.after_dealloc(),
            final(self)@.wf(),
            r == (if old(self)@.can_dealloc() {
                Ok::<(), HeapError>(())
            } else {
                Err::<(), HeapError>(HeapError::ConsistencyViolation)
            }),
    {
        proof {
            use_type_invariant(&*self);
        }
        if self.allocations == 0 {
            return Err(HeapError::ConsistencyViolation);
        }
        let allocations = self.allocations - 1;
        let next = if allocations == 0 {
            self.heap_start
        } else {
            self.next
        };
        *self = BumpAllocator {
            heap_start: self.heap_start,
            heap_end: self.heap_end,
            next,
            allocations,
        };
        Ok(())
    }

    pub fn heap_start(&self) -> (r: usize)
        ensures
            r == self@.heap_start,
    {
        self.heap_start
    }

    pub fn heap_end(&self) -> (r: usize)
        ensures
            r == self@.heap_end,
    {
        self.heap_end
    }

    pub fn next(&self) -> (r: usize)
        ensures
            r == self@.next,
    {
        self.next
    }

    pub fn allocations(&self) -> (r: usize)
        ensures
            r == self@.allocations,
    {
        self.allocations
    }
}

} // verus!
