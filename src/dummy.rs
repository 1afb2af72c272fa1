//! An allocator for the time before the heap is mapped: it grants nothing,
//! so that an early request fails loudly rather than touching unmapped
//! memory.
use vstd::prelude::*;
use crate::bump::HeapError;

verus! {

pub struct Dummy;

impl Dummy {
    /// Refuses every request.
    pub fn allocate(&self, size: usize, align: usize) -> (r: Result<usize, HeapError>)
        ensures
            r == Err::<usize, HeapError>(HeapError::OutOfMemory),
    {
        Err(HeapError::OutOfMemory)
    }

    /// Nothing was ever granted, so every free is a consistency violation.
    pub fn deallocate(&self) -> (r: Result<(), HeapError>)
        ensures
            r == Err::<(), HeapError>(HeapError::ConsistencyViolation),
    {
        Err(HeapError::ConsistencyViolation)
    }
}

} // verus!
