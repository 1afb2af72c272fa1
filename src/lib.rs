//! A bump-pointer heap allocator for a freestanding kernel: the allocation
//! engine, its lock wrapper, a no-op allocator, and the plan that brings the
//! heap's pages online before the allocator is used.

pub mod align;
pub mod bump;
pub mod dummy;
pub mod lock;
pub mod region;
pub mod trace;
