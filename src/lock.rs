//! A value behind a spinning lock, so that one allocator can serve callers
//! from several execution contexts, one at a time.
use vstd::prelude::*;

verus! {

#[verifier::external_type_specification]
#[verifier::external_body]
#[verifier::reject_recursive_types(T)]
pub struct ExMutex<T: ?Sized>(spin::Mutex<T>);

#[verifier::external_type_specification]
#[verifier::external_body]
#[verifier::reject_recursive_types(T)]
pub struct ExMutexGuard<'a, T: ?Sized + 'a>(spin::MutexGuard<'a, T>);

/// Relies on spin's `Mutex::new`: a free lock that owns `user_data`.
pub assume_specification<T>[ spin::Mutex::<T>::new ](user_data: T) -> spin::Mutex<T>;

/// Relies on spin's `Mutex::lock`: busy-waits until the lock is free, then
/// holds it until the returned guard is dropped, on every exit path.
pub assume_specification<'a, T: ?Sized>[ spin::Mutex::<T>::lock ](
    m: &'a spin::Mutex<T>,
) -> spin::MutexGuard<'a, T>;

/// A value that callers reach only while holding its lock. A context that
/// takes the lock while it already holds it, say from an interrupt handler
/// that allocates, spins forever.
#[verifier::reject_recursive_types(T)]
pub struct Locked<T> {
    inner: spin::Mutex<T>,
}

impl<T> Locked<T> {
    pub fn new(inner: T) -> Self {
        Locked { inner: spin::Mutex::new(inner) }
    }

    /// Waits for exclusive access; it ends when the guard is dropped.
    pub fn lock(&self) -> spin::MutexGuard<'_, T> {
        self.inner.lock()
    }
}

} // verus!
