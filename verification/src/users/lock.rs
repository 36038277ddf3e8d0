//! What this library assumes of the mutex of the standard library.
//!
//! Nothing here says what a locked value holds: between two acquisitions any
//! other holder may have changed it. A caller learns about the value only
//! from the value's own type.

use vstd::prelude::*;
use std::ops::{Deref, DerefMut};
use std::sync::{Mutex, MutexGuard, PoisonError};

verus! {

/// `std::sync::Mutex`, as an opaque type.
#[verifier::external_type_specification]
#[verifier::external_body]
#[verifier::reject_recursive_types(T)]
pub struct ExMutex<T: ?Sized>(Mutex<T>);

/// `std::sync::MutexGuard`, as an opaque type. Dropping a guard releases the
/// lock.
#[verifier::external_type_specification]
#[verifier::external_body]
#[verifier::reject_recursive_types(T)]
pub struct ExMutexGuard<'a, T: ?Sized + 'a>(MutexGuard<'a, T>);

/// `std::sync::PoisonError`, as an opaque type.
#[verifier::external_type_specification]
#[verifier::external_body]
#[verifier::reject_recursive_types(T)]
pub struct ExPoisonError<T>(PoisonError<T>);

/// `Mutex::new` wraps a value in an unlocked mutex. Nothing is claimed of
/// the result.
pub assume_specification<T>[ Mutex::<T>::new ](value: T) -> (mutex: Mutex<T>)
;

/// `Mutex::lock` blocks until the lock is free and returns a guard, or an
/// error where an earlier holder panicked with the lock held. Nothing is
/// claimed of the result. The standard library leaves open what happens when
/// the calling thread holds the lock already, so a caller must not hold a
/// guard of the same mutex when it calls this.
pub assume_specification<'a, T: ?Sized>[ Mutex::<T>::lock ](mutex: &'a Mutex<T>) -> (outcome:
    Result<MutexGuard<'a, T>, PoisonError<MutexGuard<'a, T>>>)
;

/// `Deref::deref` of a guard: shared access to the locked value. Nothing is
/// claimed of the value.
#[verifier::external_body]
pub(crate) fn locked<'a, 'b, T>(guard: &'a MutexGuard<'b, T>) -> (value: &'a T) {
    guard.deref()
}

/// `DerefMut::deref_mut` of a guard: exclusive access to the locked value.
/// Nothing is claimed of the value, before or after.
#[verifier::external_body]
pub(crate) fn locked_mut<'a, 'b, T>(guard: &'a mut MutexGuard<'b, T>) -> (value: &'a mut T) {
    guard.deref_mut()
}

} // verus!
