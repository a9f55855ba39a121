//! Storage that may be emptied and refilled through a shared reference.
//!
//! The primitives of this crate decide with their atomics who may touch a
//! payload; the payload itself rests in a [`Slot`], which is built on
//! `std::sync::Mutex` and never blocks: an access that finds the slot in use
//! by another thread reports so and leaves everything as it was.

use std::sync::Mutex;
use std::sync::MutexGuard;
use std::sync::TryLockError;
use vstd::prelude::*;

verus! {

/// `std::sync::Mutex`, carried as an opaque value: nothing is known of what
/// it holds.
#[verifier::external_type_specification]
#[verifier::external_body]
#[verifier::reject_recursive_types(T)]
pub struct ExMutex<T: ?Sized>(Mutex<T>);

/// `std::sync::MutexGuard`, carried as an opaque value.
#[verifier::external_type_specification]
#[verifier::external_body]
#[verifier::reject_recursive_types(T)]
pub struct ExMutexGuard<'a, T: ?Sized + 'a>(MutexGuard<'a, T>);

/// `Mutex::new` builds an unlocked mutex around `t`. Nothing is claimed of the
/// result.
pub assume_specification<T>[ Mutex::<T>::new ](t: T) -> (mutex: Mutex<T>);

/// Calls `Mutex::try_lock`, which never blocks. Assumed: the call returns
/// without unwinding. A poisoned mutex still yields its guard; `None` stands
/// for the one remaining outcome, that another guard is alive.
#[verifier::external_body]
fn claim<T>(mutex: &Mutex<T>) -> (guard: Option<MutexGuard<'_, T>>)
    opens_invariants none
    no_unwind
{
    match mutex.try_lock() {
        Ok(guard) => Some(guard),
        Err(TryLockError::Poisoned(poisoned)) => Some(poisoned.into_inner()),
        Err(TryLockError::WouldBlock) => None,
    }
}

/// Calls `DerefMut::deref_mut` of `MutexGuard`: exclusive access to what the
/// mutex holds, for as long as the guard is borrowed. Assumed: the call
/// returns without unwinding. Nothing is claimed of the value found.
#[verifier::external_body]
fn contents<'b, 'a, T>(guard: &'b mut MutexGuard<'a, T>) -> (value: &'b mut T)
    opens_invariants none
    no_unwind
{
    &mut **guard
}

/// Calls `Clone::clone` of `std::sync::Arc`, which makes another pointer to
/// the same allocation: the copy points at the value that `pointer` points at.
/// Assumed: the call returns without unwinding (std ends the process where
/// its own count would overflow).
#[verifier::external_body]
pub(crate) fn share<T>(pointer: &std::sync::Arc<T>) -> (copy: std::sync::Arc<T>)
    ensures
        copy == *pointer,
    opens_invariants none
    no_unwind
{
    pointer.clone()
}

/// Calls `std::sync::Arc::get_mut`, which lends the pointee only if no other
/// `std::sync::Arc` or `std::sync::Weak` points at the allocation. What is
/// written through the reference is what the pointer points at afterwards;
/// without a reference nothing changes.
#[verifier::external_body]
pub(crate) fn sole_mut<T>(pointer: &mut std::sync::Arc<T>) -> (value: Option<&mut T>)
    ensures
        match value {
            Some(inner) => *inner == **old(pointer) && **final(pointer) == *final(inner),
            None => *final(pointer) == *old(pointer),
        },
{
    std::sync::Arc::get_mut(pointer)
}

/// A place for at most one `T`, reachable from several threads at once.
#[verifier::reject_recursive_types(T)]
pub struct Slot<T> {
    inner: Mutex<Option<T>>,
}

/// What a look into a [`Slot`] finds.
pub enum Glimpse<T> {
    /// Another thread is using the slot at this moment.
    Busy,
    /// The slot holds nothing.
    Empty,
    /// The slot holds a value, of which this is a copy.
    Holds(T),
}

impl<T> Slot<T> {
    /// A slot that starts out holding `value`.
    pub fn new(value: Option<T>) -> (slot: Self) {
        Slot { inner: Mutex::new(value) }
    }

    /// Swaps what the slot holds with `*held`.
    ///
    /// Returns `false`, and leaves both sides as they were, if another thread
    /// is using the slot at this moment. What comes out of a slot shared with
    /// other threads is whatever they last left there, so nothing is promised
    /// of `*held` after a swap that took place.
    pub fn exchange(&self, held: &mut Option<T>) -> (swapped: bool)
        ensures
            !swapped ==> *final(held) == *old(held),
        opens_invariants none
        no_unwind
    {
        match claim(&self.inner) {
            Some(mut guard) => {
                let stored = contents(&mut guard);
                std::mem::swap(stored, held);
                true
            },
            None => false,
        }
    }

    /// Moves out what the slot holds and leaves it empty. `None` if the slot
    /// was empty or in use by another thread.
    pub fn take(&self) -> (value: Option<T>)
        opens_invariants none
        no_unwind
    {
        let mut held: Option<T> = None;
        let _ = self.exchange(&mut held);
        held
    }

    /// Stores `value` and hands back, as `Ok`, what it displaced. If the slot
    /// is in use by another thread nothing is stored, and `value` itself
    /// comes back as `Err`.
    pub fn put(&self, value: T) -> (displaced: Result<Option<T>, T>)
        ensures
            displaced matches Err(back) ==> back == value,
        opens_invariants none
        no_unwind
    {
        let mut held: Option<T> = Some(value);
        if self.exchange(&mut held) {
            Ok(held)
        } else {
            match held {
                Some(back) => Err(back),
                None => Ok(None),
            }
        }
    }
}

/// What a look at the inside of a slot reports: a copy of the pointer found
/// there, or that there is none.
pub fn copy_of<T>(stored: &Option<std::sync::Arc<T>>) -> (found: Glimpse<std::sync::Arc<T>>)
    ensures
        found == match *stored {
            Some(pointer) => Glimpse::Holds(pointer),
            None => Glimpse::Empty,
        },
    opens_invariants none
    no_unwind
{
    match stored {
        Some(pointer) => Glimpse::Holds(share(pointer)),
        None => Glimpse::Empty,
    }
}

impl<T> Slot<std::sync::Arc<T>> {
    /// Looks at the pointer in the slot and copies it; the slot keeps its
    /// own.
    pub fn glimpse(&self) -> (found: Glimpse<std::sync::Arc<T>>)
        opens_invariants none
        no_unwind
    {
        match claim(&self.inner) {
            Some(mut guard) => {
                let stored = contents(&mut guard);
                copy_of(stored)
            },
            None => Glimpse::Busy,
        }
    }
}

} // verus!
