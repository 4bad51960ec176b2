//! A value shared between threads: every handle reaches the same guarded
//! slot, and each read or write holds the slot's lock for its duration.
//!
//! A lock left poisoned by a panic inside a critical section is reported as
//! `CellError::PoisonedState` rather than panicking again.
use vstd::prelude::*;

verus! {

#[verifier::external_type_specification]
#[verifier::external_body]
#[verifier::reject_recursive_types(T)]
pub struct ExMutex<T: ?Sized>(std::sync::Mutex<T>);

/// Relies on `std::sync::Mutex::new`: a fresh, unlocked, unpoisoned mutex.
pub assume_specification<T>[ std::sync::Mutex::<T>::new ](t: T) -> std::sync::Mutex<T>;

/// Relies on `std::sync::Mutex::lock`: copies the guarded value out under the
/// lock, or gives `None` when the lock is poisoned. Which value is read depends
/// on the writes of other handles, so nothing is stated of it.
#[verifier::external_body]
fn lock_and_copy<T: Copy>(m: &std::sync::Mutex<T>) -> Option<T> {
    match m.lock() {
        Ok(g) => Some(*g),
        Err(_) => None,
    }
}

/// Relies on `std::sync::Mutex::lock`: clones the guarded value under the lock,
/// or gives `None` when the lock is poisoned. Which value is read depends on
/// the writes of other handles, so nothing is stated of it.
#[verifier::external_body]
fn lock_and_clone<T: Clone>(m: &std::sync::Mutex<T>) -> Option<T> {
    match m.lock() {
        Ok(g) => Some((*g).clone()),
        Err(_) => None,
    }
}

/// Relies on `std::sync::Mutex::lock`: replaces the guarded value under the
/// lock, or, when the lock is poisoned, leaves it and hands `v` back.
#[verifier::external_body]
fn lock_and_store<T>(m: &std::sync::Mutex<T>, v: T) -> (r: Result<(), T>)
    ensures
        r matches Err(x) ==> x == v,
{
    match m.lock() {
        Ok(mut g) => {
            *g = v;
            Ok(())
        },
        Err(_) => Err(v),
    }
}

/// Why the cell could not be accessed.
#[derive(PartialEq, Eq, Structural, Clone, Copy, Debug)]
pub enum CellError {
    /// A previous holder of the lock panicked while holding it.
    PoisonedState,
}

/// The library's outcome of a read for each outcome of the locked access:
/// a value read is handed on, and a poisoned lock is an error.
pub fn settle_read<T>(r: Option<T>) -> (o: Result<T, CellError>)
    ensures
        match r {
            Some(v) => o == Ok::<T, CellError>(v),
            None => o == Err::<T, CellError>(CellError::PoisonedState),
        },
{
    match r {
        Some(v) => Ok(v),
        None => Err(CellError::PoisonedState),
    }
}

/// The library's outcome of a write for each outcome of the locked access:
/// a stored value is success, and a poisoned lock is an error.
pub fn settle_write<T>(r: Result<(), T>) -> (o: Result<(), CellError>)
    ensures
        match r {
            Ok(()) => o == Ok::<(), CellError>(()),
            Err(_) => o == Err::<(), CellError>(CellError::PoisonedState),
        },
{
    match r {
        Ok(()) => Ok(()),
        Err(_) => Err(CellError::PoisonedState),
    }
}

/// A handle on a shared, lock-guarded value.
#[verifier::reject_recursive_types(T)]
pub struct SharedCell<T> {
    slot: std::sync::Arc<std::sync::Mutex<T>>,
}

impl<T> SharedCell<T> {
    /// Wraps `initial` in a fresh slot and returns its first handle.
    pub fn create(initial: T) -> SharedCell<T> {
        SharedCell { slot: std::sync::Arc::new(std::sync::Mutex::new(initial)) }
    }

    /// Another handle on the same slot; the value is not duplicated.
    pub fn clone_handle(&self) -> SharedCell<T> {
        SharedCell { slot: self.slot.clone() }
    }

    /// Replaces the slot's value with `v` under the lock. Fails only when the
    /// lock is poisoned.
    pub fn write(&self, v: T) -> (r: Result<(), CellError>)
        ensures
            r is Err ==> r == Err::<(), CellError>(CellError::PoisonedState),
    {
        settle_write(lock_and_store(&self.slot, v))
    }
}

impl<T: Copy> SharedCell<T> {
    /// A copy of the slot's value, taken under the lock. Fails only when the
    /// lock is poisoned.
    pub fn read_copy(&self) -> (r: Result<T, CellError>)
        ensures
            r is Err ==> r == Err::<T, CellError>(CellError::PoisonedState),
    {
        settle_read(lock_and_copy(&self.slot))
    }
}

impl<T: Clone> SharedCell<T> {
    /// A clone of the slot's value, taken under the lock. Fails only when the
    /// lock is poisoned.
    pub fn read_clone(&self) -> (r: Result<T, CellError>)
        ensures
            r is Err ==> r == Err::<T, CellError>(CellError::PoisonedState),
    {
        settle_read(lock_and_clone(&self.slot))
    }
}

} // verus!
