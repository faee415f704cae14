//! The pieces of `std` that the shared core stands on and that the verifier
//! cannot look into. Nothing here is proved; each contract says what the
//! documentation of `std` says.
use std::cell::Cell;
use std::ops::Deref;
use std::ops::DerefMut;
use std::sync::atomic::AtomicU64;
use std::sync::atomic::Ordering;
use std::sync::RwLock;
use std::sync::RwLockReadGuard;
use std::sync::RwLockWriteGuard;
use std::sync::TryLockError;
use vstd::prelude::*;

verus! {

/// `std::sync::RwLock`, the storage of one slot. Opaque to the verifier.
#[verifier::external_type_specification]
#[verifier::external_body]
#[verifier::reject_recursive_types(T)]
pub struct ExRwLock<T: ?Sized>(RwLock<T>);

/// `std::sync::RwLockReadGuard`, shared access to a slot. Opaque.
#[verifier::external_type_specification]
#[verifier::external_body]
#[verifier::reject_recursive_types(T)]
pub struct ExRwLockReadGuard<'a, T: ?Sized>(RwLockReadGuard<'a, T>);

/// `std::sync::RwLockWriteGuard`, exclusive access to a slot. Opaque.
#[verifier::external_type_specification]
#[verifier::external_body]
#[verifier::reject_recursive_types(T)]
pub struct ExRwLockWriteGuard<'a, T: ?Sized + 'a>(RwLockWriteGuard<'a, T>);

/// `std::cell::Cell`, a counter that only its owning thread touches. Opaque.
#[verifier::external_type_specification]
#[verifier::external_body]
#[verifier::reject_recursive_types(T)]
pub struct ExCell<T: ?Sized>(Cell<T>);

/// `RwLock::new`: a slot that holds `value`. Nothing is claimed.
#[verifier::external_body]
pub(crate) fn slot_new<T>(value: T) -> RwLock<T> {
    RwLock::new(value)
}

/// `RwLock::try_read`: shared access to the slot if nobody holds it for
/// writing, without waiting. A poisoned lock is taken all the same. Which
/// answer comes depends on the other holders, so nothing is claimed.
#[verifier::external_body]
pub(crate) fn slot_try_read<'a, T>(slot: &'a RwLock<T>) -> Option<RwLockReadGuard<'a, T>> {
    match slot.try_read() {
        Ok(guard) => Some(guard),
        Err(TryLockError::Poisoned(poisoned)) => Some(poisoned.into_inner()),
        Err(TryLockError::WouldBlock) => None,
    }
}

/// `RwLock::try_write`: exclusive access to the slot if nobody holds it,
/// without waiting. A poisoned lock is taken all the same. Which answer
/// comes depends on the other holders, so nothing is claimed.
#[verifier::external_body]
pub(crate) fn slot_try_write<'a, T>(slot: &'a RwLock<T>) -> Option<RwLockWriteGuard<'a, T>> {
    match slot.try_write() {
        Ok(guard) => Some(guard),
        Err(TryLockError::Poisoned(poisoned)) => Some(poisoned.into_inner()),
        Err(TryLockError::WouldBlock) => None,
    }
}

/// `Deref::deref` of `RwLockReadGuard`: the value in the slot. Nothing is
/// claimed of it.
#[verifier::external_body]
pub(crate) fn read_guard_get<'a, 'b, T>(guard: &'b RwLockReadGuard<'a, T>) -> &'b T {
    guard.deref()
}

/// `Deref::deref` of `RwLockWriteGuard`: the value in the slot. Nothing is
/// claimed of it.
#[verifier::external_body]
pub(crate) fn write_guard_get<'a, 'b, T>(guard: &'b RwLockWriteGuard<'a, T>) -> &'b T {
    guard.deref()
}

/// `DerefMut::deref_mut` of `RwLockWriteGuard`: the value in the slot, to be
/// changed in place. Nothing is claimed of it.
#[verifier::external_body]
pub(crate) fn write_guard_get_mut<'a, 'b, T>(guard: &'b mut RwLockWriteGuard<'a, T>) -> &'b mut T {
    guard.deref_mut()
}

/// `AtomicU64::load` with acquire ordering. The word may have been stored
/// by the other thread, so nothing is claimed of it. The one thing claimed
/// is that the call does not unwind, which a guard's destructor has to
/// know: `load` panics only for the orderings `Release` and `AcqRel`.
#[verifier::external_body]
pub(crate) fn load_word(word: &AtomicU64) -> u64
    opens_invariants none
    no_unwind
{
    word.load(Ordering::Acquire)
}

/// `AtomicU64::compare_exchange_weak`, release on success and acquire on
/// failure: stores `new` if the word still holds `current`, and says whether
/// it did. It may fail even then, so nothing is claimed of the answer. The
/// one thing claimed is that the call does not unwind: it panics only for
/// a failure ordering of `Release` or `AcqRel`.
#[verifier::external_body]
pub(crate) fn exchange_word(word: &AtomicU64, current: u64, new: u64) -> bool
    opens_invariants none
    no_unwind
{
    word.compare_exchange_weak(current, new, Ordering::Release, Ordering::Acquire).is_ok()
}

/// `Cell::new`: a counter that starts at `value`. Nothing is claimed.
#[verifier::external_body]
pub(crate) fn counter_new(value: usize) -> Cell<usize> {
    Cell::new(value)
}

/// `Cell::get`: the counter's value. The verifier does not follow what was
/// stored, so nothing is claimed; the call cannot panic.
#[verifier::external_body]
pub(crate) fn counter_get(counter: &Cell<usize>) -> usize
    opens_invariants none
    no_unwind
{
    counter.get()
}

/// `Cell::set`: stores `value` in the counter. The call cannot panic.
#[verifier::external_body]
pub(crate) fn counter_set(counter: &Cell<usize>, value: usize)
    opens_invariants none
    no_unwind
{
    counter.set(value)
}

} // verus!
