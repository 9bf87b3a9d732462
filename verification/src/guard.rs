//! Reader-writer locks around the state that the handles to one record share.
//!
//! Each piece of shared state sits behind a lock of its own. A lock is taken for
//! one read or one write and released before the next is taken, so no two locks
//! are ever held together. What a lock holds can change between any two
//! acquisitions, so nothing here says what a reader finds.
//!
//! Everything in this file is taken on trust: the locks and their guards from
//! parking_lot, of which nothing is claimed, and `share` from std.

use parking_lot::{RwLock, RwLockReadGuard, RwLockWriteGuard};
use std::sync::Arc;
use vstd::prelude::*;

verus! {

/// parking_lot's `RawRwLock`, the lock without the data. Nothing is known of
/// its inside.
#[verifier::external_type_specification]
#[verifier::external_body]
pub struct ExRawRwLock(parking_lot::RawRwLock);

/// lock_api's `RwLock`, of which parking_lot's `RwLock` is the case with
/// `RawRwLock` for `R`. Nothing is known of its inside: two locks that are the
/// same value are the same lock, whatever they hold at the moment.
#[verifier::external_type_specification]
#[verifier::external_body]
#[verifier::reject_recursive_types(R)]
#[verifier::reject_recursive_types(T)]
pub struct ExRwLock<R, T: ?Sized>(parking_lot::lock_api::RwLock<R, T>);

/// Shared access to what a lock holds, for as long as the guard lives. It
/// holds parking_lot's `RwLockReadGuard`.
#[verifier::external_body]
#[verifier::reject_recursive_types(T)]
pub(crate) struct ReadGuard<'a, T> {
    held: RwLockReadGuard<'a, T>,
}

/// Exclusive access to what a lock holds, for as long as the guard lives. It
/// holds parking_lot's `RwLockWriteGuard`.
#[verifier::external_body]
#[verifier::reject_recursive_types(T)]
pub(crate) struct WriteGuard<'a, T> {
    held: RwLockWriteGuard<'a, T>,
}

/// `RwLock::new` of parking_lot: an unlocked lock around `value`.
#[verifier::external_body]
pub(crate) fn new_lock<T>(value: T) -> (lock: RwLock<T>) {
    RwLock::new(value)
}

/// `RwLock::read` of parking_lot: waits until no writer holds the lock, then
/// gives shared access. It would wait for ever on a thread that holds the write
/// guard of the same lock; no function of this crate takes a lock while it
/// holds a guard.
#[verifier::external_body]
pub(crate) fn read_lock<'a, T>(lock: &'a RwLock<T>) -> (guard: ReadGuard<'a, T>) {
    ReadGuard { held: lock.read() }
}

/// `RwLock::write` of parking_lot: waits until nobody holds the lock, then gives
/// exclusive access. It would wait for ever on a thread that holds a guard of
/// the same lock; no function of this crate takes a lock while it holds a
/// guard.
#[verifier::external_body]
pub(crate) fn write_lock<'a, T>(lock: &'a RwLock<T>) -> (guard: WriteGuard<'a, T>) {
    WriteGuard { held: lock.write() }
}

/// `Deref::deref` of parking_lot's read guard: what the lock holds.
#[verifier::external_body]
pub(crate) fn guarded<'g, 'a, T>(guard: &'g ReadGuard<'a, T>) -> (value: &'g T) {
    &*guard.held
}

/// `DerefMut::deref_mut` of parking_lot's write guard: what the lock holds,
/// to be changed in place.
#[verifier::external_body]
pub(crate) fn guarded_mut<'g, 'a, T>(guard: &'g mut WriteGuard<'a, T>) -> (value: &'g mut T) {
    &mut *guard.held
}

/// `Arc::clone` of std: one more handle to the same allocation.
#[verifier::external_body]
pub(crate) fn share<T>(cell: &Arc<T>) -> (other: Arc<T>)
    ensures
        other == *cell,
{
    Arc::clone(cell)
}

} // verus!
