//! The exclusive-access primitive behind the shared store handle.
//!
//! Everything here is believed, not proved: each function is a single call
//! into `std::sync`, and its contract says only what the standard library
//! documents of that call.

use vstd::prelude::*;
use std::sync::{Arc, Mutex, MutexGuard};
use crate::model::TicketStore;

verus! {

/// `std::sync::Mutex`, carried through verified code as an opaque value.
#[verifier::external_type_specification]
#[verifier::external_body]
#[verifier::reject_recursive_types(T)]
pub struct ExMutex<T: ?Sized>(Mutex<T>);

/// `std::sync::MutexGuard`, carried through verified code as an opaque value.
#[verifier::external_type_specification]
#[verifier::external_body]
#[verifier::reject_recursive_types(T)]
pub struct ExMutexGuard<'a, T: ?Sized + 'a>(MutexGuard<'a, T>);

/// Calls `Mutex::new`. Nothing is claimed of the lock that comes back.
#[verifier::external_body]
pub(crate) fn guarded(store: TicketStore) -> Mutex<TicketStore> {
    Mutex::new(store)
}

/// Calls `Mutex::lock` and blocks until the lock is held. A poisoned lock
/// is taken all the same, so the call does not panic. Nothing is claimed of
/// the store behind the guard: it is whatever earlier holders left there.
///
/// `lock` may block forever if the calling thread already holds the lock.
/// Callers in this crate drop the guard before they return and never
/// acquire twice.
#[verifier::external_body]
pub(crate) fn acquire<'a>(lock: &'a Mutex<TicketStore>) -> MutexGuard<'a, TicketStore> {
    match lock.lock() {
        Ok(guard) => guard,
        Err(poisoned) => poisoned.into_inner(),
    }
}

/// Calls `MutexGuard::deref_mut`: exclusive access to the store behind a
/// held lock. Nothing is claimed of the store.
#[verifier::external_body]
pub(crate) fn store_mut<'a, 'b>(guard: &'a mut MutexGuard<'b, TicketStore>) -> &'a mut TicketStore {
    &mut **guard
}

/// Calls `MutexGuard::deref`: read access to the store behind a held lock.
/// Nothing is claimed of the store.
#[verifier::external_body]
pub(crate) fn store_ref<'a, 'b>(guard: &'a MutexGuard<'b, TicketStore>) -> &'a TicketStore {
    &**guard
}

/// Calls `Arc::clone`, which returns another pointer to the same
/// allocation: the copy is the same handle.
#[verifier::external_body]
pub(crate) fn share(handle: &Arc<Mutex<TicketStore>>) -> (copy: Arc<Mutex<TicketStore>>)
    ensures
        copy == *handle,
{
    Arc::clone(handle)
}

} // verus!
