//! The process-wide gate: a re-entrant lock that is held for the whole of
//! every operation which reads or changes the engine's current-context slot.
//!
//! The lock is `parking_lot::ReentrantMutex<()>`. It guards no data of its
//! own, and the verifier knows nothing of it: the items below only let
//! verified code make, take and keep the lock.

use vstd::prelude::*;

verus! {

/// `parking_lot::RawMutex`, the raw lock under the re-entrant one. Opaque.
#[verifier::external_type_specification]
#[verifier::external_body]
pub struct ExRawMutex(parking_lot::RawMutex);

/// `parking_lot::RawThreadId`, by which the lock knows its owner. Opaque.
#[verifier::external_type_specification]
#[verifier::external_body]
pub struct ExRawThreadId(parking_lot::RawThreadId);

/// `lock_api::ReentrantMutex`, of which `parking_lot::ReentrantMutex<T>` is
/// an instance. Opaque.
#[verifier::external_type_specification]
#[verifier::external_body]
#[verifier::reject_recursive_types(R)]
#[verifier::reject_recursive_types(G)]
#[verifier::reject_recursive_types(T)]
pub struct ExReentrantMutex<R, G, T: ?Sized>(parking_lot::lock_api::ReentrantMutex<R, G, T>);

/// Proof of holding the lock. It keeps a `parking_lot::ReentrantMutexGuard`,
/// whose drop releases the lock; nothing is known of it to the verifier.
#[verifier::external_body]
pub(crate) struct GateGuard<'a> {
    held: parking_lot::ReentrantMutexGuard<'a, ()>,
}

/// Calls `parking_lot::ReentrantMutex::new` on the unit value. Nothing is
/// claimed of the new lock.
#[verifier::external_body]
pub(crate) fn new_gate() -> parking_lot::ReentrantMutex<()> {
    parking_lot::ReentrantMutex::new(())
}

/// Calls `parking_lot::ReentrantMutex::lock`: blocks until no other thread
/// holds the lock, or returns at once when the calling thread holds it
/// already. Nothing is claimed of the guard that comes back.
///
/// The call panics only if one thread has taken the lock `usize::MAX` times
/// without releasing it. Every guard made here is released at the end of the
/// operation that took it, so the count never grows beyond the depth of
/// nested operations.
#[verifier::external_body]
pub(crate) fn hold<'a>(gate: &'a parking_lot::ReentrantMutex<()>) -> GateGuard<'a> {
    GateGuard { held: gate.lock() }
}

} // verus!
