//! The reclamation quiescence step run between scenarios: forces deferred
//! memory-reclamation work of epoch-based maps to be collected so garbage
//! from one scenario does not bias the next measurement.
//!
//! The step also includes a bounded sleep of a configured duration; that
//! sleep is the caller's, performed before [`advance_reclamation_epochs`].

use vstd::prelude::*;

verus! {

/// Declares crossbeam_epoch's `Guard` so verified code can hold one; the
/// crate treats a guard as opaque.
#[verifier::external_type_specification]
#[verifier::external_body]
pub struct ExGuard(crossbeam_epoch::Guard);

/// Relies on crossbeam_epoch::pin: pins the current thread's epoch
/// participant and returns the guard keeping it pinned. Nothing further is
/// assumed of the returned guard.
#[verifier::external_body]
fn epoch_pin() -> crossbeam_epoch::Guard {
    crossbeam_epoch::pin()
}

/// Relies on crossbeam_epoch::Guard::flush: moves this thread's deferred
/// reclamation work to the global queue so it can be collected.
#[verifier::external_body]
fn guard_flush(guard: &crossbeam_epoch::Guard) {
    guard.flush()
}

/// Relies on crossbeam_epoch::Guard::repin: unpins and pins the thread
/// again, allowing the global epoch to advance past garbage this thread
/// still held.
#[verifier::external_body]
fn guard_repin(guard: &mut crossbeam_epoch::Guard) {
    guard.repin()
}

/// How many times the epoch is repinned per quiescence step.
pub const REPIN_ROUNDS: u64 = 32;

/// Pins the current thread, flushes its deferred reclamation work, and
/// repins the epoch a fixed number of times so that stale garbage is
/// reclaimed. A best-effort hygiene step with no return value and no
/// failure mode; it runs to completion unconditionally.
pub fn advance_reclamation_epochs() {
    let mut guard = epoch_pin();
    guard_flush(&guard);
    let mut round: u64 = 0;
    while round < REPIN_ROUNDS
        invariant
            round <= REPIN_ROUNDS,
        decreases REPIN_ROUNDS - round,
    {
        guard_repin(&mut guard);
        round = round + 1;
    }
}

} // verus!
