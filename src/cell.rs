//! The shared cell behind one channel: four atomic flags and a one-value slot.
//!
//! Every operation here is a single attempt: one atomic step, no retry. What an
//! attempt observes depends on the other threads that share the cell, so the
//! contracts of the operations state what holds of every outcome; each turns
//! what it observed into its result through a decision function whose
//! contract is exact.
use vstd::prelude::*;

verus! {

use std::sync::Mutex;
use std::sync::atomic::{AtomicBool, Ordering};
use crate::Error;
use crate::protocol::{receive_outcome, request_outcome};

#[verifier::external_type_specification]
#[verifier::external_body]
#[verifier::reject_recursive_types(T)]
pub struct ExMutex<T: ?Sized>(Mutex<T>);

pub assume_specification<T>[ Mutex::<T>::new ](t: T) -> Mutex<T>;

/// Relies on `Mutex::lock` and `std::mem::replace`: puts `value` in the slot and
/// hands back what was there. A poisoned lock still gives access to the slot.
/// The flag protocol lets only one party touch the slot at a time, so the lock
/// is never contended and never waits.
#[verifier::external_body]
pub(crate) fn slot_replace<T>(slot: &Mutex<Option<T>>, value: Option<T>) -> Option<T> {
    let mut guard = slot.lock().unwrap_or_else(std::sync::PoisonError::into_inner);
    std::mem::replace(&mut *guard, value)
}

/// Relies on `AtomicBool::store`, which panics only for the orderings
/// `Acquire` and `AcqRel`: with `SeqCst` it returns normally and opens no
/// invariant, so it may run while a ticket is dropped.
#[verifier::external_body]
pub(crate) fn store_flag(flag: &AtomicBool, value: bool)
    opens_invariants none
    no_unwind
{
    flag.store(value, Ordering::SeqCst)
}

/// Whether a compare-and-swap attempt took place: `compare_exchange` returns
/// `Ok` exactly when the flag held the expected value and was swapped.
pub fn swapped(observed: Result<bool, bool>) -> (r: bool)
    ensures
        r == observed is Ok,
{
    observed.is_ok()
}

/// The result of an attempt on a lock: `Ok` when the swap that takes it was
/// won, `AlreadyLocked` when the lock was held.
pub fn lock_decision(won: bool) -> (r: Result<(), Error>)
    ensures
        r == request_outcome(!won),
{
    if won { Ok(()) } else { Err(Error::AlreadyLocked) }
}

/// The result of a claim: `Ok` when the swap that clears the request flag was
/// won, `NoRequest` when no request was pending.
pub fn claim_decision(won: bool) -> (r: Result<(), Error>)
    ensures
        won ==> r == Ok::<(), Error>(()),
        !won ==> r == Err::<(), Error>(Error::NoRequest),
{
    if won { Ok(()) } else { Err(Error::NoRequest) }
}

/// The result of a take: the value taken from the slot when the swap that
/// clears the ready flag was won, `Empty` otherwise.
pub fn take_decision<T>(ready_won: bool, taken: Option<T>) -> (r: Result<T, Error>)
    ensures
        r == receive_outcome(false, if ready_won { taken } else { None }),
{
    if ready_won {
        match taken {
            Some(datum) => Ok(datum),
            None => Err(Error::Empty),
        }
    } else {
        Err(Error::Empty)
    }
}

/// The shared cell. Each field is exposed so that its state can be inspected.
#[verifier::reject_recursive_types(T)]
pub struct Inner<T> {
    /// Set while a request ticket is alive.
    pub has_request_lock: AtomicBool,
    /// Set while a response ticket is alive.
    pub has_response_lock: AtomicBool,
    /// Set while a request is issued and not yet claimed or cancelled.
    pub has_request: AtomicBool,
    /// Set while the slot holds a value that was not yet received.
    pub has_datum: AtomicBool,
    /// The slot.
    pub datum: Mutex<Option<T>>,
}

impl<T> Inner<T> {
    /// A cell with every flag clear and an empty slot.
    pub fn new() -> (r: Inner<T>) {
        Inner {
            has_request_lock: AtomicBool::new(false),
            has_response_lock: AtomicBool::new(false),
            has_request: AtomicBool::new(false),
            has_datum: AtomicBool::new(false),
            datum: Mutex::new(None),
        }
    }

    /// Marks a request as issued. Only the holder of the request lock calls it.
    pub fn flag_request(&self) {
        store_flag(&self.has_request, true);
    }

    /// The claim: clears the request flag if it is set. Only the first of all
    /// concurrent callers succeeds; the others get `NoRequest`.
    pub fn try_unflag_request(&self) -> (r: Result<(), Error>)
        ensures
            r is Ok || r == Err::<(), Error>(Error::NoRequest),
    {
        let observed = self.has_request.compare_exchange(true, false, Ordering::SeqCst, Ordering::SeqCst);
        claim_decision(swapped(observed))
    }

    /// Stores a value in the slot, then marks it ready. Only the holder of the
    /// response lock that won the claim calls it.
    pub fn set_datum(&self, data: T) {
        let _ = slot_replace(&self.datum, Some(data));
        store_flag(&self.has_datum, true);
    }

    /// Clears the ready flag if it is set and takes the value out of the slot;
    /// `Empty` when no value is ready.
    pub fn try_get_datum(&self) -> (r: Result<T, Error>)
        ensures
            r is Ok || r == Err::<T, Error>(Error::Empty),
    {
        let observed = self.has_datum.compare_exchange(true, false, Ordering::SeqCst, Ordering::SeqCst);
        let ready_won = swapped(observed);
        let taken = if ready_won { slot_replace(&self.datum, None) } else { None };
        take_decision(ready_won, taken)
    }

    /// Takes the request lock if it is free; `AlreadyLocked` otherwise.
    pub fn try_lock_request(&self) -> (r: Result<(), Error>)
        ensures
            r is Ok || r == Err::<(), Error>(Error::AlreadyLocked),
    {
        let observed = self.has_request_lock.compare_exchange(false, true, Ordering::SeqCst, Ordering::SeqCst);
        lock_decision(swapped(observed))
    }

    /// Releases the request lock.
    pub fn unlock_request(&self) {
        store_flag(&self.has_request_lock, false);
    }

    /// Takes the response lock if it is free; `AlreadyLocked` otherwise.
    pub fn try_lock_response(&self) -> (r: Result<(), Error>)
        ensures
            r is Ok || r == Err::<(), Error>(Error::AlreadyLocked),
    {
        let observed = self.has_response_lock.compare_exchange(false, true, Ordering::SeqCst, Ordering::SeqCst);
        lock_decision(swapped(observed))
    }

    /// Releases the response lock.
    pub fn unlock_response(&self) {
        store_flag(&self.has_response_lock, false);
    }
}

} // verus!
