//! A one-bit request flag: a sender raises it, one of any number of receivers
//! lowers it, and the sender may withdraw it while nobody has.
use vstd::prelude::*;

verus! {

use std::sync::Arc;
use std::sync::atomic::{AtomicBool, Ordering};
use crate::cell::swapped;

/// The result of raising the flag, given whether the swap that raises it was
/// won.
pub fn send_decision(won: bool) -> (r: Result<(), SendError>)
    ensures
        won ==> r == Ok::<(), SendError>(()),
        !won ==> r == Err::<(), SendError>(SendError::UnreceivedValue),
{
    if won { Ok(()) } else { Err(SendError::UnreceivedValue) }
}

/// The result of withdrawing the flag, given whether the swap that lowers it
/// was won.
pub fn unsend_decision(won: bool) -> (r: Result<(), TryUnsendError>)
    ensures
        won ==> r == Ok::<(), TryUnsendError>(()),
        !won ==> r == Err::<(), TryUnsendError>(TryUnsendError::TooLate),
{
    if won { Ok(()) } else { Err(TryUnsendError::TooLate) }
}

/// Creates a flag, lowered, and its two ends.
pub fn channel() -> (r: (Sender, Receiver))
    ensures
        r.0.inner == r.1.inner,
{
    let inner = Arc::new(AtomicBool::new(false));
    (Sender { inner: inner.clone() }, Receiver { inner })
}

/// The end that raises the flag.
pub struct Sender {
    pub inner: Arc<AtomicBool>,
}

impl Sender {
    /// Raises the flag; `UnreceivedValue` when it is already raised.
    pub fn send(&self) -> (r: Result<(), SendError>)
        ensures
            r is Err ==> r->Err_0 == SendError::UnreceivedValue,
    {
        let observed = self.inner.compare_exchange(false, true, Ordering::Relaxed, Ordering::Relaxed);
        send_decision(swapped(observed))
    }

    /// Lowers the flag if it is still raised; `TooLate` when a receiver has
    /// already lowered it.
    pub fn try_unsend(&self) -> (r: Result<(), TryUnsendError>)
        ensures
            r is Err ==> r->Err_0 == TryUnsendError::TooLate,
    {
        let observed = self.inner.compare_exchange(true, false, Ordering::Relaxed, Ordering::Relaxed);
        unsend_decision(swapped(observed))
    }
}

/// An end that lowers the flag. Clones share it.
pub struct Receiver {
    pub inner: Arc<AtomicBool>,
}

impl Receiver {
    /// Lowers the flag; whether it was raised, that is whether this receiver
    /// won the swap and got the request (see `swapped`).
    pub fn receive(&self) -> bool {
        let observed = self.inner.compare_exchange(true, false, Ordering::Relaxed, Ordering::Relaxed);
        swapped(observed)
    }
}

impl Clone for Receiver {
    fn clone(&self) -> (r: Self)
        ensures
            r.inner == self.inner,
    {
        Receiver { inner: self.inner.clone() }
    }
}

/// Why a flag cannot be raised.
#[derive(Debug, Clone, Copy, PartialEq, Eq)]
pub enum SendError {
    /// The flag is raised and no receiver has lowered it yet.
    UnreceivedValue,
}

/// Why a flag cannot be withdrawn.
#[derive(Debug, Clone, Copy, PartialEq, Eq)]
pub enum TryUnsendError {
    /// A receiver has already lowered the flag.
    TooLate,
}

} // verus!
