//! A one-value mailbox: senders put a value in, one receiver takes it out.
use vstd::prelude::*;

verus! {

use std::sync::Arc;
use std::sync::Mutex;
use std::sync::atomic::{AtomicBool, Ordering};
use crate::cell::{slot_replace, store_flag, swapped};

/// The result of a send, given what the mailbox held before the new value
/// went in: `Ok` when it was empty, `UnreceivedValue` when it still held one.
pub fn send_decision<T>(previous: &Option<T>) -> (r: Result<(), SendError>)
    ensures
        r is Ok <==> previous is None,
        r is Err ==> r->Err_0 == SendError::UnreceivedValue,
{
    match previous {
        None => Ok(()),
        Some(_) => Err(SendError::UnreceivedValue),
    }
}

/// The result of a take, given whether the swap that clears the ready flag was
/// won and what was taken from the mailbox then: the value, or `Empty`.
pub fn take_decision<T>(ready_won: bool, taken: Option<T>) -> (r: Result<T, TryReceiveError>)
    ensures
        ready_won && taken is Some ==> r == Ok::<T, TryReceiveError>(taken->Some_0),
        !(ready_won && taken is Some) ==> r == Err::<T, TryReceiveError>(TryReceiveError::Empty),
{
    if ready_won {
        match taken {
            Some(data) => Ok(data),
            None => Err(TryReceiveError::Empty),
        }
    } else {
        Err(TryReceiveError::Empty)
    }
}

/// Creates an empty mailbox and its two ends.
pub fn channel<T>() -> (r: (Sender<T>, Receiver<T>))
    ensures
        r.0.inner == r.1.inner,
{
    let inner = Arc::new(Inner { has_data: AtomicBool::new(false), data: Mutex::new(None) });
    (Sender { inner: inner.clone() }, Receiver { inner })
}

/// An end that puts values in. Clones share the mailbox.
#[verifier::reject_recursive_types(T)]
pub struct Sender<T> {
    pub inner: Arc<Inner<T>>,
}

impl<T> Sender<T> {
    /// Puts a value in the empty mailbox and marks it ready;
    /// `UnreceivedValue`, with the mailbox left as it was, when it still holds
    /// a value.
    pub fn send(&self, data: T) -> (r: Result<(), SendError>)
        ensures
            r is Err ==> r->Err_0 == SendError::UnreceivedValue,
    {
        let previous = slot_replace(&self.inner.data, Some(data));
        let r = send_decision(&previous);
        match previous {
            None => store_flag(&self.inner.has_data, true),
            Some(unreceived) => {
                let _ = slot_replace(&self.inner.data, Some(unreceived));
            },
        }
        r
    }
}

impl<T> Clone for Sender<T> {
    fn clone(&self) -> (r: Self)
        ensures
            r.inner == self.inner,
    {
        Sender { inner: self.inner.clone() }
    }
}

/// The end that takes values out.
#[verifier::reject_recursive_types(T)]
pub struct Receiver<T> {
    pub inner: Arc<Inner<T>>,
}

impl<T> Receiver<T> {
    /// Takes the value out when one is ready; `Empty` otherwise.
    pub fn try_receive(&self) -> (r: Result<T, TryReceiveError>)
        ensures
            r is Err ==> r->Err_0 == TryReceiveError::Empty,
    {
        let observed = self.inner.has_data.compare_exchange(true, false, Ordering::SeqCst, Ordering::SeqCst);
        let ready_won = swapped(observed);
        let taken = if ready_won { slot_replace(&self.inner.data, None) } else { None };
        take_decision(ready_won, taken)
    }
}

/// The mailbox shared by the ends.
#[verifier::reject_recursive_types(T)]
pub struct Inner<T> {
    /// Set while the mailbox holds a value that was not yet taken.
    pub has_data: AtomicBool,
    /// The value.
    pub data: Mutex<Option<T>>,
}

/// Why a value cannot be put in.
#[derive(Debug, Clone, Copy, PartialEq, Eq)]
pub enum SendError {
    /// The mailbox still holds a value.
    UnreceivedValue,
}

/// Why no value can be taken out.
#[derive(Debug, Clone, Copy, PartialEq, Eq)]
pub enum TryReceiveError {
    /// The mailbox holds no ready value.
    Empty,
}

} // verus!
