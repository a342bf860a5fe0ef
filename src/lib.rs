//! A channel for requesting and receiving one value at a time. Each channel has
//! one requesting end and any number of responding ends; when several responders
//! race for one request, exactly one wins it.
//!
//! A ticket must be resolved before it goes: a request ticket by receiving the
//! value or by a successful cancel, a response ticket by sending. `close` ends a
//! ticket and reports whether it was resolved. Verus holds every `drop` to
//! neither unwind nor fault, so discarding an unresolved ticket cannot raise a
//! fault: it keeps its side of the channel locked instead, and no later ticket
//! of that side can be had.
use vstd::prelude::*;

pub mod cell;
pub mod protocol;
pub mod request;
pub mod response;

verus! {

use std::sync::Arc;
use crate::cell::{store_flag, swapped, Inner};
use crate::protocol::{cancel_outcome, receive_outcome, request_outcome, respond_outcome};

/// The conditions under which an attempt on the channel does not succeed.
#[derive(Debug, Clone, Copy, PartialEq, Eq)]
pub enum Error {
    /// Another ticket of the same side is alive.
    AlreadyLocked,
    /// The ticket has already received a value or been cancelled.
    Done,
    /// No value has been sent yet.
    Empty,
    /// There is no request to claim.
    NoRequest,
    /// A responder has already claimed the request.
    TooLate,
}

/// A result with its success value dropped.
pub open spec fn unit_of<V>(r: Result<V, Error>) -> Result<(), Error> {
    match r {
        Ok(_) => Ok(()),
        Err(e) => Err(e),
    }
}

/// The result of a cancel attempt on a ticket that is, or is not, resolved,
/// given whether the claim of the request was won by the requester.
pub fn cancel_decision(done: bool, claim_won: bool) -> (r: Result<(), Error>)
    ensures
        r == cancel_outcome(done, claim_won),
{
    if done {
        Err(Error::Done)
    } else if claim_won {
        Ok(())
    } else {
        Err(Error::TooLate)
    }
}

/// The result of a respond attempt, given whether the swap that takes the
/// response lock was won and whether the claim of the request was won.
pub fn respond_decision(lock_won: bool, claim_won: bool) -> (r: Result<(), Error>)
    ensures
        r == respond_outcome(!lock_won, claim_won),
{
    if !lock_won {
        Err(Error::AlreadyLocked)
    } else if claim_won {
        Ok(())
    } else {
        Err(Error::NoRequest)
    }
}

/// The result of a poll on a ticket that is, or is not, resolved, given what
/// the take on the cell gave.
pub fn poll_decision<T>(done: bool, got: Result<T, Error>) -> (r: Result<T, Error>)
    ensures
        done ==> r == receive_outcome(true, None::<T>),
        !done ==> r == got,
{
    if done { Err(Error::Done) } else { got }
}

/// Creates a channel and returns its requesting end and one responding end,
/// both over a fresh cell with every flag clear.
pub fn channel<T>() -> (r: (Requester<T>, Responder<T>))
    ensures
        r.0.inner == r.1.inner,
{
    let inner = Arc::new(Inner::new());
    (Requester { inner: inner.clone() }, Responder { inner })
}

/// The requesting end: issues requests, one at a time.
#[verifier::reject_recursive_types(T)]
pub struct Requester<T> {
    pub inner: Arc<Inner<T>>,
}

impl<T> Requester<T> {
    /// Issues a request: takes the request lock and flags the request. Gives an
    /// unresolved ticket on the same cell, or `AlreadyLocked` while another
    /// request ticket is alive; the lock's swap decides, through
    /// `lock_decision`.
    pub fn try_request(&self) -> (r: Result<RequestContract<T>, Error>)
        ensures
            exists|locked: bool| #[trigger] request_outcome(locked) == unit_of(r),
            r is Ok ==> !r->Ok_0.done && r->Ok_0.inner == self.inner,
    {
        match self.inner.try_lock_request() {
            Ok(()) => {
                self.inner.flag_request();
                let ticket = RequestContract { inner: self.inner.clone(), done: false };
                assert(request_outcome(false) == unit_of(Ok::<RequestContract<T>, Error>(ticket)));
                Ok(ticket)
            },
            Err(e) => {
                assert(request_outcome(true) == unit_of(Err::<RequestContract<T>, Error>(e)));
                Err(e)
            },
        }
    }
}

/// The ticket of one request. Resolve it, by receiving the value or by a
/// successful cancel, before it goes: dropping a resolved ticket frees the
/// requesting end, dropping an unresolved one keeps it locked.
#[verifier::reject_recursive_types(T)]
pub struct RequestContract<T> {
    pub inner: Arc<Inner<T>>,
    /// Whether the ticket is resolved.
    pub done: bool,
}

impl<T> RequestContract<T> {
    /// Polls for the value. `Done` once the ticket is resolved; else what the
    /// take on the cell gives: the value, which resolves the ticket, or `Empty`
    /// while none has been sent.
    pub fn try_receive(&mut self) -> (r: Result<T, Error>)
        ensures
            final(self).inner == old(self).inner,
            final(self).done == (old(self).done || r is Ok),
            exists|ready: Option<T>| #[trigger] receive_outcome(old(self).done, ready) == r,
    {
        let got = if self.done { Err(Error::Empty) } else { self.inner.try_get_datum() };
        let r = poll_decision(self.done, got);
        if r.is_ok() {
            self.done = true;
        }
        proof {
            if old(self).done {
                assert(receive_outcome(true, None::<T>) == r);
            } else if r is Ok {
                assert(receive_outcome(false, Some(r->Ok_0)) == r);
            } else {
                assert(receive_outcome(false, None::<T>) == r);
            }
        }
        r
    }

    /// Tries to withdraw the request. `Done` once the ticket is resolved; else
    /// the claim of the request decides, through `cancel_decision`: `Ok(())`,
    /// which resolves the ticket, when no responder had claimed it, and
    /// `TooLate` when one had: the value must then be received.
    pub fn try_cancel(&mut self) -> (r: Result<(), Error>)
        ensures
            final(self).inner == old(self).inner,
            final(self).done == (old(self).done || r is Ok),
            exists|pending: bool| #[trigger] cancel_outcome(old(self).done, pending) == r,
    {
        let claim_won = if self.done { false } else { self.inner.try_unflag_request().is_ok() };
        let r = cancel_decision(self.done, claim_won);
        if r.is_ok() {
            self.done = true;
        }
        r
    }

    /// Ends the ticket: `Ok(())` when it is resolved, which frees the requesting
    /// end; the ticket back, unchanged, when it is not.
    pub fn close(self) -> (r: Result<(), Self>)
        ensures
            r is Ok <==> self.done,
            r is Err ==> r->Err_0 == self,
    {
        if self.done { Ok(()) } else { Err(self) }
    }
}

impl<T> Drop for RequestContract<T> {
    /// Frees the requesting end when the ticket is resolved.
    fn drop(&mut self)
        opens_invariants none
        no_unwind
    {
        if self.done {
            store_flag(&self.inner.has_request_lock, false);
        }
    }
}

/// A responding end. Clones share the cell and race for the same requests.
#[verifier::reject_recursive_types(T)]
pub struct Responder<T> {
    pub inner: Arc<Inner<T>>,
}

impl<T> Responder<T> {
    /// Claims the pending request: takes the response lock, then clears the
    /// request flag; the two swaps decide, through `respond_decision`.
    /// `AlreadyLocked` while another response ticket is alive; `NoRequest`,
    /// with the response lock released again, when there is no request to
    /// claim; else an unsent ticket on the same cell.
    pub fn try_respond(&self) -> (r: Result<ResponseContract<T>, Error>)
        ensures
            exists|locked: bool, pending: bool| #[trigger] respond_outcome(locked, pending) == unit_of(r),
            r is Ok ==> !r->Ok_0.done && r->Ok_0.inner == self.inner,
    {
        let lock_won = self.inner.try_lock_response().is_ok();
        let claim_won = if lock_won { self.inner.try_unflag_request().is_ok() } else { false };
        match respond_decision(lock_won, claim_won) {
            Ok(()) => Ok(ResponseContract { inner: self.inner.clone(), done: false }),
            Err(e) => {
                if lock_won {
                    self.inner.unlock_response();
                }
                Err(e)
            },
        }
    }
}

impl<T> Clone for Responder<T> {
    fn clone(&self) -> (r: Self)
        ensures
            r.inner == self.inner,
    {
        Responder { inner: self.inner.clone() }
    }
}

/// The ticket of one claimed request. Send exactly one value with it: sending
/// consumes it and frees the responding side; dropping it unsent keeps that
/// side locked.
#[verifier::reject_recursive_types(T)]
pub struct ResponseContract<T> {
    pub inner: Arc<Inner<T>>,
    /// Whether the value was sent.
    pub done: bool,
}

impl<T> ResponseContract<T> {
    /// Delivers the value to the requesting end and gives up the ticket.
    pub fn send(self, datum: T) {
        let mut ticket = self;
        ticket.inner.set_datum(datum);
        ticket.done = true;
    }

    /// Ends the ticket: `Ok(())` when its value was sent, which frees the
    /// responding side; the ticket back, unchanged, when it was not.
    pub fn close(self) -> (r: Result<(), Self>)
        ensures
            r is Ok <==> self.done,
            r is Err ==> r->Err_0 == self,
    {
        if self.done { Ok(()) } else { Err(self) }
    }
}

impl<T> Drop for ResponseContract<T> {
    /// Frees the responding side when the value was sent.
    fn drop(&mut self)
        opens_invariants none
        no_unwind
    {
        if self.done {
            store_flag(&self.inner.has_response_lock, false);
        }
    }
}

} // verus!
