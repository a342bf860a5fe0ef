//! The protocol of one channel as a state machine over the shared cell.
//!
//! Each operation of the handles and tickets is one step; steps of different
//! threads are taken in some total order, as the sequentially consistent flags
//! of the cell make them. The state also counts the live tickets of each side,
//! so that the guarantees of the channel can be stated and proved over every
//! sequence of steps.
//!
//! These guarantees are proved of this model. The executable code shares its
//! result functions (`request_outcome`, `receive_outcome`, `cancel_outcome`,
//! `respond_outcome`): its decision functions compute them exactly from what
//! the swaps on the cell observed. That each swap observes the state of this
//! model is what the atomic flags give, and is not proved here: the flags are
//! std atomics, whose values Verus does not track.
use vstd::prelude::*;

verus! {

use crate::Error;

/// The state of the shared cell and of the tickets on it.
pub struct CellState<T> {
    pub request_lock: bool,
    pub response_lock: bool,
    pub request_pending: bool,
    pub data_ready: bool,
    pub slot: Option<T>,
    /// Request tickets alive.
    pub request_tickets: nat,
    /// Response tickets alive.
    pub response_tickets: nat,
    /// Whether the live request ticket is resolved.
    pub request_resolved: bool,
    /// Whether a ticket was discarded before its work was done, which leaves
    /// its side locked for good.
    pub abandoned: bool,
}

/// One operation on the channel.
pub enum Op<T> {
    /// `Requester::try_request`.
    Request,
    /// `RequestContract::try_receive` on the live request ticket.
    Receive,
    /// `RequestContract::try_cancel` on the live request ticket.
    Cancel,
    /// Discarding the live request ticket.
    ReleaseRequest,
    /// `Responder::try_respond`, from any responder.
    Respond,
    /// `ResponseContract::send` on the live response ticket.
    Send(T),
    /// Discarding the live response ticket without sending.
    ReleaseResponse,
}

/// A fresh channel: every flag clear, the slot empty, no ticket alive.
pub open spec fn initial<T>() -> CellState<T> {
    CellState {
        request_lock: false,
        response_lock: false,
        request_pending: false,
        data_ready: false,
        slot: None,
        request_tickets: 0,
        response_tickets: 0,
        request_resolved: false,
        abandoned: false,
    }
}

/// What the cell keeps true at every point between steps.
pub open spec fn consistent<T>(s: CellState<T>) -> bool {
    &&& s.request_tickets <= (if s.request_lock { 1nat } else { 0nat })
    &&& s.response_tickets <= (if s.response_lock { 1nat } else { 0nat })
    &&& !s.abandoned ==> s.request_tickets == (if s.request_lock { 1nat } else { 0nat })
    &&& !s.abandoned ==> s.response_tickets == (if s.response_lock { 1nat } else { 0nat })
    &&& (s.slot is Some <==> s.data_ready)
    &&& s.request_pending ==> s.request_lock && !s.response_lock && !s.data_ready
        && !s.request_resolved
    &&& s.response_lock ==> s.request_lock && !s.request_pending && !s.data_ready
        && !s.request_resolved
    &&& s.data_ready ==> s.request_lock && !s.request_resolved
}

/// What a request gives when the request lock is, or is not, held.
pub open spec fn request_outcome(locked: bool) -> Result<(), Error> {
    if locked { Err(Error::AlreadyLocked) } else { Ok(()) }
}

/// What a poll gives on a ticket that is, or is not, resolved, with `ready`
/// the value that the cell holds ready for it, if any.
pub open spec fn receive_outcome<T>(resolved: bool, ready: Option<T>) -> Result<T, Error> {
    if resolved {
        Err(Error::Done)
    } else if ready is Some {
        Ok(ready->Some_0)
    } else {
        Err(Error::Empty)
    }
}

/// What a cancel attempt gives on a ticket that is, or is not, resolved, while
/// its request is, or is not, still unclaimed.
pub open spec fn cancel_outcome(resolved: bool, pending: bool) -> Result<(), Error> {
    if resolved {
        Err(Error::Done)
    } else if pending {
        Ok(())
    } else {
        Err(Error::TooLate)
    }
}

/// What a respond attempt gives when the response lock is, or is not, held,
/// and a request is, or is not, pending.
pub open spec fn respond_outcome(locked: bool, pending: bool) -> Result<(), Error> {
    if locked {
        Err(Error::AlreadyLocked)
    } else if pending {
        Ok(())
    } else {
        Err(Error::NoRequest)
    }
}

/// The result of a request in state `s`.
pub open spec fn request_result<T>(s: CellState<T>) -> Result<(), Error> {
    request_outcome(s.request_lock)
}

/// The result of a poll in state `s`.
pub open spec fn receive_result<T>(s: CellState<T>) -> Result<T, Error> {
    receive_outcome(s.request_resolved, if s.data_ready { s.slot } else { None })
}

/// The result of a cancel attempt in state `s`.
pub open spec fn cancel_result<T>(s: CellState<T>) -> Result<(), Error> {
    cancel_outcome(s.request_resolved, s.request_pending)
}

/// The result of a respond attempt in state `s`.
pub open spec fn respond_result<T>(s: CellState<T>) -> Result<(), Error> {
    respond_outcome(s.response_lock, s.request_pending)
}

/// The state after one operation. An operation on a ticket that is not alive
/// changes nothing.
pub open spec fn step<T>(s: CellState<T>, op: Op<T>) -> CellState<T> {
    match op {
        Op::Request => if request_result(s) is Ok {
            CellState {
                request_lock: true,
                request_pending: true,
                request_tickets: s.request_tickets + 1,
                request_resolved: false,
                ..s
            }
        } else {
            s
        },
        Op::Receive => if s.request_tickets > 0 && receive_result(s) is Ok {
            CellState { data_ready: false, slot: None, request_resolved: true, ..s }
        } else {
            s
        },
        Op::Cancel => if s.request_tickets > 0 && cancel_result(s) is Ok {
            CellState { request_pending: false, request_resolved: true, ..s }
        } else {
            s
        },
        Op::ReleaseRequest => if s.request_tickets == 0 {
            s
        } else if s.request_resolved {
            CellState {
                request_lock: false,
                request_tickets: (s.request_tickets - 1) as nat,
                request_resolved: false,
                ..s
            }
        } else {
            CellState {
                request_tickets: (s.request_tickets - 1) as nat,
                abandoned: true,
                ..s
            }
        },
        Op::Respond => if respond_result(s) is Ok {
            CellState {
                request_pending: false,
                response_lock: true,
                response_tickets: s.response_tickets + 1,
                ..s
            }
        } else {
            s
        },
        Op::Send(v) => if s.response_tickets == 0 {
            s
        } else {
            CellState {
                slot: Some(v),
                data_ready: true,
                response_lock: false,
                response_tickets: (s.response_tickets - 1) as nat,
                ..s
            }
        },
        Op::ReleaseResponse => if s.response_tickets == 0 {
            s
        } else {
            CellState {
                response_tickets: (s.response_tickets - 1) as nat,
                abandoned: true,
                ..s
            }
        },
    }
}

/// The state after a sequence of operations.
pub open spec fn run<T>(s: CellState<T>, ops: Seq<Op<T>>) -> CellState<T>
    decreases ops.len(),
{
    if ops.len() == 0 {
        s
    } else {
        step(run(s, ops.drop_last()), ops.last())
    }
}

/// Every step keeps the cell consistent.
pub proof fn lemma_step_keeps_consistent<T>(s: CellState<T>, op: Op<T>)
    requires
        consistent(s),
    ensures
        consistent(step(s, op)),
{
}

/// Every sequence of operations from a fresh channel ends in a state that
/// is consistent.
pub proof fn lemma_run_keeps_consistent<T>(ops: Seq<Op<T>>)
    ensures
        consistent(run(initial::<T>(), ops)),
    decreases ops.len(),
{
    if ops.len() > 0 {
        lemma_run_keeps_consistent(ops.drop_last());
        lemma_step_keeps_consistent(run(initial::<T>(), ops.drop_last()), ops.last());
    }
}

/// For every sequence of operations, at most one request ticket and at most one
/// response ticket are alive at once.
pub proof fn lemma_tickets_exclusive<T>(ops: Seq<Op<T>>)
    ensures
        run(initial::<T>(), ops).request_tickets <= 1,
        run(initial::<T>(), ops).response_tickets <= 1,
{
    lemma_run_keeps_consistent(ops);
}


/// A value that is sent is received exactly as it was sent, by the next poll
/// of the live request ticket, and once only: a further poll finds the ticket
/// resolved.
pub proof fn lemma_send_then_receive<T>(s: CellState<T>, v: T)
    requires
        consistent(s),
        s.request_tickets == 1,
        s.response_tickets == 1,
    ensures
        receive_result(step(s, Op::Send(v))) == Ok::<T, Error>(v),
        step(step(s, Op::Send(v)), Op::Receive).slot is None,
        receive_result(step(step(s, Op::Send(v)), Op::Receive)) == Err::<T, Error>(Error::Done),
{
}

/// A cancel made while the request is still unclaimed succeeds and resolves
/// the ticket.
pub proof fn lemma_cancel_before_claim<T>(s: CellState<T>)
    requires
        consistent(s),
        s.request_tickets == 1,
        s.request_pending,
    ensures
        cancel_result(s) == Ok::<(), Error>(()),
        step(s, Op::Cancel).request_resolved,
        !step(s, Op::Cancel).request_pending,
{
}

/// A cancel made after a responder has claimed the request fails with
/// `TooLate` and leaves the ticket unresolved: it is resolved by polling, and
/// discarding it before that keeps the requesting end locked.
pub proof fn lemma_cancel_after_claim<T>(s: CellState<T>)
    requires
        consistent(s),
        s.request_tickets == 1,
        !s.request_resolved,
        !s.request_pending,
    ensures
        cancel_result(s) == Err::<(), Error>(Error::TooLate),
        step(s, Op::Cancel) == s,
        step(step(s, Op::Cancel), Op::ReleaseRequest).request_lock,
{
}

/// A respond made while no request is pending, and no response ticket is
/// alive, gives `NoRequest` and leaves the response lock free.
pub proof fn lemma_respond_without_request<T>(s: CellState<T>)
    requires
        consistent(s),
        !s.request_pending,
        !s.response_lock,
    ensures
        respond_result(s) == Err::<(), Error>(Error::NoRequest),
        step(s, Op::Respond) == s,
        !step(s, Op::Respond).response_lock,
{
}

/// `n` responders in turn: each makes one respond attempt, and the winner sends
/// `v` at once. Gives the state after them, the number of tickets won and the
/// number of `NoRequest` answers.
pub open spec fn race<T>(s: CellState<T>, n: nat, v: T) -> (CellState<T>, nat, nat)
    decreases n,
{
    if n == 0 {
        (s, 0, 0)
    } else {
        let (t, won, refused) = race(s, (n - 1) as nat, v);
        if respond_result(t) is Ok {
            (step(step(t, Op::Respond), Op::Send(v)), won + 1, refused)
        } else if respond_result(t) == Err::<(), Error>(Error::NoRequest) {
            (t, won, refused + 1)
        } else {
            (t, won, refused)
        }
    }
}

/// Of `n` responders that race for one pending request, exactly one wins a
/// ticket and the other `n - 1` get `NoRequest`; the winner's value is then
/// ready for the requester.
pub proof fn lemma_one_responder_wins<T>(s: CellState<T>, n: nat, v: T)
    requires
        consistent(s),
        s.request_pending,
        n >= 1,
    ensures
        race(s, n, v).1 == 1,
        race(s, n, v).2 == n - 1,
        race(s, n, v).0 == step(step(s, Op::Respond), Op::Send(v)),
        receive_result(race(s, n, v).0) == Ok::<T, Error>(v),
    decreases n,
{
    if n > 1 {
        lemma_one_responder_wins(s, (n - 1) as nat, v);
        lemma_step_keeps_consistent(s, Op::Respond);
        lemma_step_keeps_consistent(step(s, Op::Respond), Op::Send(v));
        let t = race(s, (n - 1) as nat, v).0;
        assert(respond_result(t) == Err::<(), Error>(Error::NoRequest));
    } else {
        assert(race(s, 0, v) == (s, 0nat, 0nat));
    }
}

/// `n` respond attempts in a row, with no send between them.
pub open spec fn respond_times<T>(s: CellState<T>, n: nat) -> CellState<T>
    decreases n,
{
    if n == 0 { s } else { step(respond_times(s, (n - 1) as nat), Op::Respond) }
}

/// Of `n` responders that race for one pending request while the winner still
/// holds its ticket, exactly one ticket is given out: every later attempt finds
/// the response lock held and gets `AlreadyLocked`.
pub proof fn lemma_one_ticket_while_unsent<T>(s: CellState<T>, n: nat)
    requires
        consistent(s),
        s.request_pending,
        n >= 1,
    ensures
        respond_times(s, n) == step(s, Op::Respond),
        respond_times(s, n).response_tickets == 1,
        respond_result(respond_times(s, n)) == Err::<(), Error>(Error::AlreadyLocked),
    decreases n,
{
    if n > 1 {
        lemma_one_ticket_while_unsent(s, (n - 1) as nat);
    } else {
        assert(respond_times(s, 0) == s);
    }
}

/// Discarding a request ticket that is not resolved, or a response ticket that
/// has not sent, keeps its side locked: no later ticket of that side is given.
pub proof fn lemma_unresolved_discard_keeps_lock<T>(s: CellState<T>)
    requires
        consistent(s),
    ensures
        s.request_tickets == 1 && !s.request_resolved ==> {
            let t = step(s, Op::ReleaseRequest);
            &&& t.request_tickets == 0
            &&& t.abandoned
            &&& request_result(t) == Err::<(), Error>(Error::AlreadyLocked)
        },
        s.response_tickets == 1 ==> {
            let t = step(s, Op::ReleaseResponse);
            &&& t.response_tickets == 0
            &&& t.abandoned
            &&& respond_result(t) == Err::<(), Error>(Error::AlreadyLocked)
        },
{
}

} // verus!
