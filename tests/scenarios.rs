use reqchan::cell::{claim_decision, lock_decision, take_decision};
use reqchan::request::{send_decision, unsend_decision, SendError, TryUnsendError};
use reqchan::response;
use reqchan::{cancel_decision, channel, poll_decision, respond_decision, Error};

#[test]
fn poll_before_and_after_a_response() {
    let (requester, responder) = channel::<u32>();
    let mut ticket = requester.try_request().ok().unwrap();

    assert_eq!(ticket.try_receive().err(), Some(Error::Empty));
    assert!(!ticket.done);

    responder.try_respond().ok().unwrap().send(42);

    assert_eq!(ticket.try_receive().ok(), Some(42));
    assert!(ticket.done);
    assert_eq!(ticket.try_receive().err(), Some(Error::Done));
}

#[test]
fn cancel_before_any_responder() {
    let (requester, responder) = channel::<u32>();
    let other = responder.clone();
    {
        let mut ticket = requester.try_request().ok().unwrap();
        assert_eq!(ticket.try_cancel(), Ok(()));
        assert!(ticket.done);
        assert_eq!(ticket.try_cancel(), Err(Error::Done));
    }
    assert_eq!(responder.try_respond().err(), Some(Error::NoRequest));
    assert_eq!(other.try_respond().err(), Some(Error::NoRequest));
    assert_eq!(responder.inner.has_response_lock.load(std::sync::atomic::Ordering::SeqCst), false);
}

#[test]
fn cancel_after_claim_is_too_late() {
    let (requester, responder) = channel::<u32>();
    let mut ticket = requester.try_request().ok().unwrap();
    let response = responder.try_respond().ok().unwrap();

    assert_eq!(ticket.try_cancel(), Err(Error::TooLate));
    assert!(!ticket.done);

    response.send(7);
    assert_eq!(ticket.try_receive().ok(), Some(7));
}

#[test]
fn two_responders_one_winner() {
    let (requester, responder_a) = channel::<&'static str>();
    let responder_b = responder_a.clone();
    let mut ticket = requester.try_request().ok().unwrap();

    let a = responder_a.try_respond();
    let b = responder_b.try_respond();
    assert!(a.is_ok());
    assert_eq!(b.as_ref().err(), Some(&Error::AlreadyLocked));

    a.ok().unwrap().send("from a");
    assert_eq!(responder_b.try_respond().err(), Some(Error::NoRequest));
    assert_eq!(ticket.try_receive().ok(), Some("from a"));
}

#[test]
fn many_responders_in_turn() {
    let (requester, first) = channel::<usize>();
    let responders: Vec<_> = (0..5).map(|_| first.clone()).collect();
    let mut ticket = requester.try_request().ok().unwrap();

    let mut winners = 0;
    let mut no_request = 0;
    for (i, responder) in responders.iter().enumerate() {
        match responder.try_respond() {
            Ok(response) => {
                winners += 1;
                response.send(i);
            }
            Err(Error::NoRequest) => no_request += 1,
            Err(e) => panic!("unexpected {:?}", e),
        }
    }
    assert_eq!(winners, 1);
    assert_eq!(no_request, 4);
    assert_eq!(ticket.try_receive().ok(), Some(0));
}

#[test]
fn one_request_ticket_at_a_time() {
    let (requester, responder) = channel::<u8>();
    let mut ticket = requester.try_request().ok().unwrap();
    assert_eq!(requester.try_request().err(), Some(Error::AlreadyLocked));

    responder.try_respond().ok().unwrap().send(1);
    assert_eq!(ticket.try_receive().ok(), Some(1));
    drop(ticket);

    let mut again = requester.try_request().ok().unwrap();
    responder.try_respond().ok().unwrap().send(2);
    assert_eq!(again.try_receive().ok(), Some(2));
}

#[test]
fn respond_without_request_keeps_lock_free() {
    let (_requester, responder) = channel::<u8>();
    assert_eq!(responder.try_respond().err(), Some(Error::NoRequest));
    assert_eq!(responder.inner.has_response_lock.load(std::sync::atomic::Ordering::SeqCst), false);
    assert_eq!(responder.try_respond().err(), Some(Error::NoRequest));
}

#[test]
fn sent_value_is_received_once() {
    let (requester, responder) = channel::<String>();
    let mut ticket = requester.try_request().ok().unwrap();
    responder.try_respond().ok().unwrap().send(String::from("payload"));

    assert_eq!(ticket.try_receive().ok(), Some(String::from("payload")));
    assert!(ticket.inner.datum.lock().unwrap().is_none());
    assert_eq!(ticket.try_receive().err(), Some(Error::Done));
}

#[test]
fn observed_swap_outcomes() {
    assert!(reqchan::cell::swapped(Ok(true)));
    assert!(!reqchan::cell::swapped(Err(false)));
}

#[test]
fn dropping_an_unresolved_request_ticket_keeps_the_lock() {
    let (requester, _responder) = channel::<u8>();
    let ticket = requester.try_request().ok().unwrap();
    drop(ticket);
    assert_eq!(requester.try_request().err(), Some(Error::AlreadyLocked));
}

#[test]
fn dropping_an_unsent_response_ticket_keeps_the_lock() {
    let (requester, responder) = channel::<u8>();
    let mut ticket = requester.try_request().ok().unwrap();
    let response = responder.try_respond().ok().unwrap();
    drop(response);
    assert_eq!(responder.clone().try_respond().err(), Some(Error::AlreadyLocked));
    assert_eq!(ticket.try_receive().err(), Some(Error::Empty));
    ticket.done = true;
}

#[test]
fn close_reports_resolution() {
    let (requester, responder) = channel::<u8>();
    let ticket = requester.try_request().ok().unwrap();
    let mut ticket = match ticket.close() {
        Err(back) => back,
        Ok(()) => panic!("an unresolved ticket closed"),
    };
    assert!(!ticket.done);
    let response = responder.try_respond().ok().unwrap();
    let response = match response.close() {
        Err(back) => back,
        Ok(()) => panic!("an unsent ticket closed"),
    };
    response.send(3);
    assert_eq!(ticket.try_receive().ok(), Some(3));
    assert!(ticket.close().is_ok());
    assert!(requester.try_request().ok().unwrap().try_cancel().is_ok());
}

#[test]
fn decisions_on_observed_outcomes() {
    assert_eq!(lock_decision(true), Ok(()));
    assert_eq!(lock_decision(false), Err(Error::AlreadyLocked));
    assert_eq!(claim_decision(true), Ok(()));
    assert_eq!(claim_decision(false), Err(Error::NoRequest));
    assert_eq!(take_decision(true, Some(9u8)), Ok(9));
    assert_eq!(take_decision(false, Some(9u8)), Err(Error::Empty));
    assert_eq!(take_decision::<u8>(true, None), Err(Error::Empty));
    assert_eq!(cancel_decision(true, true), Err(Error::Done));
    assert_eq!(cancel_decision(false, true), Ok(()));
    assert_eq!(cancel_decision(false, false), Err(Error::TooLate));
    assert_eq!(respond_decision(false, true), Err(Error::AlreadyLocked));
    assert_eq!(respond_decision(true, true), Ok(()));
    assert_eq!(respond_decision(true, false), Err(Error::NoRequest));
    assert_eq!(poll_decision(true, Ok(1u8)), Err(Error::Done));
    assert_eq!(poll_decision(false, Ok(1u8)), Ok(1));
}

#[test]
fn flag_and_mailbox_decisions() {
    assert_eq!(send_decision(true), Ok(()));
    assert_eq!(send_decision(false), Err(SendError::UnreceivedValue));
    assert_eq!(unsend_decision(true), Ok(()));
    assert_eq!(unsend_decision(false), Err(TryUnsendError::TooLate));
    assert_eq!(response::send_decision(&None::<u8>), Ok(()));
    assert_eq!(response::send_decision(&Some(1u8)), Err(response::SendError::UnreceivedValue));
    assert_eq!(response::take_decision(true, Some(4u8)), Ok(4));
    assert_eq!(response::take_decision(false, Some(4u8)), Err(response::TryReceiveError::Empty));
}
