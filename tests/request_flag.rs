use std::sync::atomic::Ordering;

use reqchan::request::{channel, SendError, TryUnsendError};

#[test]
fn request_test_channel() {
    let (tx, rx) = channel();

    assert_eq!(tx.inner.load(Ordering::SeqCst), false);
    assert_eq!(rx.inner.load(Ordering::SeqCst), false);
}

#[test]
fn test_sender_send() {
    #[allow(unused_variables)]
    let (tx, rx) = channel();

    tx.send().unwrap();

    assert_eq!(tx.inner.load(Ordering::SeqCst), true);
}

#[test]
fn test_sender_send_twice() {
    #[allow(unused_variables)]
    let (tx, rx) = channel();

    tx.send().unwrap();

    match tx.send() {
        Err(SendError::UnreceivedValue) => {}
        _ => {
            assert!(false);
        }
    };
}

#[test]
fn test_sender_try_unsend() {
    #[allow(unused_variables)]
    let (tx, rx) = channel();

    tx.inner.store(true, Ordering::SeqCst);

    tx.try_unsend().unwrap();
}

#[test]
fn test_sender_try_unsend_too_late() {
    #[allow(unused_variables)]
    let (tx, rx) = channel();

    match tx.try_unsend() {
        Err(TryUnsendError::TooLate) => {}
        _ => {
            assert!(false);
        }
    }
}

#[test]
fn test_receiver_recv() {
    #[allow(unused_variables)]
    let (tx, rx) = channel();

    rx.inner.store(true, Ordering::SeqCst);

    assert_eq!(rx.receive(), true);
    assert_eq!(rx.inner.load(Ordering::SeqCst), false);
}

#[test]
fn test_receiver_recv_no_sent() {
    #[allow(unused_variables)]
    let (tx, rx) = channel();

    assert_eq!(rx.receive(), false);
    assert_eq!(rx.inner.load(Ordering::SeqCst), false);
}

#[test]
fn test_send_receive() {
    let (tx, rx) = channel();

    tx.send().unwrap();

    assert_eq!(rx.receive(), true);
}

#[test]
fn test_send_try_unsend() {
    let (tx, rx) = channel();

    tx.send().unwrap();

    tx.try_unsend().unwrap();

    assert_eq!(rx.receive(), false);
}

#[test]
fn test_send_receive_try_unsend() {
    let (tx, rx) = channel();

    tx.send().unwrap();

    assert_eq!(rx.receive(), true);

    match tx.try_unsend() {
        Err(TryUnsendError::TooLate) => {}
        _ => {
            assert!(false);
        }
    };
}

#[test]
fn test_send_multiple_receive() {
    let (tx, rx1) = channel();
    let rx2 = rx1.clone();

    tx.send().unwrap();

    assert_eq!(rx1.receive(), true);
    assert_eq!(rx2.receive(), false);

    tx.send().unwrap();

    assert_eq!(rx2.receive(), true);
    assert_eq!(rx1.receive(), false);
}
