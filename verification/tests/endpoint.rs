//! Tests of the per-endpoint transfer queues.

use usb_gadget::endpoint::{EndpointReceiver, EndpointSender};
use usb_gadget::reactor::IoEvent;
use usb_gadget::GadgetError;

fn event(id: u64, res: i64) -> IoEvent {
    IoEvent { data: id, obj: 0, res, res2: 0 }
}

#[test]
fn send_flush_empties_queue() {
    // submit a 512-byte write then another 512-byte write on a depth-16
    // queue; the queue stays non-empty until both are retrieved by flush
    let mut tx = EndpointSender::new(16);
    let a = tx.try_send(vec![0x55; 512]).unwrap();
    let b = tx.try_send(vec![0xaa; 512]).unwrap();
    assert!(!tx.is_empty());

    tx.deliver(event(a.id(), 512));
    assert!(!tx.is_empty());
    tx.deliver(event(b.id(), 512));
    assert!(!tx.is_empty());

    tx.flush().unwrap();
    assert!(tx.is_empty());
}

#[test]
fn send_queue_full() {
    let mut tx = EndpointSender::new(2);
    tx.try_send(vec![1]).unwrap();
    tx.try_send(vec![2]).unwrap();
    assert!(!tx.is_ready());
    assert_eq!(tx.try_send(vec![3]).unwrap_err(), GadgetError::QueueFull);
}

#[test]
fn send_error_reported_once() {
    let mut tx = EndpointSender::new(4);
    let a = tx.try_send(vec![1]).unwrap();
    let b = tx.try_send(vec![2]).unwrap();
    tx.deliver(event(a.id(), -28));
    tx.deliver(event(b.id(), 1));

    // the first drain reports the failed operation's error
    assert_eq!(tx.try_ready().unwrap_err(), GadgetError::Os(28));
    // the next drain consumes the remaining successful completion
    tx.try_ready().unwrap();
    assert!(tx.is_empty());
}

#[test]
fn send_cancel_discards_errors() {
    let mut tx = EndpointSender::new(4);
    let a = tx.try_send(vec![1]).unwrap();
    let b = tx.try_send(vec![2]).unwrap();
    tx.cancel_deliver(event(a.id(), -125));
    tx.cancel_deliver(event(b.id(), -125));
    tx.discard_completions();
    assert!(tx.is_empty());
    tx.flush().unwrap();
}

#[test]
fn recv_returns_filled_buffer() {
    let mut rx = EndpointReceiver::new(16);
    let a = rx.try_recv(vec![0x11; 64]).unwrap();
    assert!(rx.try_fetch().unwrap().is_none());

    rx.deliver(event(a.id(), 5));
    let data = rx.try_fetch().unwrap().unwrap();
    assert_eq!(data, vec![0x11; 5]);
    assert!(rx.is_empty());
}

#[test]
fn recv_error_propagates() {
    let mut rx = EndpointReceiver::new(4);
    let a = rx.try_recv(vec![0; 8]).unwrap();
    rx.deliver(event(a.id(), -71));
    assert_eq!(rx.try_fetch().unwrap_err(), GadgetError::Os(71));
    assert!(rx.is_empty());
}

#[test]
fn recv_queue_full() {
    let mut rx = EndpointReceiver::new(1);
    rx.try_recv(vec![0; 8]).unwrap();
    assert!(!rx.is_ready());
    assert_eq!(rx.try_recv(vec![0; 8]).unwrap_err(), GadgetError::QueueFull);
}
