//! Tests of the asynchronous I/O reactor model.

use usb_gadget::reactor::{Buffer, IoEvent, Reactor};
use usb_gadget::GadgetError;

fn event(id: u64, res: i64) -> IoEvent {
    IoEvent { data: id, obj: 0, res, res2: 0 }
}

#[test]
fn reactor_capacity() {
    let depth: u32 = 4;
    let mut reactor = Reactor::new(depth);
    assert!(reactor.is_empty());
    assert!(!reactor.is_full());

    let mut handles = Vec::new();
    for i in 0..depth {
        let handle = reactor.submit(Buffer::Write(vec![i as u8])).unwrap();
        handles.push(handle);
    }
    assert!(reactor.is_full());

    // the fifth submission fails with a capacity error
    let err = reactor.submit(Buffer::Write(vec![9])).unwrap_err();
    assert_eq!(err, GadgetError::QueueFull);

    // after retrieving one completion, exactly one more submission succeeds
    reactor.deliver(event(handles[0].id(), 1));
    let comp = reactor.try_completed().unwrap();
    assert_eq!(comp.id(), handles[0].id());
    assert!(!reactor.is_full());
    reactor.submit(Buffer::Write(vec![5])).unwrap();
    assert!(reactor.is_full());
    assert_eq!(
        reactor.submit(Buffer::Write(vec![6])).unwrap_err(),
        GadgetError::QueueFull
    );
}

#[test]
fn completion_order_follows_delivery() {
    let mut reactor = Reactor::new(8);
    let a = reactor.submit(Buffer::Write(vec![1])).unwrap();
    let b = reactor.submit(Buffer::Write(vec![2])).unwrap();
    let c = reactor.submit(Buffer::Write(vec![3])).unwrap();

    // the kernel may reorder: deliver c, a, b
    reactor.deliver(event(c.id(), 1));
    reactor.deliver(event(a.id(), 1));
    reactor.deliver(event(b.id(), 1));

    assert_eq!(reactor.try_completed().unwrap().id(), c.id());
    assert_eq!(reactor.try_completed().unwrap().id(), a.id());
    assert_eq!(reactor.try_completed().unwrap().id(), b.id());
    assert!(reactor.try_completed().is_none());
    assert!(reactor.is_empty());
}

#[test]
fn delivery_exactly_once_with_cancel() {
    let mut reactor = Reactor::new(8);
    let a = reactor.submit(Buffer::Write(vec![1])).unwrap();
    let b = reactor.submit(Buffer::Read(vec![0; 16])).unwrap();
    let c = reactor.submit(Buffer::Write(vec![3])).unwrap();

    // one operation completes naturally, the others are cancelled
    reactor.deliver(event(a.id(), 1));
    reactor.cancel_deliver(event(b.id(), -125));
    reactor.cancel_deliver(event(c.id(), -125));

    let mut seen = Vec::new();
    while let Some(comp) = reactor.try_completed() {
        seen.push(comp.id());
    }
    seen.sort();
    let mut expected = vec![a.id(), b.id(), c.id()];
    expected.sort();
    assert_eq!(seen, expected);
    assert!(reactor.is_empty());

    // a second cancellation of an already-delivered operation changes nothing
    reactor.cancel_deliver(event(b.id(), -125));
    assert!(reactor.try_completed().is_none());
}

#[test]
fn negative_result_becomes_os_error() {
    let mut reactor = Reactor::new(2);
    let a = reactor.submit(Buffer::Write(vec![1])).unwrap();
    reactor.deliver(event(a.id(), -32));
    let comp = reactor.try_completed().unwrap();
    assert_eq!(comp.res(), -32);
    assert_eq!(comp.res2(), 0);
    assert_eq!(comp.result().unwrap_err(), GadgetError::Os(32));
}

#[test]
fn read_buffer_cut_to_reported_length() {
    let mut reactor = Reactor::new(2);
    let a = reactor.submit(Buffer::Read(vec![7; 8])).unwrap();
    reactor.deliver(event(a.id(), 3));
    let comp = reactor.try_completed().unwrap();
    let buf = comp.result().unwrap();
    assert_eq!(buf.into_read().unwrap(), vec![7, 7, 7]);
}

#[test]
fn write_buffer_returned_whole() {
    let mut reactor = Reactor::new(2);
    let a = reactor.submit(Buffer::Write(vec![1, 2, 3, 4])).unwrap();
    reactor.deliver(event(a.id(), 4));
    let comp = reactor.try_completed().unwrap();
    assert_eq!(comp.result().unwrap().into_bytes(), vec![1, 2, 3, 4]);
}

#[test]
fn unknown_event_parks_and_blocks_the_queue() {
    let mut reactor = Reactor::new(4);
    let a = reactor.submit(Buffer::Write(vec![1])).unwrap();
    // an event for an operation that was never registered parks at the
    // front of the event queue and blocks later events
    reactor.deliver(event(a.id() + 1000, 1));
    reactor.deliver(event(a.id(), 1));
    assert!(reactor.try_completed().is_none());
    // the cancellation path bypasses the event queue
    reactor.cancel_deliver(event(a.id(), -125));
    let comp = reactor.try_completed().unwrap();
    assert_eq!(comp.id(), a.id());
}

#[test]
fn submit_failed_restores_space() {
    let mut reactor = Reactor::new(1);
    let a = reactor.submit(Buffer::Write(vec![1])).unwrap();
    assert!(reactor.is_full());
    // the kernel rejected the submission: deregister it
    reactor.submit_failed(a);
    assert!(reactor.is_empty());
    let b = reactor.submit(Buffer::Write(vec![2])).unwrap();
    reactor.deliver(event(b.id(), 1));
    assert_eq!(reactor.try_completed().unwrap().id(), b.id());
}

#[test]
fn buffer_size_and_conversions() {
    assert_eq!(Buffer::Write(vec![1, 2]).size(), 2);
    assert_eq!(Buffer::Read(vec![0; 7]).size(), 7);
    assert!(Buffer::Write(vec![1]).into_read().is_err());
    assert_eq!(Buffer::Read(vec![9]).into_read().unwrap(), vec![9]);
}
