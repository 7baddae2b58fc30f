//! Tests of the control-transfer state machine.

use usb_gadget::custom::{CtrlMachine, Direction, Event, HaltAction};
use usb_gadget::GadgetError;

fn setup_record(request_type: u8, length: u16) -> [u8; 12] {
    let mut buf = [0; 12];
    buf[0] = request_type;
    buf[1] = 0x06;
    buf[6] = (length & 0xff) as u8;
    buf[7] = (length >> 8) as u8;
    buf[8] = 4; // SETUP
    buf
}

#[test]
fn lifecycle_events_decode() {
    let mut machine = CtrlMachine::new();
    let cases: [(u8, Event); 7] = [
        (0, Event::Bind),
        (1, Event::Unbind),
        (2, Event::Enable),
        (3, Event::Disable),
        (5, Event::Suspend),
        (6, Event::Resume),
        (99, Event::Unknown(99)),
    ];
    for (tag, expected) in cases {
        let mut buf = [0; 12];
        buf[8] = tag;
        let event = machine.event_from_bytes(&buf).unwrap();
        assert_eq!(event, expected);
        assert!(machine.pending().is_none());
    }
}

#[test]
fn setup_device_to_host_sets_state() {
    let mut machine = CtrlMachine::new();
    let event = machine.event_from_bytes(&setup_record(0x80, 18)).unwrap();
    match event {
        Event::SetupDeviceToHost(req) => {
            assert_eq!(req.request_type, 0x80);
            assert_eq!(req.length, 18);
        }
        other => panic!("expected a device-to-host setup event, got {other:?}"),
    }
    assert_eq!(machine.pending(), Some(Direction::DeviceToHost));
}

#[test]
fn setup_host_to_device_sets_state() {
    let mut machine = CtrlMachine::new();
    let event = machine.event_from_bytes(&setup_record(0x00, 4)).unwrap();
    assert!(matches!(event, Event::SetupHostToDevice(_)));
    assert_eq!(machine.pending(), Some(Direction::HostToDevice));
}

#[test]
fn response_clears_state() {
    let mut machine = CtrlMachine::new();
    machine.event_from_bytes(&setup_record(0x80, 2)).unwrap();
    machine.response_completed();
    assert!(machine.pending().is_none());
    // with nothing pending, no halt is owed
    assert!(machine.clear_prev_event().is_none());
}

#[test]
fn forgotten_setup_drained_with_one_halt() {
    // decoding a SETUP event while a prior response was never consumed
    // performs exactly one halt sequence before the new event
    let mut machine = CtrlMachine::new();
    machine.event_from_bytes(&setup_record(0x80, 2)).unwrap();

    let halt = machine.clear_prev_event();
    assert_eq!(halt, Some(HaltAction::ReadByte));
    // exactly one: a second drain performs none
    assert!(machine.clear_prev_event().is_none());

    let event = machine.event_from_bytes(&setup_record(0x00, 1)).unwrap();
    assert!(matches!(event, Event::SetupHostToDevice(_)));
}

#[test]
fn dropped_receiver_writes_one_byte() {
    // a host-to-device setup whose receiver is dropped without a
    // response results in a single one-byte write on the control file
    // before the next event is read
    let mut machine = CtrlMachine::new();
    let event = machine.event_from_bytes(&setup_record(0x00, 4)).unwrap();
    match event {
        Event::SetupHostToDevice(req) => assert_eq!(req.length, 4),
        other => panic!("expected a host-to-device setup event, got {other:?}"),
    }

    // the drop path of the response object drains the pending transfer
    let halt = machine.clear_prev_event();
    assert_eq!(halt, Some(HaltAction::WriteByte));
    assert!(machine.pending().is_none());

    // the next event is then read with nothing further owed
    assert!(machine.clear_prev_event().is_none());
    let mut buf = [0; 12];
    buf[8] = 2;
    assert_eq!(machine.event_from_bytes(&buf).unwrap(), Event::Enable);
}

#[test]
fn dropped_sender_reads_one_byte() {
    let mut machine = CtrlMachine::new();
    machine.event_from_bytes(&setup_record(0x80, 4)).unwrap();
    assert_eq!(machine.clear_prev_event(), Some(HaltAction::ReadByte));
}

#[test]
fn wrong_event_size_rejected() {
    let mut machine = CtrlMachine::new();
    assert_eq!(
        machine.event_from_bytes(&[0; 11]).unwrap_err(),
        GadgetError::InvalidEventSize
    );
    assert_eq!(
        machine.event_from_bytes(&[0; 13]).unwrap_err(),
        GadgetError::InvalidEventSize
    );
}
