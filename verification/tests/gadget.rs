//! Tests of the gadget definition types and the smaller function
//! configurations.

use usb_gadget::audio::{Channel, Uac2Builder, Uac2Config};
use usb_gadget::custom::{Direction, Endpoint, OsRegValue, SyncType, TransferType, UsageType};
use usb_gadget::hid::HidBuilder;
use usb_gadget::kernel::{os_desc_bcd_version, parse_kernel_release};
use usb_gadget::midi::MidiBuilder;
use usb_gadget::msd::Lun;
use usb_gadget::net::NetClass;
use usb_gadget::printer::PrinterBuilder;
use usb_gadget::serial::{SerialBuilder, SerialClass};
use usb_gadget::status::{state_of, State};
use usb_gadget::udc::UdcState;
use usb_gadget::video::{Format, Frame, UvcFrame};
use usb_gadget::{
    hex_u16, hex_u8, Class, Config, Gadget, GadgetError, Id, Language, OsDescriptor, Speed,
    Strings, UsbVersion, WebUsb, WebUsbVersion,
};

#[test]
fn class_constructors() {
    assert_eq!(Class::new(1, 2, 3), Class { class: 1, sub_class: 2, protocol: 3 });
    assert_eq!(Class::vendor_specific(4, 5), Class { class: 0xff, sub_class: 4, protocol: 5 });
    assert_eq!(Class::interface_specific(), Class { class: 0, sub_class: 0, protocol: 0 });
}

#[test]
fn gadget_definition_defaults() {
    let gadget = Gadget::new(
        Class::new(0, 0, 0),
        Id::new(0x1d6b, 0x0104),
        Strings::new("maker", "widget", "SER123"),
    );
    assert_eq!(gadget.id, Id { vendor: 0x1d6b, product: 0x0104 });
    assert_eq!(gadget.max_packet_size0, 64);
    assert_eq!(gadget.usb_version, UsbVersion::V20);
    assert!(gadget.configs.is_empty());
    assert_eq!(gadget.strings[0].0, Language::EnglishUnitedStates);
    assert_eq!(gadget.strings[0].1.manufacturer, "maker");

    let gadget = gadget
        .with_config(Config::new("config one"))
        .with_os_descriptor(OsDescriptor::microsoft())
        .with_web_usb(WebUsb::new(0x42, "https://example.invalid"));
    assert_eq!(gadget.configs.len(), 1);
    assert_eq!(gadget.os_descriptor.as_ref().unwrap().vendor_code, 0xf0);
    assert_eq!(gadget.os_descriptor.as_ref().unwrap().qw_sign, "MSFT100");
    assert_eq!(gadget.web_usb.as_ref().unwrap().version, WebUsbVersion::V10);
}

#[test]
fn config_attributes_byte() {
    let mut config = Config::new("c");
    assert_eq!(config.max_power, 500);
    assert_eq!(config.attributes(), 0x80);
    config.self_powered = true;
    assert_eq!(config.attributes(), 0xc0);
    config.remote_wakeup = true;
    assert_eq!(config.attributes(), 0xe0);
    config.set_max_power_ma(250).unwrap();
    assert_eq!(config.max_power, 250);
}

#[test]
fn version_codes() {
    assert_eq!(u16::from(Language::EnglishUnitedStates), 0x0409);
    assert_eq!(Language::GermanStandard.code(), 0x0407);
    assert_eq!(Language::Other(0xabcd).code(), 0xabcd);
    assert_eq!(Language::default(), Language::EnglishUnitedStates);
    assert_eq!(UsbVersion::V31.code(), 0x0310);
    assert_eq!(UsbVersion::Other(0x0123).code(), 0x0123);
    assert_eq!(WebUsbVersion::V10.code(), 0x0100);
}

#[test]
fn hex_notation() {
    assert_eq!(hex_u8(0x00), "0x00");
    assert_eq!(hex_u8(0xaf), "0xaf");
    assert_eq!(hex_u16(0x1d6b), "0x1d6b");
    assert_eq!(hex_u16(0x0104), "0x0104");
}

#[test]
fn speed_names_roundtrip() {
    let speeds = [
        Speed::SuperSpeedPlus,
        Speed::SuperSpeed,
        Speed::HighSpeed,
        Speed::FullSpeed,
        Speed::LowSpeed,
    ];
    for speed in speeds {
        assert_eq!(Speed::from_name(speed.name()), speed);
    }
    assert_eq!(Speed::from_name("weird"), Speed::Unknown);
    assert_eq!(Speed::default(), Speed::Unknown);
}

#[test]
fn udc_state_names_roundtrip() {
    let states = [
        UdcState::NotAttached,
        UdcState::Attached,
        UdcState::Powered,
        UdcState::Reconnecting,
        UdcState::Unauthenticated,
        UdcState::Default,
        UdcState::Addressed,
        UdcState::Configured,
        UdcState::Suspended,
    ];
    for state in states {
        assert_eq!(UdcState::from_name(state.name()), state);
    }
    assert_eq!(UdcState::from_name("weird"), UdcState::Unknown);
}

#[test]
fn registration_state_decision() {
    assert_eq!(state_of(false, false, false), State::Unregistered);
    assert_eq!(state_of(false, true, false), State::Removed);
    assert_eq!(state_of(true, false, false), State::Registered);
    assert_eq!(state_of(true, true, false), State::Registered);
    assert_eq!(state_of(true, true, true), State::Bound);
}

#[test]
fn endpoint_defaults() {
    let ep = Endpoint::bulk(Direction::DeviceToHost);
    assert_eq!(ep.queue_len, 16);
    assert_eq!(ep.max_packet_size_hs, 512);
    assert_eq!(ep.max_packet_size_ss, 1024);
    assert_eq!(ep.interval, 0);
    let ep = Endpoint::bulk(Direction::HostToDevice).with_queue_len(32);
    assert_eq!(ep.interval, 1);
    assert_eq!(ep.queue_len, 32);
}

#[test]
fn transfer_type_attributes() {
    assert_eq!(TransferType::Control.to_attributes(), 0b00);
    assert_eq!(TransferType::Bulk.to_attributes(), 0b10);
    assert_eq!(TransferType::Interrupt.to_attributes(), 0b11);
    let iso = TransferType::Isochronous { sync: SyncType::Async, usage: UsageType::Feedback };
    assert_eq!(iso.to_attributes(), 0b01_01_01);
    let iso = TransferType::Isochronous { sync: SyncType::Sync, usage: UsageType::Data };
    assert_eq!(iso.to_attributes(), 0b00_11_01);
}

#[test]
fn registry_value_bytes() {
    assert_eq!(OsRegValue::Sz(String::from("ab")).as_bytes(), vec![b'a', b'b', 0]);
    assert_eq!(OsRegValue::Binary(vec![1, 2]).as_bytes(), vec![1, 2]);
    assert_eq!(OsRegValue::DwordLe(0x01020304).as_bytes(), vec![4, 3, 2, 1]);
    assert_eq!(OsRegValue::DwordBe(0x01020304).as_bytes(), vec![1, 2, 3, 4]);
    let multi = OsRegValue::MultiSz(vec![String::from("a"), String::from("b")]);
    assert_eq!(multi.as_bytes(), vec![b'a', 0, b'b', 0]);
    assert_eq!(OsRegValue::Sz(String::new()).as_type(), 1);
    assert_eq!(OsRegValue::MultiSz(Vec::new()).as_type(), 7);
}

#[test]
fn ext_prop_wire_record() {
    let prop = usb_gadget::custom::OsExtProp::new(
        "DeviceInterfaceGUID",
        OsRegValue::Sz(String::from("{1}")),
    );
    let wire = prop.as_os_ext_prop();
    assert_eq!(wire.data_type, 1);
    assert_eq!(wire.name, b"DeviceInterfaceGUID\0".to_vec());
    assert_eq!(wire.data, b"{1}\0".to_vec());
}

#[test]
fn kernel_release_parsing() {
    assert_eq!(parse_kernel_release(b"6.4.0-generic"), Some((6, 4)));
    assert_eq!(parse_kernel_release(b"5.15.133"), Some((5, 15)));
    assert_eq!(parse_kernel_release(b"6.4"), Some((6, 4)));
    assert_eq!(parse_kernel_release(b"6"), None);
    assert_eq!(parse_kernel_release(b"6."), None);
    assert_eq!(parse_kernel_release(b"a.b"), None);
    assert_eq!(parse_kernel_release(b"99999.1"), None);
    assert_eq!(parse_kernel_release(b""), None);
}

#[test]
fn os_descriptor_version_decision() {
    assert_eq!(os_desc_bcd_version(Some((6, 4))), 0x0100);
    assert_eq!(os_desc_bcd_version(Some((7, 0))), 0x0100);
    assert_eq!(os_desc_bcd_version(Some((6, 3))), 0x0001);
    assert_eq!(os_desc_bcd_version(Some((5, 19))), 0x0001);
    assert_eq!(os_desc_bcd_version(None), 0x0001);
}

#[test]
fn linux_version() {
    let (major, minor) = usb_gadget::kernel::linux_version().expect("failed to get Linux version");
    println!("Linux {major}.{minor}");
}

#[test]
fn uac2_properties() {
    let builder = Uac2Builder::new()
        .with_capture_config(Uac2Config {
            channel: Channel::new(0b11, 48000, 2),
            ..Uac2Config::default()
        })
        .with_playback_config(Uac2Config {
            channel: Channel::new(0b1, 44100, 2),
            volume_min: Some(-256),
            ..Uac2Config::default()
        });
    let props = builder.properties();
    let pairs: Vec<(String, Vec<u8>)> =
        props.into_iter().map(|p| (p.name, p.value)).collect();
    assert_eq!(
        pairs,
        vec![
            (String::from("c_chmask"), b"3".to_vec()),
            (String::from("c_srate"), b"48000".to_vec()),
            (String::from("c_ssize"), b"2".to_vec()),
            (String::from("p_chmask"), b"1".to_vec()),
            (String::from("p_srate"), b"44100".to_vec()),
            (String::from("p_ssize"), b"2".to_vec()),
            (String::from("p_volume_min"), b"-256".to_vec()),
        ]
    );
}

#[test]
fn hid_properties() {
    let mut builder = HidBuilder::new();
    builder.sub_class = 1;
    builder.protocol = 2;
    builder.report_desc = vec![0x05, 0x01];
    builder.report_len = 8;
    let props = builder.properties();
    let pairs: Vec<(String, Vec<u8>)> =
        props.into_iter().map(|p| (p.name, p.value)).collect();
    assert_eq!(
        pairs,
        vec![
            (String::from("subclass"), b"1".to_vec()),
            (String::from("protocol"), b"2".to_vec()),
            (String::from("report_desc"), vec![0x05, 0x01]),
            (String::from("report_length"), b"8".to_vec()),
            (String::from("no_out_endpoint"), b"0".to_vec()),
        ]
    );
}

#[test]
fn midi_properties() {
    let mut builder = MidiBuilder::new();
    builder.id = Some(String::from("midi"));
    builder.in_ports = Some(1);
    builder.out_ports = Some(2);
    let props = builder.properties();
    let pairs: Vec<(String, Vec<u8>)> =
        props.into_iter().map(|p| (p.name, p.value)).collect();
    assert_eq!(
        pairs,
        vec![
            (String::from("id"), b"midi".to_vec()),
            (String::from("in_ports"), b"1".to_vec()),
            (String::from("out_ports"), b"2".to_vec()),
        ]
    );
}

#[test]
fn printer_and_serial_properties() {
    let mut builder = PrinterBuilder::new();
    builder.pnp_string = Some(String::from("printer1"));
    builder.qlen = Some(10);
    let props = builder.properties();
    assert_eq!(props.len(), 2);
    assert_eq!(props[0].name, "pnp_string");
    assert_eq!(props[1].value, b"10".to_vec());

    let mut builder = SerialBuilder::new(SerialClass::Acm);
    assert_eq!(builder.serial_class.driver(), "acm");
    assert_eq!(SerialClass::Generic.driver(), "gser");
    builder.console = Some(true);
    let props = builder.properties();
    assert_eq!(props.len(), 1);
    assert_eq!(props[0].name, "console");
    assert_eq!(props[0].value, b"1".to_vec());
}

#[test]
fn net_class_drivers() {
    assert_eq!(NetClass::Ecm.driver(), "ecm");
    assert_eq!(NetClass::EcmSubset.driver(), "geth");
    assert_eq!(NetClass::Eem.driver(), "eem");
    assert_eq!(NetClass::Ncm.driver(), "ncm");
    assert_eq!(NetClass::Rndis.driver(), "rndis");
}

#[test]
fn lun_validation_and_properties() {
    assert_eq!(Lun::new("relative").unwrap_err(), GadgetError::LunFileNotAbsolute);
    let mut lun = Lun::new("/srv/disk.img").unwrap();
    lun.read_only = true;
    lun.inquiry_string = String::from("disk");
    let props = lun.properties();
    let pairs: Vec<(String, Vec<u8>)> =
        props.into_iter().map(|p| (p.name, p.value)).collect();
    assert_eq!(
        pairs,
        vec![
            (String::from("ro"), b"1".to_vec()),
            (String::from("cdrom"), b"0".to_vec()),
            (String::from("nofua"), b"0".to_vec()),
            (String::from("removable"), b"1".to_vec()),
            (String::from("inquiry_string"), b"disk".to_vec()),
            (String::from("file"), b"/srv/disk.img".to_vec()),
        ]
    );
    assert_eq!(Lun::dir_name(3), "lun.3");

    let mut empty = Lun::empty();
    empty.set_file(None::<&str>).unwrap();
    assert!(empty.file.is_none());
}

#[test]
fn video_paths_and_frames() {
    assert_eq!(Format::Yuyv.group_path(), "streaming/uncompressed/yuyv");
    assert_eq!(Format::Mjpeg.group_path(), "streaming/mjpeg/mjpeg");
    assert_eq!(Format::Mjpeg.header_link_path(), "streaming/header/h/mjpeg");
    assert_eq!(Format::Yuyv.color_matching_path(), "streaming/color_matching/yuyv");
    assert_eq!(
        Format::Yuyv.color_matching_link_path(),
        "streaming/uncompressed/yuyv/color_matching"
    );
    assert_eq!(Format::all(), vec![Format::Yuyv, Format::Mjpeg]);

    let frame = Frame::new(640, 360, vec![15, 30, 60], Format::Mjpeg);
    let uvc = UvcFrame::from_frame(&frame);
    assert_eq!(uvc.intervals, vec![66666666, 33333333, 16666666]);
    assert_eq!(uvc.dir_name(), "360p");
    assert_eq!(uvc.path(), "streaming/mjpeg/mjpeg/360p");
    assert_eq!(uvc.max_video_frame_buffer_size(), 640 * 360 * 2);
    assert_eq!(uvc.interval_lines(), "66666666\n33333333\n16666666");
}

#[test]
fn value_channel_roundtrip() {
    let (mut tx, mut rx) = usb_gadget::value::channel();
    assert_eq!(rx.get().unwrap_err(), usb_gadget::value::RecvError::Empty);
    tx.send(7u32).unwrap();
    assert_eq!(tx.send(8u32).unwrap_err(), usb_gadget::value::AlreadySentError);
    assert_eq!(*rx.get().unwrap(), 7);
    assert_eq!(*rx.wait().unwrap(), 7);
    assert_eq!(rx.take().unwrap(), 7);
    assert_eq!(rx.get().unwrap_err(), usb_gadget::value::RecvError::Taken);
}

#[test]
fn value_channel_disconnected() {
    let (tx, mut rx) = usb_gadget::value::channel::<u32>();
    drop(tx);
    assert_eq!(rx.get().unwrap_err(), usb_gadget::value::RecvError::Disconnected);
    assert_eq!(rx.wait().unwrap_err(), usb_gadget::value::RecvError::Disconnected);
}
