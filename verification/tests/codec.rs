//! Tests of the function filesystem wire codec.

use usb_gadget::ffs::{
    CtrlReq, CustomDesc, Desc, Descs, EndpointDesc, Error, Event, InterfaceAssocDesc,
    InterfaceDesc, MountOptions, OsDesc, OsDescExt, OsExtCompat, OsExtProp, SsEndpointComp,
    Strings,
};
use usb_gadget::Language;

#[test]
fn endpoint_desc_record_seven_bytes() {
    let desc = Desc::Endpoint(EndpointDesc {
        endpoint_address: 0x81,
        attributes: 0x02,
        max_packet_size: 512,
        interval: 0,
        audio: None,
    });
    let bytes = desc.to_bytes().unwrap();
    assert_eq!(bytes, vec![7, 0x05, 0x81, 0x02, 0x00, 0x02, 0]);
}

#[test]
fn endpoint_desc_record_nine_bytes() {
    let desc = Desc::Endpoint(EndpointDesc {
        endpoint_address: 0x01,
        attributes: 0x01,
        max_packet_size: 0x1234,
        interval: 4,
        audio: Some(usb_gadget::ffs::AudioEndpointDesc { refresh: 7, synch_address: 0x85 }),
    });
    let bytes = desc.to_bytes().unwrap();
    assert_eq!(bytes, vec![9, 0x05, 0x01, 0x01, 0x34, 0x12, 4, 7, 0x85]);
}

#[test]
fn endpoint_desc_roundtrip_seven_bytes() {
    let original = EndpointDesc {
        endpoint_address: 0x82,
        attributes: 0x02,
        max_packet_size: 64,
        interval: 9,
        audio: None,
    };
    let bytes = Desc::Endpoint(original).to_bytes().unwrap();
    let parsed = EndpointDesc::parse(&bytes).unwrap();
    assert_eq!(parsed, original);
}

#[test]
fn endpoint_desc_roundtrip_nine_bytes() {
    let original = EndpointDesc {
        endpoint_address: 0x03,
        attributes: 0x05,
        max_packet_size: 1024,
        interval: 1,
        audio: Some(usb_gadget::ffs::AudioEndpointDesc { refresh: 2, synch_address: 0x84 }),
    };
    let bytes = Desc::Endpoint(original).to_bytes().unwrap();
    let parsed = EndpointDesc::parse(&bytes).unwrap();
    assert_eq!(parsed, original);
}

#[test]
fn endpoint_desc_parse_rejects_bad_size() {
    let err = EndpointDesc::parse(&[8, 0x05, 0, 0, 0, 0, 0, 0]).unwrap_err();
    assert_eq!(err, usb_gadget::ffs::ParseError::SizeMismatch);
}

#[test]
fn endpoint_desc_parse_rejects_bad_type() {
    let err = EndpointDesc::parse(&[7, 0x04, 0, 0, 0, 0, 0]).unwrap_err();
    assert_eq!(err, usb_gadget::ffs::ParseError::TypeMismatch);
}

#[test]
fn endpoint_desc_parse_rejects_truncated() {
    let err = EndpointDesc::parse(&[9, 0x05, 0, 0, 0, 0, 0]).unwrap_err();
    assert_eq!(err, usb_gadget::ffs::ParseError::Truncated);
}

#[test]
fn interface_desc_record_length_prefix() {
    let desc = Desc::Interface(InterfaceDesc {
        interface_number: 2,
        alternate_setting: 0,
        num_endpoints: 3,
        interface_class: 0xff,
        interface_sub_class: 1,
        interface_protocol: 2,
        name_idx: 1,
    });
    let bytes = desc.to_bytes().unwrap();
    assert_eq!(bytes.len(), bytes[0] as usize);
    assert_eq!(bytes, vec![9, 0x04, 2, 0, 3, 0xff, 1, 2, 1]);
}

#[test]
fn interface_assoc_desc_record() {
    let desc = Desc::InterfaceAssoc(InterfaceAssocDesc {
        first_interface: 1,
        interface_count: 2,
        function_class: 0x0e,
        function_sub_class: 3,
        function_protocol: 0,
        name_idx: 4,
    });
    let bytes = desc.to_bytes().unwrap();
    assert_eq!(bytes, vec![8, 0x0b, 1, 2, 0x0e, 3, 0, 4]);
}

#[test]
fn ss_endpoint_comp_record() {
    let desc = Desc::SsEndpointComp(SsEndpointComp {
        max_burst: 15,
        attributes: 0,
        bytes_per_interval: 0x0102,
    });
    let bytes = desc.to_bytes().unwrap();
    assert_eq!(bytes, vec![6, 0x30, 15, 0, 0x02, 0x01]);
}

#[test]
fn custom_desc_record_length_prefix() {
    let desc = Desc::Custom(CustomDesc::new(0x44, vec![1, 2, 3]));
    let bytes = desc.to_bytes().unwrap();
    assert_eq!(bytes.len(), bytes[0] as usize);
    assert_eq!(bytes, vec![5, 0x44, 1, 2, 3]);
}

#[test]
fn custom_desc_record_overflow() {
    let desc = Desc::Custom(CustomDesc::new(0x44, vec![0; 254]));
    assert_eq!(desc.to_bytes().unwrap_err(), Error::Overflow);
}

#[test]
fn descs_blob_layout() {
    let if_desc = InterfaceDesc {
        interface_number: 0,
        alternate_setting: 0,
        num_endpoints: 0,
        interface_class: 0xff,
        interface_sub_class: 1,
        interface_protocol: 1,
        name_idx: 1,
    };
    let descs = Descs {
        flags: 0,
        eventfd: None,
        fs_descrs: vec![Desc::Interface(if_desc)],
        hs_descrs: vec![Desc::Interface(if_desc)],
        ss_descrs: vec![Desc::Interface(if_desc)],
        os_descrs: Vec::new(),
    };
    let bytes = descs.to_bytes(0x0100).unwrap();
    let mut expected = vec![
        3, 0, 0, 0, // magic
        55, 0, 0, 0, // total length: 28 byte header + three 9 byte records
        15, 0, 0, 0, // flags: the four mandatory HAS_* bits
        1, 0, 0, 0, // full-speed count
        1, 0, 0, 0, // high-speed count
        1, 0, 0, 0, // super-speed count
        0, 0, 0, 0, // OS descriptor count
    ];
    for _ in 0..3 {
        expected.extend_from_slice(&[9, 0x04, 0, 0, 0, 0xff, 1, 1, 1]);
    }
    assert_eq!(bytes, expected);
    // total-length field equals the blob length
    assert_eq!(bytes.len(), 55);
}

#[test]
fn descs_blob_with_eventfd() {
    let descs = Descs {
        flags: 0,
        eventfd: Some(5),
        fs_descrs: Vec::new(),
        hs_descrs: Vec::new(),
        ss_descrs: Vec::new(),
        os_descrs: Vec::new(),
    };
    let bytes = descs.to_bytes(0x0001).unwrap();
    let expected = vec![
        3, 0, 0, 0, // magic
        32, 0, 0, 0, // total length: header only, eventfd included
        47, 0, 0, 0, // flags: mandatory bits plus the eventfd bit
        5, 0, 0, 0, // eventfd
        0, 0, 0, 0, 0, 0, 0, 0, 0, 0, 0, 0, 0, 0, 0, 0, // counts
    ];
    assert_eq!(bytes, expected);
}

#[test]
fn os_desc_ext_compat_blob() {
    let desc = OsDesc {
        interface: 0,
        ext: OsDescExt::ExtCompat(vec![OsExtCompat {
            first_interface_number: 0,
            compatible_id: *b"WINUSB\0\0",
            sub_compatible_id: [0; 8],
        }]),
    };
    let bytes = desc.to_bytes(0x0100).unwrap();
    let mut expected = vec![
        0, // interface
        35, 0, 0, 0, // length: 5 byte prefix + 6 byte header + 24 byte record
        0, 1, // bcdVersion
        4, 0, // wIndex for extended compatibility
        1, 0, // count and padding
        0, 1, // record: first interface, the constant 1
    ];
    expected.extend_from_slice(b"WINUSB\0\0");
    expected.extend_from_slice(&[0; 8]);
    expected.extend_from_slice(&[0; 6]);
    assert_eq!(bytes, expected);
}

#[test]
fn os_desc_ext_prop_blob() {
    let desc = OsDesc {
        interface: 1,
        ext: OsDescExt::ExtProp(vec![OsExtProp {
            data_type: 1,
            name: b"Icons\0".to_vec(),
            data: vec![0x41, 0x00],
        }]),
    };
    let bytes = desc.to_bytes(0x0001).unwrap();
    let mut expected = vec![
        1, // interface
        33, 0, 0, 0, // length: 5 byte prefix + 6 byte header + 22 byte record
        1, 0, // bcdVersion
        5, 0, // wIndex for extended properties
        1, 0, // property count
        22, 0, 0, 0, // record length: 14 + 6 byte name + 2 byte data
        1, 0, 0, 0, // data type
        6, 0, // name length
    ];
    expected.extend_from_slice(b"Icons\0");
    expected.extend_from_slice(&[2, 0, 0, 0]); // data length
    expected.extend_from_slice(&[0x41, 0x00]);
    assert_eq!(bytes, expected);
}

#[test]
fn strings_blob_layout() {
    let table = Strings(vec![(
        Language::EnglishUnitedStates,
        vec![String::from("ab")],
    )]);
    let bytes = table.to_bytes().unwrap();
    let expected = vec![
        2, 0, 0, 0, // magic
        21, 0, 0, 0, // total length: 16 byte header + 2 byte language id + 3 string bytes
        1, 0, 0, 0, // string count
        1, 0, 0, 0, // language count
        0x09, 0x04, // language id
        b'a', b'b', 0, // the string, NUL-terminated
    ];
    assert_eq!(bytes, expected);
}

#[test]
fn strings_blob_counts_per_language() {
    let table = Strings(vec![
        (Language::EnglishUnitedStates, vec![String::from("a"), String::from("b")]),
        (Language::GermanStandard, vec![String::from("c"), String::from("d")]),
    ]);
    let bytes = table.to_bytes().unwrap();
    // string count 2, language count 2
    assert_eq!(&bytes[8..12], &[2, 0, 0, 0]);
    assert_eq!(&bytes[12..16], &[2, 0, 0, 0]);
    // each language section holds exactly two NUL terminators
    let first = &bytes[18..22];
    assert_eq!(first.iter().filter(|b| **b == 0).count(), 2);
    let second = &bytes[24..28];
    assert_eq!(second.iter().filter(|b| **b == 0).count(), 2);
}

#[test]
fn strings_differ_across_languages() {
    let table = Strings(vec![
        (Language::EnglishUnitedStates, vec![String::from("a")]),
        (Language::GermanStandard, vec![String::from("b"), String::from("c")]),
    ]);
    assert_eq!(table.to_bytes().unwrap_err(), Error::StringsDifferAcrossLanguages);
}

#[test]
fn strings_empty_table() {
    let table = Strings(Vec::new());
    let bytes = table.to_bytes().unwrap();
    assert_eq!(bytes, vec![2, 0, 0, 0, 16, 0, 0, 0, 0, 0, 0, 0, 0, 0, 0, 0]);
}

#[test]
fn ctrl_req_parse_fields() {
    let req = CtrlReq::parse(&[0x80, 0x06, 0x00, 0x01, 0x09, 0x04, 0x12, 0x00]).unwrap();
    assert_eq!(req.request_type, 0x80);
    assert_eq!(req.request, 0x06);
    assert_eq!(req.value, 0x0100);
    assert_eq!(req.index, 0x0409);
    assert_eq!(req.length, 0x0012);
}

#[test]
fn ctrl_req_parse_short() {
    assert!(CtrlReq::parse(&[1, 2, 3]).is_err());
}

#[test]
fn event_parse_record() {
    let buf = [1, 2, 3, 4, 5, 6, 7, 8, 4, 0, 0, 0];
    let event = Event::parse(&buf).unwrap();
    assert_eq!(event.data, [1, 2, 3, 4, 5, 6, 7, 8]);
    assert_eq!(event.event_type, 4);
}

#[test]
fn event_parse_short() {
    assert!(Event::parse(&[0; 11]).is_err());
}

#[test]
fn mount_options_empty() {
    let opts = MountOptions::default();
    assert_eq!(opts.to_mount_data(), "");
}

#[test]
fn mount_options_all_set() {
    let opts = MountOptions {
        no_disconnect: true,
        rmode: Some(0o777),
        fmode: Some(0o660),
        mode: Some(0o770),
        uid: Some(1000),
        gid: Some(27),
    };
    assert_eq!(
        opts.to_mount_data(),
        "no_disconnect=1,rmode=511,fmode=432,mode=504,uid=1000,gid=27"
    );
}

#[test]
fn mount_options_partial() {
    let mut opts = MountOptions::default();
    opts.uid = Some(0);
    opts.no_disconnect = true;
    assert_eq!(opts.to_mount_data(), "no_disconnect=1,uid=0");
}
