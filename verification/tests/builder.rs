//! Tests of the custom-function descriptor-set builder.

use usb_gadget::custom::{
    Association, CustomBuilder, Direction, Endpoint, Interface, OsExtCompat, OsExtProp,
    OsRegValue,
};
use usb_gadget::{Class, GadgetError};

fn two_endpoint_builder() -> CustomBuilder {
    let interface = Interface::new(Class::vendor_specific(1, 1), "custom interface")
        .with_endpoint(Endpoint::bulk(Direction::HostToDevice))
        .with_endpoint(Endpoint::bulk(Direction::DeviceToHost));
    CustomBuilder::new().with_interface(interface)
}

#[test]
fn custom_descriptors_and_strings_layout() {
    let builder = two_endpoint_builder();
    let (descs_data, strs_data) = builder.ffs_descriptors_and_strings_with_version(0x0100).unwrap();

    let mut expected = vec![
        3, 0, 0, 0, // magic
        109, 0, 0, 0, // total length
        15, 0, 0, 0, // flags: the four mandatory HAS_* bits
        3, 0, 0, 0, // full-speed count
        3, 0, 0, 0, // high-speed count
        5, 0, 0, 0, // super-speed count
        0, 0, 0, 0, // OS descriptor count
    ];
    let if_desc = [9, 4, 0, 0, 2, 0xff, 1, 1, 1];
    // full speed: maximum packet size 0
    expected.extend_from_slice(&if_desc);
    expected.extend_from_slice(&[7, 5, 0x01, 2, 0, 0, 1]);
    expected.extend_from_slice(&[7, 5, 0x82, 2, 0, 0, 0]);
    // high speed: maximum packet size 512
    expected.extend_from_slice(&if_desc);
    expected.extend_from_slice(&[7, 5, 0x01, 2, 0, 2, 1]);
    expected.extend_from_slice(&[7, 5, 0x82, 2, 0, 2, 0]);
    // super speed: maximum packet size 1024, with companion descriptors
    expected.extend_from_slice(&if_desc);
    expected.extend_from_slice(&[7, 5, 0x01, 2, 0, 4, 1]);
    expected.extend_from_slice(&[6, 0x30, 0, 0, 0, 0]);
    expected.extend_from_slice(&[7, 5, 0x82, 2, 0, 4, 0]);
    expected.extend_from_slice(&[6, 0x30, 0, 0, 0, 0]);
    assert_eq!(descs_data, expected);

    let mut expected_strs = vec![
        2, 0, 0, 0, // magic
        35, 0, 0, 0, // total length
        1, 0, 0, 0, // string count
        1, 0, 0, 0, // language count
        0x09, 0x04, // language id
    ];
    expected_strs.extend_from_slice(b"custom interface\0");
    assert_eq!(strs_data, expected_strs);
}

#[test]
fn association_groups_adjacent_interfaces() {
    let assoc = Association::new(1, Class::new(0x0e, 3, 0), "assoc");
    let builder = CustomBuilder::new()
        .with_interface(
            Interface::new(Class::vendor_specific(1, 1), "first")
                .with_association(assoc.clone()),
        )
        .with_interface(
            Interface::new(Class::vendor_specific(1, 2), "second")
                .with_association(assoc.clone()),
        );
    let (descs, strings) = builder.ffs_descs().unwrap();
    // the association descriptor covers interfaces 0 and 1 and stands at
    // the end of each speed tier's list
    let data = descs.to_bytes(0x0100).unwrap();
    let tail = &data[data.len() - 8..];
    assert_eq!(tail, &[8, 0x0b, 0, 2, 0x0e, 3, 0, 2]);
    // the string table holds the two interface names and the function name
    let strs = strings.to_bytes().unwrap();
    assert_eq!(&strs[8..12], &[3, 0, 0, 0]);
}

#[test]
fn association_rejects_non_adjacent_interfaces() {
    let assoc = Association::new(7, Class::new(0x0e, 3, 0), "assoc");
    let builder = CustomBuilder::new()
        .with_interface(
            Interface::new(Class::vendor_specific(1, 1), "first")
                .with_association(assoc.clone()),
        )
        .with_interface(Interface::new(Class::vendor_specific(1, 2), "middle"))
        .with_interface(
            Interface::new(Class::vendor_specific(1, 3), "third")
                .with_association(assoc.clone()),
        );
    assert_eq!(
        builder.ffs_descs().unwrap_err(),
        GadgetError::AssociatedInterfacesNotAdjacent
    );
}

#[test]
fn endpoint_numbering_overflows_at_direction_bit() {
    let mut interface = Interface::new(Class::vendor_specific(1, 1), "wide");
    for _ in 0..127 {
        interface = interface.with_endpoint(Endpoint::bulk(Direction::DeviceToHost));
    }
    let builder = CustomBuilder::new().with_interface(interface);
    // 127 endpoints are the maximum
    builder.ffs_descs().unwrap();

    let mut interface = Interface::new(Class::vendor_specific(1, 1), "toowide");
    for _ in 0..128 {
        interface = interface.with_endpoint(Endpoint::bulk(Direction::DeviceToHost));
    }
    let builder = CustomBuilder::new().with_interface(interface);
    assert_eq!(builder.ffs_descs().unwrap_err(), GadgetError::TooManyEndpoints);
}

#[test]
fn os_extension_descriptors_emitted() {
    let interface = Interface::new(Class::vendor_specific(1, 1), "winusb")
        .with_os_ext_compat(OsExtCompat::winusb())
        .with_os_ext_prop(OsExtProp::new(
            "DeviceInterfaceGUID",
            OsRegValue::Sz(String::from("{1234}")),
        ));
    let builder = CustomBuilder::new().with_interface(interface);
    let (descs, _strings) = builder.ffs_descs().unwrap();
    assert_eq!(descs.os_descrs.len(), 2);
    let data = descs.to_bytes(0x0100).unwrap();
    // OS descriptor count
    assert_eq!(&data[24..28], &[2, 0, 0, 0]);
}

#[test]
fn builder_flags_follow_options() {
    let mut builder = two_endpoint_builder();
    builder.all_ctrl_recipient = true;
    builder.config0_setup = true;
    let (descs, _) = builder.ffs_descs().unwrap();
    assert_eq!(descs.flags, 192);
    let data = descs.to_bytes(0x0001).unwrap();
    // the encoded flag word adds the four mandatory bits
    assert_eq!(&data[8..12], &[207, 0, 0, 0]);
}

#[test]
fn string_indexes_overflow() {
    // every interface adds one string; the string index field holds at
    // most 255
    let mut builder = CustomBuilder::new();
    for i in 0..256 {
        builder = builder
            .with_interface(Interface::new(Class::vendor_specific(1, 1), &format!("i{i}")));
    }
    assert_eq!(builder.ffs_descs().unwrap_err(), GadgetError::TooManyStrings);

    let mut builder = CustomBuilder::new();
    for i in 0..255 {
        builder = builder
            .with_interface(Interface::new(Class::vendor_specific(1, 1), &format!("i{i}")));
    }
    builder.ffs_descs().unwrap();
}

#[test]
fn custom_descriptors_follow_the_interface() {
    let interface = Interface::new(Class::vendor_specific(1, 1), "x")
        .with_custom_desc(usb_gadget::ffs::CustomDesc::new(0x44, vec![0xde, 0xad]));
    let builder = CustomBuilder::new().with_interface(interface);
    let (descs, _) = builder.ffs_descs().unwrap();
    let data = descs.to_bytes(0x0001).unwrap();
    // full-speed list: interface descriptor, then the custom record
    assert_eq!(&data[28..37], &[9, 4, 0, 0, 0, 0xff, 1, 1, 1]);
    assert_eq!(&data[37..41], &[4, 0x44, 0xde, 0xad]);
}

#[test]
fn interface_strings_share_the_table() {
    let builder = CustomBuilder::new()
        .with_interface(Interface::new(Class::vendor_specific(1, 1), "one"))
        .with_interface(Interface::new(Class::vendor_specific(1, 2), "two"));
    let (descs, strings) = builder.ffs_descs().unwrap();
    // two interfaces, string indexes 1 and 2
    let data = descs.to_bytes(0x0001).unwrap();
    assert_eq!(data[28 + 8], 1); // name index of interface 0
    assert_eq!(data[28 + 17], 2); // name index of interface 1
    let strs = strings.to_bytes().unwrap();
    assert_eq!(&strs[8..12], &[2, 0, 0, 0]);
    assert_eq!(&strs[16..18], &[0x09, 0x04]);
    assert_eq!(&strs[18..26], b"one\0two\0");
}
