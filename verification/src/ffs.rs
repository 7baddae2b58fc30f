//! The binary descriptor and string formats of the kernel's function
//! filesystem.
//!
//! Everything here is a pure codec: structured interface, endpoint and
//! string data in, the exact byte layout the kernel driver parses out.

use vstd::bytes::{spec_u16_to_le_bytes, spec_u32_to_le_bytes, u16_to_le_bytes, u32_to_le_bytes};
use vstd::prelude::*;

use crate::codec::{lemma_concat_map_take, push_bytes, spec_concat_map};

verus! {

/// Failure while encoding descriptors or strings.
#[derive(Debug, Clone, Copy, PartialEq, Eq, Structural)]
pub enum Error {
    /// Two languages in a string table carry different string counts.
    StringsDifferAcrossLanguages,
    /// Too many descriptor entries, strings or bytes for a count field.
    Overflow,
}

impl Error {
    /// Human-readable description of the failure.
    pub fn message(&self) -> (r: String)
        ensures
            *self == Error::StringsDifferAcrossLanguages ==> r@ == "string count differs across languages"@,
            *self == Error::Overflow ==> r@ == "too many descriptor entries"@,
    {
        match self {
            Error::StringsDifferAcrossLanguages => String::from_str(
                "string count differs across languages",
            ),
            Error::Overflow => String::from_str("too many descriptor entries"),
        }
    }
}

/// Failure while parsing a fixed-layout record.
#[derive(Debug, Clone, Copy, PartialEq, Eq, Structural)]
pub enum ParseError {
    /// The input is shorter than the record.
    Truncated,
    /// The length byte does not match any known record size.
    SizeMismatch,
    /// The type tag does not match the expected record type.
    TypeMismatch,
}

impl ParseError {
    /// Human-readable description of the failure.
    pub fn message(&self) -> (r: String)
        ensures
            *self == ParseError::Truncated ==> r@ == "record is truncated"@,
            *self == ParseError::SizeMismatch ==> r@ == "endpoint descriptor size mismatch"@,
            *self == ParseError::TypeMismatch ==> r@ == "endpoint descriptor type mismatch"@,
    {
        match self {
            ParseError::Truncated => String::from_str("record is truncated"),
            ParseError::SizeMismatch => String::from_str("endpoint descriptor size mismatch"),
            ParseError::TypeMismatch => String::from_str("endpoint descriptor type mismatch"),
        }
    }
}

/// USB direction to device.
pub const DIR_OUT: u8 = 0x00;

/// USB direction to host.
pub const DIR_IN: u8 = 0x80;

/// Full-speed descriptors are present. Always set.
pub const FLAG_HAS_FS_DESC: u32 = 1;

/// High-speed descriptors are present. Always set.
pub const FLAG_HAS_HS_DESC: u32 = 2;

/// Super-speed descriptors are present. Always set.
pub const FLAG_HAS_SS_DESC: u32 = 4;

/// OS-extension descriptors are present. Always set.
pub const FLAG_HAS_MS_OS_DESC: u32 = 8;

/// Buffer addresses are virtual.
pub const FLAG_VIRTUAL_ADDR: u32 = 16;

/// An eventfd follows the flags field. Set iff an eventfd is attached.
pub const FLAG_EVENTFD: u32 = 32;

/// Receive control requests not explicitly directed to an interface or
/// endpoint.
pub const FLAG_ALL_CTRL_RECIP: u32 = 64;

/// Receive control requests in configuration 0.
pub const FLAG_CONFIG0_SETUP: u32 = 128;

/// USB interface descriptor.
#[derive(Debug, Clone, Copy, PartialEq, Eq, Structural)]
pub struct InterfaceDesc {
    /// Interface number.
    pub interface_number: u8,
    /// Alternate setting.
    pub alternate_setting: u8,
    /// Number of endpoints.
    pub num_endpoints: u8,
    /// Interface class.
    pub interface_class: u8,
    /// Interface subclass.
    pub interface_sub_class: u8,
    /// Interface protocol.
    pub interface_protocol: u8,
    /// Index of the interface name in the string table.
    pub name_idx: u8,
}

/// Body of an interface descriptor record: type tag, then the fields.
pub open spec fn spec_interface_desc_body(d: InterfaceDesc) -> Seq<u8> {
    seq![
        0x04u8,
        d.interface_number,
        d.alternate_setting,
        d.num_endpoints,
        d.interface_class,
        d.interface_sub_class,
        d.interface_protocol,
        d.name_idx,
    ]
}

impl InterfaceDesc {
    /// Interface descriptor type tag.
    pub const TYPE: u8 = 0x04;

    /// Appends the type tag and fields to `data`.
    pub fn write(&self, data: &mut Vec<u8>)
        ensures
            final(data)@ == old(data)@ + spec_interface_desc_body(*self),
    {
        data.push(0x04);
        data.push(self.interface_number);
        data.push(self.alternate_setting);
        data.push(self.num_endpoints);
        data.push(self.interface_class);
        data.push(self.interface_sub_class);
        data.push(self.interface_protocol);
        data.push(self.name_idx);
        proof {
            assert(data@ =~= old(data)@ + spec_interface_desc_body(*self));
        }
    }
}

/// Audio-part of a USB endpoint descriptor.
#[derive(Debug, Clone, Copy, PartialEq, Eq, Structural)]
pub struct AudioEndpointDesc {
    /// Refresh.
    pub refresh: u8,
    /// Sync address.
    pub synch_address: u8,
}

/// USB endpoint descriptor.
#[derive(Debug, Clone, Copy, PartialEq, Eq, Structural)]
pub struct EndpointDesc {
    /// Endpoint address: endpoint number, with bit `0x80` set for
    /// device-to-host endpoints.
    pub endpoint_address: u8,
    /// Attributes: transfer type with sync and usage sub-fields.
    pub attributes: u8,
    /// Maximum packet size.
    pub max_packet_size: u16,
    /// Interval.
    pub interval: u8,
    /// Audio-endpoint specific data.
    pub audio: Option<AudioEndpointDesc>,
}

/// Body of an endpoint descriptor record: type tag, then the fields, with
/// the optional two-byte audio extension at the end.
pub open spec fn spec_endpoint_desc_body(d: EndpointDesc) -> Seq<u8> {
    seq![0x05u8, d.endpoint_address, d.attributes] + spec_u16_to_le_bytes(d.max_packet_size)
        + seq![d.interval] + (match d.audio {
        Option::Some(a) => seq![a.refresh, a.synch_address],
        Option::None => Seq::empty(),
    })
}

/// Complete endpoint descriptor record, length byte included: 7 bytes
/// without the audio extension, 9 bytes with it.
pub open spec fn spec_endpoint_desc_bytes(d: EndpointDesc) -> Seq<u8> {
    seq![(1 + spec_endpoint_desc_body(d).len()) as u8] + spec_endpoint_desc_body(d)
}

/// The endpoint descriptor encoded in the first `s[0]` bytes of `s`, if the
/// bytes start with a well-formed record.
pub open spec fn spec_parse_endpoint_desc(s: Seq<u8>) -> Option<EndpointDesc> {
    if s.len() >= 2 && (s[0] == 7 || s[0] == 9) && s[1] == 0x05 && s.len() >= s[0] {
        Option::Some(
            EndpointDesc {
                endpoint_address: s[2],
                attributes: s[3],
                max_packet_size: vstd::bytes::spec_u16_from_le_bytes(s.subrange(4, 6)),
                interval: s[6],
                audio: if s[0] == 9 {
                    Option::Some(AudioEndpointDesc { refresh: s[7], synch_address: s[8] })
                } else {
                    Option::None
                },
            },
        )
    } else {
        Option::None
    }
}

impl EndpointDesc {
    /// Endpoint descriptor type tag.
    pub const TYPE: u8 = 0x05;

    /// Record size without the audio extension.
    pub const SIZE: usize = 7;

    /// Record size with the audio extension.
    pub const AUDIO_SIZE: usize = 9;

    /// Appends the type tag and fields to `data`.
    pub fn write(&self, data: &mut Vec<u8>)
        ensures
            final(data)@ == old(data)@ + spec_endpoint_desc_body(*self),
    {
        data.push(0x05);
        data.push(self.endpoint_address);
        data.push(self.attributes);
        let mut packet = u16_to_le_bytes(self.max_packet_size);
        data.append(&mut packet);
        data.push(self.interval);
        match &self.audio {
            Option::Some(audio) => {
                data.push(audio.refresh);
                data.push(audio.synch_address);
            },
            Option::None => {},
        }
        proof {
            assert(data@ =~= old(data)@ + spec_endpoint_desc_body(*self));
        }
    }

    /// Parse from raw descriptor data.
    ///
    /// Trailing bytes beyond the record's length byte are ignored.
    pub fn parse(data: &[u8]) -> (r: Result<EndpointDesc, ParseError>)
        ensures
            match r {
                Ok(d) => spec_parse_endpoint_desc(data@) == Option::Some(d),
                Err(e) => spec_parse_endpoint_desc(data@) is None && e == (
                if data@.len() >= 1 && data@[0] != 7 && data@[0] != 9 {
                    ParseError::SizeMismatch
                } else if data@.len() >= 2 && data@[1] != 0x05 {
                    ParseError::TypeMismatch
                } else {
                    ParseError::Truncated
                }),
            },
    {
        if data.len() < 1 {
            return Err(ParseError::Truncated);
        }
        let size = data[0];
        if size != 7 && size != 9 {
            return Err(ParseError::SizeMismatch);
        }
        if data.len() < 2 {
            return Err(ParseError::Truncated);
        }
        if data[1] != 0x05 {
            return Err(ParseError::TypeMismatch);
        }
        if data.len() < size as usize {
            return Err(ParseError::Truncated);
        }
        let endpoint_address = data[2];
        let attributes = data[3];
        let mut packet: Vec<u8> = Vec::new();
        packet.push(data[4]);
        packet.push(data[5]);
        proof {
            assert(packet@ =~= data@.subrange(4, 6));
        }
        let max_packet_size = vstd::bytes::u16_from_le_bytes(packet.as_slice());
        let interval = data[6];
        let audio = if size == 9 {
            Some(AudioEndpointDesc { refresh: data[7], synch_address: data[8] })
        } else {
            None
        };
        Ok(EndpointDesc { endpoint_address, attributes, max_packet_size, interval, audio })
    }
}

/// Super-speed endpoint companion descriptor.
#[derive(Debug, Clone, Copy, PartialEq, Eq, Structural)]
pub struct SsEndpointComp {
    /// Maximum number of packets per burst.
    pub max_burst: u8,
    /// Attributes.
    pub attributes: u8,
    /// Bytes per interval.
    pub bytes_per_interval: u16,
}

/// Body of a super-speed companion record: type tag, then the fields.
pub open spec fn spec_ss_endpoint_comp_body(d: SsEndpointComp) -> Seq<u8> {
    seq![0x30u8, d.max_burst, d.attributes] + spec_u16_to_le_bytes(d.bytes_per_interval)
}

impl SsEndpointComp {
    /// Super-speed companion descriptor type tag.
    pub const TYPE: u8 = 0x30;

    /// Appends the type tag and fields to `data`.
    pub fn write(&self, data: &mut Vec<u8>)
        ensures
            final(data)@ == old(data)@ + spec_ss_endpoint_comp_body(*self),
    {
        data.push(0x30);
        data.push(self.max_burst);
        data.push(self.attributes);
        let mut bytes = u16_to_le_bytes(self.bytes_per_interval);
        data.append(&mut bytes);
        proof {
            assert(data@ =~= old(data)@ + spec_ss_endpoint_comp_body(*self));
        }
    }
}

/// USB interface association descriptor.
#[derive(Debug, Clone, Copy, PartialEq, Eq, Structural)]
pub struct InterfaceAssocDesc {
    /// First interface of the association.
    pub first_interface: u8,
    /// Number of associated interfaces.
    pub interface_count: u8,
    /// Function class.
    pub function_class: u8,
    /// Function subclass.
    pub function_sub_class: u8,
    /// Function protocol.
    pub function_protocol: u8,
    /// Index of the function name in the string table.
    pub name_idx: u8,
}

/// Body of an interface association record: type tag, then the fields.
pub open spec fn spec_interface_assoc_desc_body(d: InterfaceAssocDesc) -> Seq<u8> {
    seq![
        0x0bu8,
        d.first_interface,
        d.interface_count,
        d.function_class,
        d.function_sub_class,
        d.function_protocol,
        d.name_idx,
    ]
}

impl InterfaceAssocDesc {
    /// Interface association descriptor type tag.
    pub const TYPE: u8 = 0x0b;

    /// Appends the type tag and fields to `data`.
    pub fn write(&self, data: &mut Vec<u8>)
        ensures
            final(data)@ == old(data)@ + spec_interface_assoc_desc_body(*self),
    {
        data.push(0x0b);
        data.push(self.first_interface);
        data.push(self.interface_count);
        data.push(self.function_class);
        data.push(self.function_sub_class);
        data.push(self.function_protocol);
        data.push(self.name_idx);
        proof {
            assert(data@ =~= old(data)@ + spec_interface_assoc_desc_body(*self));
        }
    }
}

/// Custom descriptor.
///
/// The raw descriptor published will be of the form:
/// `[length, descriptor_type, data...]`
#[derive(Debug, Clone, PartialEq, Eq)]
pub struct CustomDesc {
    /// Descriptor type.
    pub descriptor_type: u8,
    /// Custom data, without the length and descriptor type.
    pub data: Vec<u8>,
}

/// Body of a custom descriptor record: type tag, then the raw data.
pub open spec fn spec_custom_desc_body(d: CustomDesc) -> Seq<u8> {
    seq![d.descriptor_type] + d.data@
}

impl CustomDesc {
    /// Creates a new custom descriptor.
    ///
    /// The data must not include the length and descriptor type.
    pub fn new(descriptor_type: u8, data: Vec<u8>) -> (r: Self)
        ensures
            r == (CustomDesc { descriptor_type, data }),
    {
        Self { descriptor_type, data }
    }

    /// Appends the type tag and data to `data`.
    pub fn write(&self, data: &mut Vec<u8>)
        ensures
            final(data)@ == old(data)@ + spec_custom_desc_body(*self),
    {
        data.push(self.descriptor_type);
        push_bytes(data, self.data.as_slice());
        proof {
            assert(data@ =~= old(data)@ + spec_custom_desc_body(*self));
        }
    }

    /// An equal copy of this descriptor.
    pub fn duplicate(&self) -> (r: Self)
        ensures
            r.descriptor_type == self.descriptor_type,
            r.data@ == self.data@,
    {
        let mut data: Vec<u8> = Vec::new();
        push_bytes(&mut data, self.data.as_slice());
        proof {
            assert(data@ =~= self.data@);
        }
        CustomDesc { descriptor_type: self.descriptor_type, data }
    }
}

/// One USB descriptor record.
#[derive(Debug, Clone, PartialEq, Eq)]
pub enum Desc {
    /// Interface descriptor.
    Interface(InterfaceDesc),
    /// Endpoint descriptor.
    Endpoint(EndpointDesc),
    /// Super-speed endpoint companion descriptor.
    SsEndpointComp(SsEndpointComp),
    /// Interface association descriptor.
    InterfaceAssoc(InterfaceAssocDesc),
    /// Custom descriptor.
    Custom(CustomDesc),
}

/// Body of a descriptor record: the type tag and the type-specific fields,
/// everything but the leading length byte.
pub open spec fn spec_desc_body(d: Desc) -> Seq<u8> {
    match d {
        Desc::Interface(i) => spec_interface_desc_body(i),
        Desc::Endpoint(e) => spec_endpoint_desc_body(e),
        Desc::SsEndpointComp(c) => spec_ss_endpoint_comp_body(c),
        Desc::InterfaceAssoc(a) => spec_interface_assoc_desc_body(a),
        Desc::Custom(c) => spec_custom_desc_body(c),
    }
}

/// Whether the record, length byte included, fits its one-byte length field.
pub open spec fn spec_desc_len_ok(d: Desc) -> bool {
    1 + spec_desc_body(d).len() <= 255
}

/// Complete descriptor record: length byte, then the body.
pub open spec fn spec_desc_bytes(d: Desc) -> Seq<u8> {
    seq![(1 + spec_desc_body(d).len()) as u8] + spec_desc_body(d)
}

/// The length byte of an encoded record equals the number of bytes between
/// the record's start and the next record boundary.
pub proof fn lemma_desc_length_prefix(d: Desc)
    requires
        spec_desc_len_ok(d),
    ensures
        spec_desc_bytes(d).len() == spec_desc_bytes(d)[0] as int,
{
}

impl Desc {
    /// Encodes the record: length byte, type tag, body.
    ///
    /// Fails with [`Error::Overflow`] when the record does not fit its
    /// one-byte length field.
    pub fn to_bytes(&self) -> (r: Result<Vec<u8>, Error>)
        ensures
            match r {
                Ok(v) => spec_desc_len_ok(*self) && v@ == spec_desc_bytes(*self),
                Err(e) => !spec_desc_len_ok(*self) && e == Error::Overflow,
            },
    {
        let mut data: Vec<u8> = Vec::new();
        data.push(0);
        match self {
            Desc::Interface(d) => d.write(&mut data),
            Desc::Endpoint(d) => d.write(&mut data),
            Desc::SsEndpointComp(d) => d.write(&mut data),
            Desc::InterfaceAssoc(d) => d.write(&mut data),
            Desc::Custom(d) => d.write(&mut data),
        }
        if data.len() > 255 {
            return Err(Error::Overflow);
        }
        let len = data.len() as u8;
        data.set(0, len);
        proof {
            assert(data@ =~= spec_desc_bytes(*self));
        }
        Ok(data)
    }
}

/// Microsoft extended compatibility descriptor record.
#[derive(Debug, Clone, Copy, PartialEq, Eq)]
pub struct OsExtCompat {
    /// First interface number.
    pub first_interface_number: u8,
    /// Compatible ID string.
    pub compatible_id: [u8; 8],
    /// Sub-compatible ID string.
    pub sub_compatible_id: [u8; 8],
}

/// Encoding of an extended compatibility record: interface number, the
/// constant 1, both ID strings, six bytes of padding.
pub open spec fn spec_os_ext_compat_bytes(c: OsExtCompat) -> Seq<u8> {
    seq![c.first_interface_number, 1u8] + c.compatible_id@ + c.sub_compatible_id@ + seq![
        0u8,
        0u8,
        0u8,
        0u8,
        0u8,
        0u8,
    ]
}

impl OsExtCompat {
    /// Appends the record to `data`.
    pub fn write(&self, data: &mut Vec<u8>)
        ensures
            final(data)@ == old(data)@ + spec_os_ext_compat_bytes(*self),
    {
        data.push(self.first_interface_number);
        data.push(1);
        push_bytes(data, self.compatible_id.as_slice());
        push_bytes(data, self.sub_compatible_id.as_slice());
        let pad: [u8; 6] = [0, 0, 0, 0, 0, 0];
        push_bytes(data, pad.as_slice());
        proof {
            assert(pad@ =~= seq![0u8, 0u8, 0u8, 0u8, 0u8, 0u8]);
            assert(data@ =~= old(data)@ + spec_os_ext_compat_bytes(*self));
        }
    }
}

/// Microsoft extended property descriptor record.
#[derive(Debug, Clone, PartialEq, Eq)]
pub struct OsExtProp {
    /// Registry value type.
    pub data_type: u32,
    /// Property name bytes, terminating NUL included.
    pub name: Vec<u8>,
    /// Property value bytes.
    pub data: Vec<u8>,
}

/// Whether the property's name and data fit their length fields.
pub open spec fn spec_os_ext_prop_ok(p: OsExtProp) -> bool {
    p.name@.len() <= 0xffff && 14 + p.name@.len() + p.data@.len() <= 0xffff_ffff
}

/// Encoding of an extended property record: total length, value type, name
/// length, name, data length, data.
pub open spec fn spec_os_ext_prop_bytes(p: OsExtProp) -> Seq<u8> {
    spec_u32_to_le_bytes((14 + p.name@.len() + p.data@.len()) as u32) + spec_u32_to_le_bytes(
        p.data_type,
    ) + spec_u16_to_le_bytes(p.name@.len() as u16) + p.name@ + spec_u32_to_le_bytes(
        p.data@.len() as u32,
    ) + p.data@
}

impl OsExtProp {
    /// Encodes the record.
    ///
    /// Fails with [`Error::Overflow`] when the name or the total record
    /// length does not fit its length field.
    pub fn to_bytes(&self) -> (r: Result<Vec<u8>, Error>)
        ensures
            match r {
                Ok(v) => spec_os_ext_prop_ok(*self) && v@ == spec_os_ext_prop_bytes(*self),
                Err(e) => !spec_os_ext_prop_ok(*self) && e == Error::Overflow,
            },
    {
        if self.name.len() > 0xffff {
            return Err(Error::Overflow);
        }
        if self.data.len() > 0xffff_ffffusize - 14 - self.name.len() {
            return Err(Error::Overflow);
        }
        let total: u32 = (14 + self.name.len() + self.data.len()) as u32;
        let mut data: Vec<u8> = Vec::new();
        let mut part = u32_to_le_bytes(total);
        data.append(&mut part);
        let mut part = u32_to_le_bytes(self.data_type);
        data.append(&mut part);
        let mut part = u16_to_le_bytes(self.name.len() as u16);
        data.append(&mut part);
        push_bytes(&mut data, self.name.as_slice());
        let mut part = u32_to_le_bytes(self.data.len() as u32);
        data.append(&mut part);
        push_bytes(&mut data, self.data.as_slice());
        proof {
            assert(data@ =~= spec_os_ext_prop_bytes(*self));
        }
        Ok(data)
    }

    /// An equal copy of this record.
    pub fn duplicate(&self) -> (r: Self)
        ensures
            r.data_type == self.data_type,
            r.name@ == self.name@,
            r.data@ == self.data@,
    {
        let mut name: Vec<u8> = Vec::new();
        push_bytes(&mut name, self.name.as_slice());
        let mut data: Vec<u8> = Vec::new();
        push_bytes(&mut data, self.data.as_slice());
        proof {
            assert(name@ =~= self.name@);
            assert(data@ =~= self.data@);
        }
        OsExtProp { data_type: self.data_type, name, data }
    }
}

/// OS-extension descriptor payload: either a list of extended compatibility
/// records or a list of extended property records.
#[derive(Debug, Clone, PartialEq, Eq)]
pub enum OsDescExt {
    /// Extended compatibility descriptors.
    ExtCompat(Vec<OsExtCompat>),
    /// Extended property descriptors.
    ExtProp(Vec<OsExtProp>),
}

/// Whether the payload's counts and records fit their fields.
pub open spec fn spec_os_desc_ext_ok(ext: OsDescExt) -> bool {
    match ext {
        OsDescExt::ExtCompat(cs) => cs@.len() <= 255,
        OsDescExt::ExtProp(ps) => ps@.len() <= 0xffff && forall|i: int|
            0 <= i < ps@.len() ==> spec_os_ext_prop_ok(#[trigger] ps@[i]),
    }
}

/// Encoding of the payload for the given `bcdVersion` field value.
pub open spec fn spec_os_desc_ext_body(ext: OsDescExt, bcd_version: u16) -> Seq<u8> {
    match ext {
        OsDescExt::ExtCompat(cs) => spec_u16_to_le_bytes(bcd_version) + spec_u16_to_le_bytes(4)
            + seq![cs@.len() as u8, 0u8] + spec_concat_map(
            cs@,
            |c: OsExtCompat| spec_os_ext_compat_bytes(c),
        ),
        OsDescExt::ExtProp(ps) => spec_u16_to_le_bytes(bcd_version) + spec_u16_to_le_bytes(5)
            + spec_u16_to_le_bytes(ps@.len() as u16) + spec_concat_map(
            ps@,
            |p: OsExtProp| spec_os_ext_prop_bytes(p),
        ),
    }
}

impl OsDescExt {
    /// Appends the payload to `data`, with the given `bcdVersion` field.
    ///
    /// Fails with [`Error::Overflow`] when a count or record does not fit
    /// its field.
    pub fn write(&self, bcd_version: u16, data: &mut Vec<u8>) -> (r: Result<(), Error>)
        ensures
            match r {
                Ok(()) => spec_os_desc_ext_ok(*self) && final(data)@ == old(data)@
                    + spec_os_desc_ext_body(*self, bcd_version),
                Err(e) => !spec_os_desc_ext_ok(*self) && e == Error::Overflow,
            },
    {
        match self {
            OsDescExt::ExtCompat(compats) => {
                if compats.len() > 255 {
                    return Err(Error::Overflow);
                }
                let mut part = u16_to_le_bytes(bcd_version);
                data.append(&mut part);
                let mut part = u16_to_le_bytes(4);
                data.append(&mut part);
                data.push(compats.len() as u8);
                data.push(0);
                let ghost mid = data@;
                let ghost f = |c: OsExtCompat| spec_os_ext_compat_bytes(c);
                for i in 0..compats.len()
                    invariant
                        f == (|c: OsExtCompat| spec_os_ext_compat_bytes(c)),
                        data@ == mid + spec_concat_map(compats@.take(i as int), f),
                {
                    let c = &compats[i];
                    proof {
                        assert(*c == compats@[i as int]);
                    }
                    c.write(data);
                    proof {
                        lemma_concat_map_take(compats@, f, i as int);
                    }
                }
                proof {
                    assert(compats@.take(compats@.len() as int) =~= compats@);
                    assert(data@ =~= old(data)@ + spec_os_desc_ext_body(*self, bcd_version));
                }
                Ok(())
            },
            OsDescExt::ExtProp(props) => {
                if props.len() > 0xffff {
                    return Err(Error::Overflow);
                }
                let ghost g = |p: OsExtProp| spec_os_ext_prop_bytes(p);
                let mut body: Vec<u8> = Vec::new();
                for i in 0..props.len()
                    invariant
                        g == (|p: OsExtProp| spec_os_ext_prop_bytes(p)),
                        (*self) is ExtProp,
                        self->ExtProp_0 == *props,
                        props@.len() <= 0xffff,
                        body@ == spec_concat_map(props@.take(i as int), g),
                        forall|j: int| 0 <= j < i ==> spec_os_ext_prop_ok(#[trigger] props@[j]),
                {
                    let p = &props[i];
                    proof {
                        assert(*p == props@[i as int]);
                    }
                    let mut rec = match p.to_bytes() {
                        Ok(rec) => rec,
                        Err(e) => {
                            proof {
                                assert(!spec_os_ext_prop_ok(props@[i as int]));
                                if spec_os_desc_ext_ok(*self) {
                                    assert(spec_os_ext_prop_ok(props@[i as int]));
                                }
                            }
                            return Err(e);
                        },
                    };
                    body.append(&mut rec);
                    proof {
                        lemma_concat_map_take(props@, g, i as int);
                    }
                }
                proof {
                    assert(props@.take(props@.len() as int) =~= props@);
                }
                let mut part = u16_to_le_bytes(bcd_version);
                data.append(&mut part);
                let mut part = u16_to_le_bytes(5);
                data.append(&mut part);
                let mut part = u16_to_le_bytes(props.len() as u16);
                data.append(&mut part);
                data.append(&mut body);
                proof {
                    assert(data@ =~= old(data)@ + spec_os_desc_ext_body(*self, bcd_version));
                }
                Ok(())
            },
        }
    }
}

/// OS-extension descriptor for one interface.
#[derive(Debug, Clone, PartialEq, Eq)]
pub struct OsDesc {
    /// Interface number the extension applies to.
    pub interface: u8,
    /// Extension payload.
    pub ext: OsDescExt,
}

/// Whether the descriptor's payload and total length fit their fields.
pub open spec fn spec_os_desc_ok(d: OsDesc) -> bool {
    spec_os_desc_ext_ok(d.ext) && 5 + spec_os_desc_ext_body(d.ext, 0).len() <= 0xffff_ffff
}

/// Encoding of an OS-extension descriptor: interface number, patched total
/// length, payload.
pub open spec fn spec_os_desc_bytes(d: OsDesc, bcd_version: u16) -> Seq<u8> {
    seq![d.interface] + spec_u32_to_le_bytes(
        (5 + spec_os_desc_ext_body(d.ext, bcd_version).len()) as u32,
    ) + spec_os_desc_ext_body(d.ext, bcd_version)
}

impl OsDesc {
    /// Encodes the descriptor with the given `bcdVersion` field.
    ///
    /// Fails with [`Error::Overflow`] when a count or length does not fit
    /// its field.
    pub fn to_bytes(&self, bcd_version: u16) -> (r: Result<Vec<u8>, Error>)
        ensures
            match r {
                Ok(v) => spec_os_desc_ok(*self) && v@ == spec_os_desc_bytes(*self, bcd_version),
                Err(e) => !spec_os_desc_ok(*self) && e == Error::Overflow,
            },
    {
        let mut body: Vec<u8> = Vec::new();
        match self.ext.write(bcd_version, &mut body) {
            Ok(()) => {},
            Err(e) => {
                return Err(e);
            },
        }
        proof {
            lemma_os_desc_ext_body_len(self.ext, bcd_version, 0);
        }
        if body.len() > 0xffff_ffffusize - 5 {
            return Err(Error::Overflow);
        }
        let total: u32 = (5 + body.len()) as u32;
        let mut data: Vec<u8> = Vec::new();
        data.push(self.interface);
        let mut part = u32_to_le_bytes(total);
        data.append(&mut part);
        data.append(&mut body);
        proof {
            assert(data@ =~= spec_os_desc_bytes(*self, bcd_version));
        }
        Ok(data)
    }
}

/// The payload length does not depend on the `bcdVersion` value.
pub proof fn lemma_os_desc_ext_body_len(ext: OsDescExt, bcd_a: u16, bcd_b: u16)
    ensures
        spec_os_desc_ext_body(ext, bcd_a).len() == spec_os_desc_ext_body(ext, bcd_b).len(),
{
    vstd::bytes::lemma_auto_spec_u16_to_from_le_bytes();
}

/// The unsigned 32-bit value with the same bit pattern as `v`.
pub open spec fn spec_i32_bits(v: i32) -> u32 {
    if v >= 0 {
        v as u32
    } else {
        (v + 0x1_0000_0000) as u32
    }
}

/// Reinterprets a file descriptor as its unsigned bit pattern.
fn i32_bits(v: i32) -> (r: u32)
    ensures
        r == spec_i32_bits(v),
{
    if v >= 0 {
        v as u32
    } else {
        ((v as i64) + 0x1_0000_0000i64) as u32
    }
}

/// Whether every record of the list fits its length field.
pub open spec fn spec_desc_list_ok(s: Seq<Desc>) -> bool {
    forall|i: int| 0 <= i < s.len() ==> spec_desc_len_ok(#[trigger] s[i])
}

/// Concatenated encoding of a list of descriptor records.
pub open spec fn spec_desc_list_bytes(s: Seq<Desc>) -> Seq<u8> {
    spec_concat_map(s, |d: Desc| spec_desc_bytes(d))
}

/// Encodes a list of descriptor records back to back.
pub fn descs_to_bytes(descs: &Vec<Desc>, data: &mut Vec<u8>) -> (r: Result<(), Error>)
    ensures
        match r {
            Ok(()) => spec_desc_list_ok(descs@) && final(data)@ == old(data)@
                + spec_desc_list_bytes(descs@),
            Err(e) => !spec_desc_list_ok(descs@) && e == Error::Overflow,
        },
{
    let ghost start = data@;
    let ghost f = |d: Desc| spec_desc_bytes(d);
    for i in 0..descs.len()
        invariant
            f == (|d: Desc| spec_desc_bytes(d)),
            spec_desc_list_ok(descs@.take(i as int)),
            data@ == start + spec_concat_map(descs@.take(i as int), f),
    {
        let d = &descs[i];
        proof {
            assert(*d == descs@[i as int]);
        }
        let rec = match d.to_bytes() {
            Ok(rec) => rec,
            Err(e) => {
                proof {
                    assert(!spec_desc_len_ok(descs@[i as int]));
                }
                return Err(e);
            },
        };
        proof {
            assert(rec@ == spec_desc_bytes(descs@[i as int]));
        }
        let mut rec = rec;
        data.append(&mut rec);
        proof {
            lemma_concat_map_take(descs@, f, i as int);
            assert(f(descs@[i as int]) == spec_desc_bytes(descs@[i as int]));
            assert(data@ == start + spec_concat_map(descs@.take(i + 1), f));
            assert forall|j: int| 0 <= j < i + 1 implies spec_desc_len_ok(
                #[trigger] descs@.take(i + 1)[j],
            ) by {
                if j < i {
                    assert(descs@.take(i as int)[j] == descs@.take(i + 1)[j]);
                }
            }
        }
    }
    proof {
        assert(descs@.take(descs@.len() as int) =~= descs@);
    }
    Ok(())
}

/// Encoding then parsing an endpoint descriptor yields the original
/// fields back, for both the 7-byte form and the 9-byte form with the
/// audio extension.
pub proof fn lemma_endpoint_desc_roundtrip(d: EndpointDesc)
    ensures
        spec_parse_endpoint_desc(spec_endpoint_desc_bytes(d)) == Some(d),
{
    vstd::bytes::lemma_auto_spec_u16_to_from_le_bytes();
    let s = spec_endpoint_desc_bytes(d);
    match d.audio {
        Some(a) => {
            assert(s =~= seq![9u8, 0x05u8, d.endpoint_address, d.attributes] + spec_u16_to_le_bytes(
                d.max_packet_size,
            ) + seq![d.interval, a.refresh, a.synch_address]);
            assert(s.subrange(4, 6) =~= spec_u16_to_le_bytes(d.max_packet_size));
        },
        None => {
            assert(s =~= seq![7u8, 0x05u8, d.endpoint_address, d.attributes] + spec_u16_to_le_bytes(
                d.max_packet_size,
            ) + seq![d.interval]);
            assert(s.subrange(4, 6) =~= spec_u16_to_le_bytes(d.max_packet_size));
        },
    }
}

/// The byte distance between record boundaries: the concatenated
/// encoding of a record list splits at any record into the records
/// before it, its own bytes, and the records after it.
pub proof fn lemma_desc_list_split(s: Seq<Desc>, i: int)
    requires
        0 <= i < s.len(),
    ensures
        spec_desc_list_bytes(s) == spec_desc_list_bytes(s.take(i)) + spec_desc_bytes(s[i])
            + spec_desc_list_bytes(s.skip(i + 1)),
    decreases i,
{
    let f = |d: Desc| spec_desc_bytes(d);
    if i == 0 {
        assert(s.take(0) =~= Seq::<Desc>::empty());
        assert(s.drop_first() =~= s.skip(1));
        assert(spec_concat_map(s, f) == f(s[0]) + spec_concat_map(s.drop_first(), f));
        assert(spec_desc_list_bytes(s) =~= spec_desc_list_bytes(s.take(0)) + spec_desc_bytes(s[0])
            + spec_desc_list_bytes(s.skip(1)));
    } else {
        lemma_desc_list_split(s.drop_first(), i - 1);
        assert(s.drop_first().take(i - 1) =~= s.take(i).drop_first());
        assert(s.drop_first()[i - 1] == s[i]);
        assert(s.drop_first().skip(i) =~= s.skip(i + 1));
        assert(spec_concat_map(s, f) == f(s[0]) + spec_concat_map(s.drop_first(), f));
        assert(spec_concat_map(s.take(i), f) == f(s.take(i)[0]) + spec_concat_map(
            s.take(i).drop_first(),
            f,
        ));
        assert(s.take(i)[0] == s[0]);
        assert(spec_desc_list_bytes(s) =~= spec_desc_list_bytes(s.take(i)) + spec_desc_bytes(s[i])
            + spec_desc_list_bytes(s.skip(i + 1)));
    }
}

/// Length-prefix invariant over a whole record list: at every record
/// boundary, the length byte found there equals the number of bytes to
/// the next record boundary.
pub proof fn lemma_desc_list_length_prefix(s: Seq<Desc>, i: int)
    requires
        spec_desc_list_ok(s),
        0 <= i < s.len(),
    ensures
        ({
            let off = spec_desc_list_bytes(s.take(i)).len();
            let rec = spec_desc_bytes(s[i]);
            &&& off + rec.len() <= spec_desc_list_bytes(s).len()
            &&& spec_desc_list_bytes(s).subrange(off as int, off + rec.len() as int) == rec
            &&& spec_desc_list_bytes(s)[off as int] == rec.len()
        }),
{
    lemma_desc_list_split(s, i);
    lemma_desc_length_prefix(s[i]);
    let before = spec_desc_list_bytes(s.take(i));
    let rec = spec_desc_bytes(s[i]);
    let after = spec_desc_list_bytes(s.skip(i + 1));
    assert(spec_desc_list_bytes(s).subrange(
        before.len() as int,
        before.len() + rec.len() as int,
    ) =~= rec);
    assert(spec_desc_list_bytes(s)[before.len() as int] == rec[0]);
}

/// The blob's total-length field holds the full blob length.
pub proof fn lemma_descs_total_length(d: Descs, bcd_version: u16)
    requires
        spec_descs_ok(d, bcd_version),
    ensures
        spec_descs_bytes(d, bcd_version).len() == spec_descs_header_len(d) + spec_descs_body(
            d,
            bcd_version,
        ).len(),
        spec_descs_bytes(d, bcd_version).subrange(4, 8) == spec_u32_to_le_bytes(
            spec_descs_bytes(d, bcd_version).len() as u32,
        ),
{
    vstd::bytes::lemma_auto_spec_u32_to_from_le_bytes();
    let body = spec_descs_body(d, bcd_version);
    let total = (spec_descs_header_len(d) + body.len()) as u32;
    let bytes = spec_descs_bytes(d, bcd_version);
    assert(bytes.len() == spec_descs_header_len(d) + body.len());
    assert(bytes.subrange(4, 8) =~= spec_u32_to_le_bytes(total));
}

/// For a valid table whose strings contain no NUL bytes, each language's
/// section of the blob holds exactly the configured number of
/// NUL-terminated strings.
pub proof fn lemma_lang_section_nul_count(strs: Seq<String>)
    requires
        forall|i: int|
            0 <= i < strs.len() ==> crate::codec::spec_count_zeros(
                vstd::utf8::encode_utf8((#[trigger] strs[i])@),
            ) == 0,
    ensures
        crate::codec::spec_count_zeros(
            spec_concat_map(strs, |s: String| spec_string_nul_bytes(s)),
        ) == strs.len(),
    decreases strs.len(),
{
    let f = |s: String| spec_string_nul_bytes(s);
    if strs.len() == 0 {
        assert(crate::codec::spec_count_zeros(spec_concat_map(strs, f)) == 0);
    } else {
        lemma_lang_section_nul_count(strs.drop_first());
        assert(spec_concat_map(strs, f) == f(strs[0]) + spec_concat_map(strs.drop_first(), f));
        crate::codec::lemma_count_zeros_concat(f(strs[0]), spec_concat_map(strs.drop_first(), f));
        crate::codec::lemma_count_zeros_concat(
            vstd::utf8::encode_utf8(strs[0]@),
            seq![0u8],
        );
        let nul = seq![0u8];
        assert(nul.drop_first() =~= Seq::<u8>::empty());
        assert(crate::codec::spec_count_zeros(nul.drop_first()) == 0);
        assert(nul[0] == 0u8);
        assert(crate::codec::spec_count_zeros(nul) == 1);
    }
}

/// Ghost mirror of a descriptor record: a custom record's data as a byte
/// sequence, every other record by value.
pub enum DescView {
    /// Interface descriptor.
    Interface(InterfaceDesc),
    /// Endpoint descriptor.
    Endpoint(EndpointDesc),
    /// Super-speed endpoint companion descriptor.
    SsEndpointComp(SsEndpointComp),
    /// Interface association descriptor.
    InterfaceAssoc(InterfaceAssocDesc),
    /// Custom descriptor: type tag and data bytes.
    Custom(u8, Seq<u8>),
}

/// The ghost mirror of a descriptor record.
pub open spec fn spec_desc_view(d: Desc) -> DescView {
    match d {
        Desc::Interface(i) => DescView::Interface(i),
        Desc::Endpoint(e) => DescView::Endpoint(e),
        Desc::SsEndpointComp(c) => DescView::SsEndpointComp(c),
        Desc::InterfaceAssoc(a) => DescView::InterfaceAssoc(a),
        Desc::Custom(c) => DescView::Custom(c.descriptor_type, c.data@),
    }
}

/// The ghost mirrors of a list of descriptor records.
pub open spec fn spec_descs_view(s: Seq<Desc>) -> Seq<DescView> {
    s.map_values(|d: Desc| spec_desc_view(d))
}

/// Ghost mirror of an extended property record.
pub struct OsExtPropView {
    /// Registry value type.
    pub data_type: u32,
    /// Property name bytes, terminating NUL included.
    pub name: Seq<u8>,
    /// Property value bytes.
    pub data: Seq<u8>,
}

/// The ghost mirror of an extended property record.
pub open spec fn spec_os_ext_prop_view(p: OsExtProp) -> OsExtPropView {
    OsExtPropView { data_type: p.data_type, name: p.name@, data: p.data@ }
}

/// Ghost mirror of an OS-extension descriptor payload.
pub enum OsDescExtView {
    /// Extended compatibility descriptors.
    ExtCompat(Seq<OsExtCompat>),
    /// Extended property descriptors.
    ExtProp(Seq<OsExtPropView>),
}

/// Ghost mirror of an OS-extension descriptor.
pub struct OsDescView {
    /// Interface number the extension applies to.
    pub interface: u8,
    /// Extension payload.
    pub ext: OsDescExtView,
}

/// The ghost mirror of an OS-extension descriptor.
pub open spec fn spec_os_desc_view(d: OsDesc) -> OsDescView {
    OsDescView {
        interface: d.interface,
        ext: match d.ext {
            OsDescExt::ExtCompat(cs) => OsDescExtView::ExtCompat(cs@),
            OsDescExt::ExtProp(ps) => OsDescExtView::ExtProp(
                ps@.map_values(|p: OsExtProp| spec_os_ext_prop_view(p)),
            ),
        },
    }
}

/// The ghost mirrors of a list of OS-extension descriptors.
pub open spec fn spec_os_descs_view(s: Seq<OsDesc>) -> Seq<OsDescView> {
    s.map_values(|d: OsDesc| spec_os_desc_view(d))
}

/// Complete descriptor set for one function: descriptors replicated per
/// speed tier plus OS-extension descriptors.
#[derive(Debug, Clone, PartialEq, Eq)]
pub struct Descs {
    /// Flag bitset; the mandatory `HAS_*` bits and the eventfd bit are
    /// forced during encoding.
    pub flags: u32,
    /// Attached eventfd, if any.
    pub eventfd: Option<i32>,
    /// Full-speed descriptors.
    pub fs_descrs: Vec<Desc>,
    /// High-speed descriptors.
    pub hs_descrs: Vec<Desc>,
    /// Super-speed descriptors.
    pub ss_descrs: Vec<Desc>,
    /// OS-extension descriptors.
    pub os_descrs: Vec<OsDesc>,
}

/// Magic number of the descriptor blob.
pub const DESCS_MAGIC: u32 = 3;

/// Magic number of the string blob.
pub const STRINGS_MAGIC: u32 = 2;

/// The flag word as encoded: the mandatory `HAS_*` bits always set and the
/// eventfd bit set iff an eventfd is attached.
pub open spec fn spec_effective_flags(flags: u32, has_eventfd: bool) -> u32 {
    let f = flags | (FLAG_HAS_FS_DESC | FLAG_HAS_HS_DESC | FLAG_HAS_SS_DESC
        | FLAG_HAS_MS_OS_DESC);
    if has_eventfd {
        f | FLAG_EVENTFD
    } else {
        f & !FLAG_EVENTFD
    }
}

/// Whether every OS-extension descriptor of the list fits its fields.
pub open spec fn spec_os_desc_list_ok(s: Seq<OsDesc>) -> bool {
    forall|i: int| 0 <= i < s.len() ==> spec_os_desc_ok(#[trigger] s[i])
}

/// Concatenated encoding of a list of OS-extension descriptors.
pub open spec fn spec_os_desc_list_bytes(s: Seq<OsDesc>, bcd_version: u16) -> Seq<u8> {
    spec_concat_map(s, |d: OsDesc| spec_os_desc_bytes(d, bcd_version))
}

/// Length of the blob header: magic, length, flags, optional eventfd and
/// the four descriptor counts.
pub open spec fn spec_descs_header_len(d: Descs) -> int {
    if d.eventfd is Some {
        32
    } else {
        28
    }
}

/// The descriptor lists of the blob, encoded back to back: full speed,
/// high speed, super speed, then the OS-extension descriptors.
pub open spec fn spec_descs_body(d: Descs, bcd_version: u16) -> Seq<u8> {
    spec_desc_list_bytes(d.fs_descrs@) + spec_desc_list_bytes(d.hs_descrs@)
        + spec_desc_list_bytes(d.ss_descrs@) + spec_os_desc_list_bytes(d.os_descrs@, bcd_version)
}

/// Whether every record and every count of the blob fits its field.
pub open spec fn spec_descs_ok(d: Descs, bcd_version: u16) -> bool {
    &&& spec_desc_list_ok(d.fs_descrs@)
    &&& spec_desc_list_ok(d.hs_descrs@)
    &&& spec_desc_list_ok(d.ss_descrs@)
    &&& spec_os_desc_list_ok(d.os_descrs@)
    &&& d.fs_descrs@.len() <= 0xffff_ffff
    &&& d.hs_descrs@.len() <= 0xffff_ffff
    &&& d.ss_descrs@.len() <= 0xffff_ffff
    &&& d.os_descrs@.len() <= 0xffff_ffff
    &&& spec_descs_header_len(d) + spec_descs_body(d, bcd_version).len() <= 0xffff_ffff
}

/// The complete descriptor blob: magic, patched total length, flags,
/// optional eventfd, four counts, then the descriptor lists.
pub open spec fn spec_descs_bytes(d: Descs, bcd_version: u16) -> Seq<u8> {
    let body = spec_descs_body(d, bcd_version);
    let total = (spec_descs_header_len(d) + body.len()) as u32;
    spec_u32_to_le_bytes(DESCS_MAGIC) + spec_u32_to_le_bytes(total) + spec_u32_to_le_bytes(
        spec_effective_flags(d.flags, d.eventfd is Some),
    ) + (match d.eventfd {
        Option::Some(fd) => spec_u32_to_le_bytes(spec_i32_bits(fd)),
        Option::None => Seq::empty(),
    }) + spec_u32_to_le_bytes(d.fs_descrs@.len() as u32) + spec_u32_to_le_bytes(
        d.hs_descrs@.len() as u32,
    ) + spec_u32_to_le_bytes(d.ss_descrs@.len() as u32) + spec_u32_to_le_bytes(
        d.os_descrs@.len() as u32,
    ) + body
}

impl Descs {
    /// Encodes the descriptor blob for writing into the control file, with
    /// the given OS-descriptor `bcdVersion` field value.
    ///
    /// Fails with [`Error::Overflow`] when a record, count or the total
    /// length does not fit its field; nothing is ever silently truncated.
    pub fn to_bytes(&self, bcd_version: u16) -> (r: Result<Vec<u8>, Error>)
        ensures
            match r {
                Ok(v) => spec_descs_ok(*self, bcd_version) && v@ == spec_descs_bytes(
                    *self,
                    bcd_version,
                ),
                Err(e) => !spec_descs_ok(*self, bcd_version) && e == Error::Overflow,
            },
    {
        let mut body: Vec<u8> = Vec::new();
        match descs_to_bytes(&self.fs_descrs, &mut body) {
            Ok(()) => {},
            Err(e) => {
                return Err(e);
            },
        }
        match descs_to_bytes(&self.hs_descrs, &mut body) {
            Ok(()) => {},
            Err(e) => {
                return Err(e);
            },
        }
        match descs_to_bytes(&self.ss_descrs, &mut body) {
            Ok(()) => {},
            Err(e) => {
                return Err(e);
            },
        }
        let ghost h = |d: OsDesc| spec_os_desc_bytes(d, bcd_version);
        let os_descrs = &self.os_descrs;
        for i in 0..os_descrs.len()
            invariant
                h == (|d: OsDesc| spec_os_desc_bytes(d, bcd_version)),
                os_descrs == &self.os_descrs,
                spec_desc_list_ok(self.fs_descrs@),
                spec_desc_list_ok(self.hs_descrs@),
                spec_desc_list_ok(self.ss_descrs@),
                body@ == spec_desc_list_bytes(self.fs_descrs@) + spec_desc_list_bytes(
                    self.hs_descrs@,
                ) + spec_desc_list_bytes(self.ss_descrs@) + spec_concat_map(
                    os_descrs@.take(i as int),
                    h,
                ),
                forall|j: int| 0 <= j < i ==> spec_os_desc_ok(#[trigger] os_descrs@[j]),
        {
            let d = &os_descrs[i];
            proof {
                assert(*d == os_descrs@[i as int]);
            }
            let mut rec = match d.to_bytes(bcd_version) {
                Ok(rec) => rec,
                Err(e) => {
                    proof {
                        assert(!spec_os_desc_ok(os_descrs@[i as int]));
                    }
                    return Err(e);
                },
            };
            body.append(&mut rec);
            proof {
                lemma_concat_map_take(os_descrs@, h, i as int);
            }
        }
        proof {
            assert(os_descrs@.take(os_descrs@.len() as int) =~= os_descrs@);
            assert(body@ == spec_descs_body(*self, bcd_version));
        }

        if self.fs_descrs.len() > 0xffff_ffffusize || self.hs_descrs.len() > 0xffff_ffffusize
            || self.ss_descrs.len() > 0xffff_ffffusize || self.os_descrs.len()
            > 0xffff_ffffusize {
            return Err(Error::Overflow);
        }

        let header_len: usize = if self.eventfd.is_some() {
            32
        } else {
            28
        };
        if body.len() > 0xffff_ffffusize - header_len {
            return Err(Error::Overflow);
        }
        let total: u32 = (header_len + body.len()) as u32;

        let mut flags = self.flags | (FLAG_HAS_FS_DESC | FLAG_HAS_HS_DESC | FLAG_HAS_SS_DESC
            | FLAG_HAS_MS_OS_DESC);
        if self.eventfd.is_some() {
            flags = flags | FLAG_EVENTFD;
        } else {
            flags = flags & !FLAG_EVENTFD;
        }

        let mut data: Vec<u8> = Vec::new();
        let mut part = u32_to_le_bytes(DESCS_MAGIC);
        data.append(&mut part);
        let mut part = u32_to_le_bytes(total);
        data.append(&mut part);
        let mut part = u32_to_le_bytes(flags);
        data.append(&mut part);
        match &self.eventfd {
            Option::Some(fd) => {
                let mut part = u32_to_le_bytes(i32_bits(*fd));
                data.append(&mut part);
            },
            Option::None => {},
        }
        let mut part = u32_to_le_bytes(self.fs_descrs.len() as u32);
        data.append(&mut part);
        let mut part = u32_to_le_bytes(self.hs_descrs.len() as u32);
        data.append(&mut part);
        let mut part = u32_to_le_bytes(self.ss_descrs.len() as u32);
        data.append(&mut part);
        let mut part = u32_to_le_bytes(self.os_descrs.len() as u32);
        data.append(&mut part);
        data.append(&mut body);
        proof {
            assert(data@ =~= spec_descs_bytes(*self, bcd_version));
        }
        Ok(data)
    }
}

/// A string with its terminating NUL, as UTF-8 bytes.
pub open spec fn spec_string_nul_bytes(s: String) -> Seq<u8> {
    vstd::utf8::encode_utf8(s@) + seq![0u8]
}

/// One language's section of the string blob: language id, then each
/// string NUL-terminated in index order.
pub open spec fn spec_lang_section(lang: crate::lang::Language, strs: Seq<String>) -> Seq<u8> {
    spec_u16_to_le_bytes(lang.spec_code()) + spec_concat_map(
        strs,
        |s: String| spec_string_nul_bytes(s),
    )
}

/// Number of strings of the table: the first language's count.
pub open spec fn spec_strings_count(t: Seq<(crate::lang::Language, Vec<String>)>) -> int {
    if t.len() == 0 {
        0
    } else {
        t[0].1@.len() as int
    }
}

/// Whether every language of the table carries the same string count.
pub open spec fn spec_strings_counts_ok(t: Seq<(crate::lang::Language, Vec<String>)>) -> bool {
    forall|i: int| 0 <= i < t.len() ==> (#[trigger] t[i].1@).len() == spec_strings_count(t)
}

/// All language sections of the string blob, back to back.
pub open spec fn spec_strings_body(t: Seq<(crate::lang::Language, Vec<String>)>) -> Seq<u8> {
    spec_concat_map(t, |e: (crate::lang::Language, Vec<String>)| spec_lang_section(e.0, e.1@))
}

/// Whether the table's counts and total length fit their fields.
pub open spec fn spec_strings_ok(t: Seq<(crate::lang::Language, Vec<String>)>) -> bool {
    &&& spec_strings_counts_ok(t)
    &&& spec_strings_count(t) <= 0xffff_ffff
    &&& t.len() <= 0xffff_ffff
    &&& 16 + spec_strings_body(t).len() <= 0xffff_ffff
}

/// The complete string blob: magic, patched total length, string count,
/// language count, then each language's section.
pub open spec fn spec_strings_bytes(t: Seq<(crate::lang::Language, Vec<String>)>) -> Seq<u8> {
    let body = spec_strings_body(t);
    spec_u32_to_le_bytes(STRINGS_MAGIC) + spec_u32_to_le_bytes((16 + body.len()) as u32)
        + spec_u32_to_le_bytes(spec_strings_count(t) as u32) + spec_u32_to_le_bytes(
        t.len() as u32,
    ) + body
}

/// String table: an ordered sequence of strings per language.
///
/// Every language must carry the same number of strings; the position of a
/// string is the string index that descriptors reference.
#[derive(Debug, Clone, PartialEq, Eq)]
pub struct Strings(pub Vec<(crate::lang::Language, Vec<String>)>);

impl Strings {
    /// Encodes the string blob for writing into the control file.
    ///
    /// Fails with [`Error::StringsDifferAcrossLanguages`] when two
    /// languages carry different string counts, and with
    /// [`Error::Overflow`] when a count or the total length does not fit
    /// its field.
    pub fn to_bytes(&self) -> (r: Result<Vec<u8>, Error>)
        ensures
            match r {
                Ok(v) => spec_strings_ok(self.0@) && v@ == spec_strings_bytes(self.0@),
                Err(e) => if !spec_strings_counts_ok(self.0@) {
                    e == Error::StringsDifferAcrossLanguages
                } else {
                    !spec_strings_ok(self.0@) && e == Error::Overflow
                },
            },
    {
        let entries = &self.0;
        let str_count: usize = if entries.len() == 0 {
            0
        } else {
            entries[0].1.len()
        };
        for i in 0..entries.len()
            invariant
                entries == &self.0,
                str_count as int == spec_strings_count(entries@),
                forall|j: int|
                    0 <= j < i ==> (#[trigger] entries@[j].1@).len() == str_count as int,
        {
            if entries[i].1.len() != str_count {
                return Err(Error::StringsDifferAcrossLanguages);
            }
        }

        let ghost sect = |e: (crate::lang::Language, Vec<String>)| spec_lang_section(e.0, e.1@);
        let ghost snul = |s: String| spec_string_nul_bytes(s);
        let mut body: Vec<u8> = Vec::new();
        for i in 0..entries.len()
            invariant
                entries == &self.0,
                sect == (|e: (crate::lang::Language, Vec<String>)| spec_lang_section(e.0, e.1@)),
                snul == (|s: String| spec_string_nul_bytes(s)),
                body@ == spec_concat_map(entries@.take(i as int), sect),
        {
            let entry = &entries[i];
            proof {
                assert(*entry == entries@[i as int]);
            }
            let mut code = u16_to_le_bytes(entry.0.code());
            body.append(&mut code);
            let strs = &entry.1;
            let ghost section_start = body@;
            for j in 0..strs.len()
                invariant
                    snul == (|s: String| spec_string_nul_bytes(s)),
                    strs == &entry.1,
                    body@ == section_start + spec_concat_map(strs@.take(j as int), snul),
            {
                let s = &strs[j];
                proof {
                    assert(*s == strs@[j as int]);
                }
                push_bytes(&mut body, s.as_str().as_bytes());
                body.push(0);
                proof {
                    lemma_concat_map_take(strs@, snul, j as int);
                    assert(body@ =~= section_start + spec_concat_map(strs@.take(j + 1), snul));
                }
            }
            proof {
                assert(strs@.take(strs@.len() as int) =~= strs@);
                lemma_concat_map_take(entries@, sect, i as int);
                assert(body@ =~= spec_concat_map(entries@.take(i as int), sect) + spec_lang_section(
                    entries@[i as int].0,
                    entries@[i as int].1@,
                ));
            }
        }
        proof {
            assert(entries@.take(entries@.len() as int) =~= entries@);
            assert(body@ == spec_strings_body(self.0@));
        }

        if str_count > 0xffff_ffffusize || entries.len() > 0xffff_ffffusize {
            return Err(Error::Overflow);
        }
        if body.len() > 0xffff_ffffusize - 16 {
            return Err(Error::Overflow);
        }

        let mut data: Vec<u8> = Vec::new();
        let mut part = u32_to_le_bytes(STRINGS_MAGIC);
        data.append(&mut part);
        let mut part = u32_to_le_bytes((16 + body.len()) as u32);
        data.append(&mut part);
        let mut part = u32_to_le_bytes(str_count as u32);
        data.append(&mut part);
        let mut part = u32_to_le_bytes(entries.len() as u32);
        data.append(&mut part);
        data.append(&mut body);
        proof {
            assert(data@ =~= spec_strings_bytes(self.0@));
        }
        Ok(data)
    }
}

/// USB control request.
#[derive(Debug, Clone, Copy, PartialEq, Eq, Structural)]
pub struct CtrlReq {
    /// Request type.
    pub request_type: u8,
    /// Request.
    pub request: u8,
    /// Value.
    pub value: u16,
    /// Index.
    pub index: u16,
    /// Length of the data phase.
    pub length: u16,
}

/// The control request encoded in the first 8 bytes of `s`.
pub open spec fn spec_parse_ctrl_req(s: Seq<u8>) -> CtrlReq
    recommends
        s.len() >= 8,
{
    CtrlReq {
        request_type: s[0],
        request: s[1],
        value: vstd::bytes::spec_u16_from_le_bytes(s.subrange(2, 4)),
        index: vstd::bytes::spec_u16_from_le_bytes(s.subrange(4, 6)),
        length: vstd::bytes::spec_u16_from_le_bytes(s.subrange(6, 8)),
    }
}

impl CtrlReq {
    /// Parse from buffer.
    pub fn parse(buf: &[u8]) -> (r: Result<CtrlReq, ParseError>)
        ensures
            match r {
                Ok(req) => buf@.len() >= 8 && req == spec_parse_ctrl_req(buf@),
                Err(e) => buf@.len() < 8 && e == ParseError::Truncated,
            },
    {
        if buf.len() < 8 {
            return Err(ParseError::Truncated);
        }
        let value = read_u16_le(buf, 2);
        let index = read_u16_le(buf, 4);
        let length = read_u16_le(buf, 6);
        Ok(CtrlReq { request_type: buf[0], request: buf[1], value, index, length })
    }
}

/// Reads a little-endian 16-bit value at `offset`.
fn read_u16_le(buf: &[u8], offset: usize) -> (r: u16)
    requires
        offset + 2 <= buf@.len(),
    ensures
        r == vstd::bytes::spec_u16_from_le_bytes(buf@.subrange(offset as int, offset + 2)),
{
    let mut two: Vec<u8> = Vec::new();
    two.push(buf[offset]);
    two.push(buf[offset + 1]);
    proof {
        assert(two@ =~= buf@.subrange(offset as int, offset + 2));
    }
    vstd::bytes::u16_from_le_bytes(two.as_slice())
}

/// Function lifecycle event type: bind to gadget.
pub const EVENT_BIND: u8 = 0;

/// Function lifecycle event type: unbind from gadget.
pub const EVENT_UNBIND: u8 = 1;

/// Function lifecycle event type: function enabled.
pub const EVENT_ENABLE: u8 = 2;

/// Function lifecycle event type: function disabled.
pub const EVENT_DISABLE: u8 = 3;

/// Function lifecycle event type: SETUP request received.
pub const EVENT_SETUP: u8 = 4;

/// Function lifecycle event type: device suspended.
pub const EVENT_SUSPEND: u8 = 5;

/// Function lifecycle event type: device resumed.
pub const EVENT_RESUME: u8 = 6;

/// Raw event record read from the control file: 8 bytes of type-specific
/// payload, a type tag and 3 bytes of padding.
#[derive(Debug, Clone, Copy, PartialEq, Eq)]
pub struct Event {
    /// Type-specific payload.
    pub data: [u8; 8],
    /// Event type tag.
    pub event_type: u8,
}

impl Event {
    /// Size of a raw event record.
    pub const SIZE: usize = 12;

    /// Parse a raw event record.
    pub fn parse(buf: &[u8]) -> (r: Result<Event, ParseError>)
        ensures
            match r {
                Ok(ev) => buf@.len() >= 12 && ev.data@ == buf@.subrange(0, 8) && ev.event_type
                    == buf@[8],
                Err(e) => buf@.len() < 12 && e == ParseError::Truncated,
            },
    {
        if buf.len() < 12 {
            return Err(ParseError::Truncated);
        }
        let data: [u8; 8] = [buf[0], buf[1], buf[2], buf[3], buf[4], buf[5], buf[6], buf[7]];
        proof {
            assert(data@ =~= buf@.subrange(0, 8));
        }
        Ok(Event { data, event_type: buf[8] })
    }
}

/// Filesystem type of the function filesystem.
pub const FS_TYPE: &'static str = "functionfs";

/// Mount options of the function filesystem.
#[derive(Debug, Clone, PartialEq, Eq)]
pub struct MountOptions {
    /// Do not disconnect the gadget when the interface files are closed.
    pub no_disconnect: bool,
    /// Root directory permissions.
    pub rmode: Option<u32>,
    /// File permissions.
    pub fmode: Option<u32>,
    /// Root and file permissions.
    pub mode: Option<u32>,
    /// Owning user id.
    pub uid: Option<u32>,
    /// Owning group id.
    pub gid: Option<u32>,
}

/// The option strings of the mount data, in their fixed order.
pub open spec fn spec_mount_parts(o: MountOptions) -> Seq<Seq<char>> {
    (if o.no_disconnect {
        seq![("no_disconnect=1")@]
    } else {
        Seq::empty()
    }) + (match o.rmode {
        Option::Some(v) => seq![("rmode=")@ + crate::text::spec_decimal(v as int)],
        Option::None => Seq::empty(),
    }) + (match o.fmode {
        Option::Some(v) => seq![("fmode=")@ + crate::text::spec_decimal(v as int)],
        Option::None => Seq::empty(),
    }) + (match o.mode {
        Option::Some(v) => seq![("mode=")@ + crate::text::spec_decimal(v as int)],
        Option::None => Seq::empty(),
    }) + (match o.uid {
        Option::Some(v) => seq![("uid=")@ + crate::text::spec_decimal(v as int)],
        Option::None => Seq::empty(),
    }) + (match o.gid {
        Option::Some(v) => seq![("gid=")@ + crate::text::spec_decimal(v as int)],
        Option::None => Seq::empty(),
    })
}

impl MountOptions {
    /// The mount data string: the set options joined by commas.
    pub fn to_mount_data(&self) -> (r: String)
        ensures
            r@ == crate::text::spec_join_comma(spec_mount_parts(*self)),
    {
        let mut opts: Vec<String> = Vec::new();

        if self.no_disconnect {
            opts.push(String::from_str("no_disconnect=1"));
        }
        if let Option::Some(v) = self.rmode {
            let mut s = String::from_str("rmode=");
            s.append(crate::text::u32_to_decimal(v).as_str());
            opts.push(s);
        }
        if let Option::Some(v) = self.fmode {
            let mut s = String::from_str("fmode=");
            s.append(crate::text::u32_to_decimal(v).as_str());
            opts.push(s);
        }
        if let Option::Some(v) = self.mode {
            let mut s = String::from_str("mode=");
            s.append(crate::text::u32_to_decimal(v).as_str());
            opts.push(s);
        }
        if let Option::Some(v) = self.uid {
            let mut s = String::from_str("uid=");
            s.append(crate::text::u32_to_decimal(v).as_str());
            opts.push(s);
        }
        if let Option::Some(v) = self.gid {
            let mut s = String::from_str("gid=");
            s.append(crate::text::u32_to_decimal(v).as_str());
            opts.push(s);
        }
        proof {
            assert(opts@.map_values(|p: String| p@) =~= spec_mount_parts(*self));
        }
        crate::text::join_comma(&opts)
    }
}

impl Default for MountOptions {
    /// No options set.
    fn default() -> (r: Self)
        ensures
            r == (MountOptions {
                no_disconnect: false,
                rmode: None,
                fmode: None,
                mode: None,
                uid: None,
                gid: None,
            }),
    {
        MountOptions { no_disconnect: false, rmode: None, fmode: None, mode: None, uid: None, gid: None }
    }
}

} // verus!
