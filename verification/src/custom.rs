//! Custom USB interface, implemented in user code: interface and endpoint
//! configuration, and the control-transfer state machine of the control
//! endpoint.
//!
//! The state machine enforces the one-response-per-setup protocol: every
//! SETUP packet is answered or stalled exactly once.  A prior transfer
//! that was never responded to is drained with a single halt sequence
//! before the next event is decoded.

use vstd::prelude::*;

use crate::errors::GadgetError;
use crate::ffs;
use crate::gadget::Class;
use crate::lang::Language;

verus! {

/// Transfer direction.
#[derive(Debug, Clone, Copy, PartialEq, Eq, PartialOrd, Ord, Hash, Structural)]
pub enum Direction {
    /// From device to host.
    DeviceToHost,
    /// From host to device.
    HostToDevice,
}

/// Endpoint synchronization type.
#[derive(Debug, Clone, Copy, PartialEq, Eq, PartialOrd, Ord, Hash, Structural)]
pub enum SyncType {
    /// No synchronization.
    NoSync,
    /// Asynchronous.
    Async,
    /// Adaptive.
    Adaptive,
    /// Synchronous.
    Sync,
}

impl SyncType {
    /// Contribution to the endpoint attributes byte, in bits 2 and 3.
    pub open spec fn spec_attributes(self) -> u8 {
        match self {
            SyncType::NoSync => 0,
            SyncType::Async => 4,
            SyncType::Adaptive => 8,
            SyncType::Sync => 12,
        }
    }

    /// Contribution to the endpoint attributes byte.
    pub fn to_attributes(self) -> (r: u8)
        ensures
            r == self.spec_attributes(),
    {
        match self {
            SyncType::NoSync => 0,
            SyncType::Async => 4,
            SyncType::Adaptive => 8,
            SyncType::Sync => 12,
        }
    }
}

/// Endpoint usage type.
#[derive(Debug, Clone, Copy, PartialEq, Eq, PartialOrd, Ord, Hash, Structural)]
pub enum UsageType {
    /// Data endpoint.
    Data,
    /// Feedback endpoint.
    Feedback,
    /// Implicit feedback data endpoint.
    ImplicitFeedback,
}

impl UsageType {
    /// Contribution to the endpoint attributes byte, in bits 4 and 5.
    pub open spec fn spec_attributes(self) -> u8 {
        match self {
            UsageType::Data => 0,
            UsageType::Feedback => 16,
            UsageType::ImplicitFeedback => 32,
        }
    }

    /// Contribution to the endpoint attributes byte.
    pub fn to_attributes(self) -> (r: u8)
        ensures
            r == self.spec_attributes(),
    {
        match self {
            UsageType::Data => 0,
            UsageType::Feedback => 16,
            UsageType::ImplicitFeedback => 32,
        }
    }
}

/// Endpoint transfer type.
#[derive(Debug, Clone, Copy, PartialEq, Eq, PartialOrd, Ord, Hash, Structural)]
pub enum TransferType {
    /// Control.
    Control,
    /// Isochronous.
    Isochronous {
        /// Synchronization type.
        sync: SyncType,
        /// Usage type.
        usage: UsageType,
    },
    /// Bulk.
    Bulk,
    /// Interrupt.
    Interrupt,
}

impl TransferType {
    /// The endpoint attributes byte: the transfer type in bits 0 and 1,
    /// with the sync and usage sub-fields for isochronous endpoints.
    pub open spec fn spec_attributes(self) -> u8 {
        match self {
            TransferType::Control => 0,
            TransferType::Isochronous { sync, usage } => (1 + sync.spec_attributes()
                + usage.spec_attributes()) as u8,
            TransferType::Bulk => 2,
            TransferType::Interrupt => 3,
        }
    }

    /// The endpoint attributes byte.
    pub fn to_attributes(self) -> (r: u8)
        ensures
            r == self.spec_attributes(),
    {
        match self {
            TransferType::Control => 0,
            TransferType::Isochronous { sync, usage } => {
                let s = sync.to_attributes();
                let u = usage.to_attributes();
                proof {
                    assert((1u8 | s | u) == (1 + s + u) as u8) by (bit_vector)
                        requires
                            (s == 0 || s == 4 || s == 8 || s == 12) && (u == 0 || u == 16 || u
                                == 32),
                    ;
                }
                1 | s | u
            },
            TransferType::Bulk => 2,
            TransferType::Interrupt => 3,
        }
    }
}

/// Extension of a USB endpoint for audio.
#[derive(Debug, Clone, Copy, PartialEq, Eq, Structural)]
pub struct EndpointAudio {
    /// Refresh.
    pub refresh: u8,
    /// Sync address.
    pub synch_address: u8,
}

/// An USB endpoint.
#[derive(Debug, Clone, Copy, PartialEq, Eq, Structural)]
pub struct Endpoint {
    /// Endpoint transfer direction.
    pub direction: Direction,
    /// Queue length of the endpoint's transfer queue.
    pub queue_len: u32,
    /// Transfer type.
    pub transfer: TransferType,
    /// Maximum packet size for high speed.
    pub max_packet_size_hs: u16,
    /// Maximum packet size for super speed.
    pub max_packet_size_ss: u16,
    /// Maximum number of packets per burst for super speed.
    pub max_burst_ss: u8,
    /// Number of bytes per interval for super speed.
    pub bytes_per_interval_ss: u16,
    /// Interval for polling endpoint for data transfers.
    pub interval: u8,
    /// Data for audio endpoints.
    pub audio: Option<EndpointAudio>,
}

/// Default queue length of an endpoint's transfer queue.
pub const DEFAULT_QUEUE_LEN: u32 = 16;

impl Endpoint {
    /// Creates a new bulk endpoint.
    pub fn bulk(direction: Direction) -> (r: Self)
        ensures
            r == Endpoint::spec_custom(direction, TransferType::Bulk),
    {
        Self::custom(direction, TransferType::Bulk)
    }

    /// The endpoint configuration with driver defaults for the given
    /// direction and transfer type.
    pub open spec fn spec_custom(direction: Direction, transfer: TransferType) -> Endpoint {
        Endpoint {
            direction,
            queue_len: DEFAULT_QUEUE_LEN,
            transfer,
            max_packet_size_hs: 512,
            max_packet_size_ss: 1024,
            max_burst_ss: 0,
            bytes_per_interval_ss: 0,
            interval: match direction {
                Direction::DeviceToHost => 0,
                Direction::HostToDevice => 1,
            },
            audio: None,
        }
    }

    /// Creates a new custom endpoint.
    pub fn custom(direction: Direction, transfer: TransferType) -> (r: Self)
        ensures
            r == Endpoint::spec_custom(direction, transfer),
    {
        Self {
            direction,
            queue_len: DEFAULT_QUEUE_LEN,
            transfer,
            max_packet_size_hs: 512,
            max_packet_size_ss: 1024,
            max_burst_ss: 0,
            bytes_per_interval_ss: 0,
            interval: match direction {
                Direction::DeviceToHost => 0,
                Direction::HostToDevice => 1,
            },
            audio: None,
        }
    }

    /// Sets the queue length of the endpoint's transfer queue.
    #[must_use]
    pub fn with_queue_len(self, queue_len: u32) -> (r: Self)
        ensures
            r == (Endpoint { queue_len, ..self }),
    {
        let mut this = self;
        this.queue_len = queue_len;
        this
    }
}

/// Microsoft extended compatibility descriptor.
#[derive(Debug, Clone, Copy, PartialEq, Eq)]
pub struct OsExtCompat {
    /// Compatible ID string.
    pub compatible_id: [u8; 8],
    /// Sub-compatible ID string.
    pub sub_compatible_id: [u8; 8],
}

impl OsExtCompat {
    /// Creates a new extended compatibility descriptor.
    pub fn new(compatible_id: [u8; 8], sub_compatible_id: [u8; 8]) -> (r: Self)
        ensures
            r.compatible_id@ == compatible_id@,
            r.sub_compatible_id@ == sub_compatible_id@,
    {
        Self { compatible_id, sub_compatible_id }
    }

    /// Use Microsoft WinUSB driver.
    pub fn winusb() -> (r: Self)
        ensures
            r.compatible_id@ == seq![87u8, 73u8, 78u8, 85u8, 83u8, 66u8, 0u8, 0u8],
            r.sub_compatible_id@ == seq![0u8, 0u8, 0u8, 0u8, 0u8, 0u8, 0u8, 0u8],
    {
        let compatible_id: [u8; 8] = [0x57, 0x49, 0x4e, 0x55, 0x53, 0x42, 0, 0];
        let sub_compatible_id: [u8; 8] = [0, 0, 0, 0, 0, 0, 0, 0];
        proof {
            assert(compatible_id@ =~= seq![87u8, 73u8, 78u8, 85u8, 83u8, 66u8, 0u8, 0u8]);
            assert(sub_compatible_id@ =~= seq![0u8, 0u8, 0u8, 0u8, 0u8, 0u8, 0u8, 0u8]);
        }
        Self { compatible_id, sub_compatible_id }
    }
}

/// Microsoft registry value.
#[derive(Debug, Clone, PartialEq, Eq)]
pub enum OsRegValue {
    /// Unicode string.
    Sz(String),
    /// Unicode string that includes environment variables.
    ExpandSz(String),
    /// Free-form binary.
    Binary(Vec<u8>),
    /// Little-endian 32-bit integer.
    DwordLe(u32),
    /// Big-endian 32-bit integer.
    DwordBe(u32),
    /// Unicode string that contains a symbolic link.
    Link(String),
    /// Multiple Unicode strings.
    MultiSz(Vec<String>),
}

/// Registry value type code of a value.
pub open spec fn spec_reg_value_type(v: OsRegValue) -> u32 {
    match v {
        OsRegValue::Sz(_) => 1,
        OsRegValue::ExpandSz(_) => 2,
        OsRegValue::Binary(_) => 3,
        OsRegValue::DwordLe(_) => 4,
        OsRegValue::DwordBe(_) => 5,
        OsRegValue::Link(_) => 6,
        OsRegValue::MultiSz(_) => 7,
    }
}

/// Encoded bytes of a registry value: strings are NUL-terminated UTF-8,
/// integers are four bytes in their endianness, binary data is kept.
pub open spec fn spec_reg_value_bytes(v: OsRegValue) -> Seq<u8> {
    match v {
        OsRegValue::Sz(s) => vstd::utf8::encode_utf8(s@) + seq![0u8],
        OsRegValue::ExpandSz(s) => vstd::utf8::encode_utf8(s@) + seq![0u8],
        OsRegValue::Binary(d) => d@,
        OsRegValue::DwordLe(x) => vstd::bytes::spec_u32_to_le_bytes(x),
        OsRegValue::DwordBe(x) => crate::codec::spec_u32_to_be_bytes(x),
        OsRegValue::Link(s) => vstd::utf8::encode_utf8(s@) + seq![0u8],
        OsRegValue::MultiSz(ss) => crate::codec::spec_concat_map(
            ss@,
            |s: String| vstd::utf8::encode_utf8(s@) + seq![0u8],
        ),
    }
}

/// Appends a string's UTF-8 bytes and a terminating NUL to `data`.
fn push_string_nul(data: &mut Vec<u8>, s: &str)
    ensures
        final(data)@ == old(data)@ + vstd::utf8::encode_utf8(s@) + seq![0u8],
{
    crate::codec::push_bytes(data, s.as_bytes());
    data.push(0);
    proof {
        assert(data@ =~= old(data)@ + vstd::utf8::encode_utf8(s@) + seq![0u8]);
    }
}

impl OsRegValue {
    /// Registry value type code.
    pub fn as_type(&self) -> (r: u32)
        ensures
            r == spec_reg_value_type(*self),
    {
        match self {
            OsRegValue::Sz(_) => 1,
            OsRegValue::ExpandSz(_) => 2,
            OsRegValue::Binary(_) => 3,
            OsRegValue::DwordLe(_) => 4,
            OsRegValue::DwordBe(_) => 5,
            OsRegValue::Link(_) => 6,
            OsRegValue::MultiSz(_) => 7,
        }
    }

    /// Encoded bytes of the value.
    pub fn as_bytes(&self) -> (r: Vec<u8>)
        ensures
            r@ == spec_reg_value_bytes(*self),
    {
        match self {
            OsRegValue::Sz(s) => {
                let mut data: Vec<u8> = Vec::new();
                push_string_nul(&mut data, s.as_str());
                data
            },
            OsRegValue::ExpandSz(s) => {
                let mut data: Vec<u8> = Vec::new();
                push_string_nul(&mut data, s.as_str());
                data
            },
            OsRegValue::Binary(d) => {
                let mut data: Vec<u8> = Vec::new();
                crate::codec::push_bytes(&mut data, d.as_slice());
                data
            },
            OsRegValue::DwordLe(x) => vstd::bytes::u32_to_le_bytes(*x),
            OsRegValue::DwordBe(x) => crate::codec::u32_to_be_bytes(*x),
            OsRegValue::Link(s) => {
                let mut data: Vec<u8> = Vec::new();
                push_string_nul(&mut data, s.as_str());
                data
            },
            OsRegValue::MultiSz(ss) => {
                let ghost f = |s: String| vstd::utf8::encode_utf8(s@) + seq![0u8];
                let mut data: Vec<u8> = Vec::new();
                for i in 0..ss.len()
                    invariant
                        f == (|s: String| vstd::utf8::encode_utf8(s@) + seq![0u8]),
                        data@ == crate::codec::spec_concat_map(ss@.take(i as int), f),
                {
                    let s = &ss[i];
                    proof {
                        assert(*s == ss@[i as int]);
                    }
                    push_string_nul(&mut data, s.as_str());
                    proof {
                        crate::codec::lemma_concat_map_take(ss@, f, i as int);
                        assert(data@ =~= crate::codec::spec_concat_map(ss@.take(i + 1), f));
                    }
                }
                proof {
                    assert(ss@.take(ss@.len() as int) =~= ss@);
                }
                data
            },
        }
    }
}

/// Microsoft extended property descriptor.
#[derive(Debug, Clone, PartialEq, Eq)]
pub struct OsExtProp {
    /// Property name.
    pub name: String,
    /// Property value.
    pub value: OsRegValue,
}

impl OsExtProp {
    /// Creates a new extended property descriptor.
    pub fn new(name: &str, value: OsRegValue) -> (r: Self)
        ensures
            r.name@ == name@,
            r.value == value,
    {
        Self { name: name.to_owned(), value }
    }

    /// The wire-level extended property record: the NUL-terminated name
    /// bytes, the value type code and the encoded value.
    pub fn as_os_ext_prop(&self) -> (r: ffs::OsExtProp)
        ensures
            r.name@ == vstd::utf8::encode_utf8(self.name@) + seq![0u8],
            r.data_type == spec_reg_value_type(self.value),
            r.data@ == spec_reg_value_bytes(self.value),
    {
        let mut name: Vec<u8> = Vec::new();
        push_string_nul(&mut name, self.name.as_str());
        ffs::OsExtProp { data_type: self.value.as_type(), name, data: self.value.as_bytes() }
    }
}

/// Interface association: groups adjacent interfaces into one function.
///
/// The token identifies the association: interfaces belong to the same
/// association exactly when their associations carry the same token.
#[derive(Debug, Clone, PartialEq, Eq)]
pub struct Association {
    /// Identity of the association.
    pub token: u64,
    /// Function class.
    pub function_class: Class,
    /// Function name per language.
    pub name: Vec<(Language, String)>,
}

impl Association {
    /// Creates a new interface association with the given identity.
    pub fn new(token: u64, function_class: Class, name: &str) -> (r: Self)
        ensures
            r.token == token,
            r.function_class == function_class,
            r.name@.len() == 1,
            r.name@[0].0 == Language::EnglishUnitedStates,
            r.name@[0].1@ == name@,
    {
        let mut names: Vec<(Language, String)> = Vec::new();
        names.push((Language::EnglishUnitedStates, name.to_owned()));
        Self { token, function_class, name: names }
    }
}

/// An USB interface.
#[derive(Debug)]
pub struct Interface {
    /// Interface class.
    pub interface_class: Class,
    /// Interface name per language.
    pub name: Vec<(Language, String)>,
    /// USB endpoints.
    pub endpoints: Vec<Endpoint>,
    /// Interface association.
    pub association: Option<Association>,
    /// Microsoft extended compatibility descriptors.
    pub os_ext_compat: Vec<OsExtCompat>,
    /// Microsoft extended properties.
    pub os_ext_props: Vec<OsExtProp>,
    /// Custom descriptors, inserted directly after the interface
    /// descriptor.
    pub custom_descs: Vec<ffs::CustomDesc>,
}

impl Interface {
    /// Creates a new interface.
    pub fn new(interface_class: Class, name: &str) -> (r: Self)
        ensures
            r.interface_class == interface_class,
            r.name@.len() == 1,
            r.name@[0].0 == Language::EnglishUnitedStates,
            r.name@[0].1@ == name@,
            r.endpoints@.len() == 0,
            r.association is None,
            r.os_ext_compat@.len() == 0,
            r.os_ext_props@.len() == 0,
            r.custom_descs@.len() == 0,
    {
        let mut names: Vec<(Language, String)> = Vec::new();
        names.push((Language::EnglishUnitedStates, name.to_owned()));
        Self {
            interface_class,
            name: names,
            endpoints: Vec::new(),
            association: None,
            os_ext_compat: Vec::new(),
            os_ext_props: Vec::new(),
            custom_descs: Vec::new(),
        }
    }

    /// Add an USB endpoint.
    #[must_use]
    pub fn with_endpoint(self, endpoint: Endpoint) -> (r: Self)
        ensures
            r.endpoints@ == self.endpoints@.push(endpoint),
            r.interface_class == self.interface_class,
            r.name == self.name,
            r.association == self.association,
            r.os_ext_compat == self.os_ext_compat,
            r.os_ext_props == self.os_ext_props,
            r.custom_descs == self.custom_descs,
    {
        let mut this = self;
        this.endpoints.push(endpoint);
        this
    }

    /// Set the USB interface association.
    #[must_use]
    pub fn with_association(self, association: Association) -> (r: Self)
        ensures
            r.association == Some(association),
            r.interface_class == self.interface_class,
            r.name == self.name,
            r.endpoints == self.endpoints,
            r.os_ext_compat == self.os_ext_compat,
            r.os_ext_props == self.os_ext_props,
            r.custom_descs == self.custom_descs,
    {
        let mut this = self;
        this.association = Some(association);
        this
    }

    /// Adds a Microsoft extended compatibility descriptor.
    #[must_use]
    pub fn with_os_ext_compat(self, os_ext_compat: OsExtCompat) -> (r: Self)
        ensures
            r.os_ext_compat@ == self.os_ext_compat@.push(os_ext_compat),
            r.interface_class == self.interface_class,
            r.name == self.name,
            r.endpoints == self.endpoints,
            r.association == self.association,
            r.os_ext_props == self.os_ext_props,
            r.custom_descs == self.custom_descs,
    {
        let mut this = self;
        this.os_ext_compat.push(os_ext_compat);
        this
    }

    /// Adds a Microsoft extended property.
    #[must_use]
    pub fn with_os_ext_prop(self, os_ext_prop: OsExtProp) -> (r: Self)
        ensures
            r.os_ext_props@ == self.os_ext_props@.push(os_ext_prop),
            r.interface_class == self.interface_class,
            r.name == self.name,
            r.endpoints == self.endpoints,
            r.association == self.association,
            r.os_ext_compat == self.os_ext_compat,
            r.custom_descs == self.custom_descs,
    {
        let mut this = self;
        this.os_ext_props.push(os_ext_prop);
        this
    }

    /// Adds a custom descriptor after the interface descriptor.
    #[must_use]
    pub fn with_custom_desc(self, custom_desc: ffs::CustomDesc) -> (r: Self)
        ensures
            r.custom_descs@ == self.custom_descs@.push(custom_desc),
            r.interface_class == self.interface_class,
            r.name == self.name,
            r.endpoints == self.endpoints,
            r.association == self.association,
            r.os_ext_compat == self.os_ext_compat,
            r.os_ext_props == self.os_ext_props,
    {
        let mut this = self;
        this.custom_descs.push(custom_desc);
        this
    }
}

/// The language-keyed names of an interface or association, as character
/// sequences.
pub open spec fn spec_names_view(n: Seq<(Language, String)>) -> Seq<(Language, Seq<char>)> {
    n.map_values(|e: (Language, String)| (e.0, e.1@))
}

/// The string table under construction, as character sequences.
pub open spec fn spec_table_view(t: Seq<(Language, Vec<String>)>) -> Seq<
    (Language, Seq<Seq<char>>),
> {
    t.map_values(|e: (Language, Vec<String>)| (e.0, e.1@.map_values(|s: String| s@)))
}

/// Number of strings per language: the first language's count.
pub open spec fn spec_table_count(t: Seq<(Language, Seq<Seq<char>>)>) -> int {
    if t.len() == 0 {
        0
    } else {
        t[0].1.len() as int
    }
}

/// Whether the table carries the language.
pub open spec fn spec_table_has(t: Seq<(Language, Seq<Seq<char>>)>, lang: Language) -> bool {
    exists|i: int| 0 <= i < t.len() && (#[trigger] t[i]).0 == lang
}

/// The name recorded for the language: the first matching entry, or the
/// empty string when the language carries no name.
pub open spec fn spec_name_lookup(names: Seq<(Language, Seq<char>)>, lang: Language) -> Seq<char>
    decreases names.len(),
{
    if names.len() == 0 {
        Seq::empty()
    } else if names[0].0 == lang {
        names[0].1
    } else {
        spec_name_lookup(names.drop_first(), lang)
    }
}

/// The table after adding, for the first `i` names, every language the
/// table does not yet carry, each padded with `cnt` empty strings.
pub open spec fn spec_table_add_missing(
    t: Seq<(Language, Seq<Seq<char>>)>,
    names: Seq<(Language, Seq<char>)>,
    cnt: int,
    i: int,
) -> Seq<(Language, Seq<Seq<char>>)>
    decreases i,
{
    if i <= 0 {
        t
    } else {
        let prev = spec_table_add_missing(t, names, cnt, i - 1);
        if spec_table_has(prev, names[i - 1].0) {
            prev
        } else {
            prev.push((names[i - 1].0, Seq::new(cnt as nat, |j: int| Seq::<char>::empty())))
        }
    }
}

/// The table with one more string per language: each language's name, or
/// the empty string where the names carry no entry for it.
pub open spec fn spec_table_append(
    t: Seq<(Language, Seq<Seq<char>>)>,
    names: Seq<(Language, Seq<char>)>,
) -> Seq<(Language, Seq<Seq<char>>)> {
    t.map_values(
        |e: (Language, Seq<Seq<char>>)| (e.0, e.1.push(spec_name_lookup(names, e.0))),
    )
}

/// One round of the string-table construction: the union of the table's
/// and the names' languages, then one more string for every language.
pub open spec fn spec_table_add(
    t: Seq<(Language, Seq<Seq<char>>)>,
    names: Seq<(Language, Seq<char>)>,
) -> Seq<(Language, Seq<Seq<char>>)> {
    spec_table_append(
        spec_table_add_missing(t, names, spec_table_count(t), names.len() as int),
        names,
    )
}

/// Whether every language of the table carries exactly `cnt` strings.
pub open spec fn spec_table_counts_eq(t: Seq<(Language, Seq<Seq<char>>)>, cnt: int) -> bool {
    forall|i: int| 0 <= i < t.len() ==> (#[trigger] t[i]).1.len() == cnt
}

/// Adding missing languages preserves equal counts.
proof fn lemma_add_missing_counts(
    t: Seq<(Language, Seq<Seq<char>>)>,
    names: Seq<(Language, Seq<char>)>,
    cnt: int,
    i: int,
)
    requires
        cnt >= 0,
        spec_table_counts_eq(t, cnt),
    ensures
        spec_table_counts_eq(spec_table_add_missing(t, names, cnt, i), cnt),
        spec_table_add_missing(t, names, cnt, i).len() >= t.len(),
    decreases i,
{
    if i > 0 {
        lemma_add_missing_counts(t, names, cnt, i - 1);
    }
}

/// One construction round takes a table with equal counts to a table
/// with the count one higher.
pub proof fn lemma_table_add_counts(
    t: Seq<(Language, Seq<Seq<char>>)>,
    names: Seq<(Language, Seq<char>)>,
    cnt: int,
)
    requires
        cnt >= 0,
        spec_table_counts_eq(t, cnt),
        spec_table_count(t) == cnt,
    ensures
        spec_table_counts_eq(spec_table_add(t, names), cnt + 1),
        spec_table_add(t, names).len() == 0 ==> t.len() == 0 && names.len() == 0,
        spec_table_add(t, names).len() > 0 ==> spec_table_count(spec_table_add(t, names)) == cnt
            + 1,
{
    lemma_add_missing_counts(t, names, cnt, names.len() as int);
    let mid = spec_table_add_missing(t, names, cnt, names.len() as int);
    if names.len() > 0 && mid.len() == 0 {
        lemma_add_missing_nonempty(t, names, cnt, names.len() as int);
    }
}

/// With at least one name, the expanded table is never empty.
proof fn lemma_add_missing_nonempty(
    t: Seq<(Language, Seq<Seq<char>>)>,
    names: Seq<(Language, Seq<char>)>,
    cnt: int,
    i: int,
)
    requires
        0 < i <= names.len(),
    ensures
        spec_table_add_missing(t, names, cnt, i).len() > 0,
    decreases i,
{
    let prev = spec_table_add_missing(t, names, cnt, i - 1);
    if spec_table_has(prev, names[i - 1].0) {
        assert(prev.len() > 0);
    }
}

/// Whether the table carries the language.
fn table_contains(table: &Vec<(Language, Vec<String>)>, lang: Language) -> (r: bool)
    ensures
        r == spec_table_has(spec_table_view(table@), lang),
{
    let ghost view = spec_table_view(table@);
    for i in 0..table.len()
        invariant
            view == spec_table_view(table@),
            forall|j: int| 0 <= j < i ==> (#[trigger] view[j]).0 != lang,
    {
        if table[i].0 == lang {
            proof {
                assert(view[i as int].0 == lang);
            }
            return true;
        }
        proof {
            assert(view[i as int].0 == table@[i as int].0);
        }
    }
    false
}

/// The name recorded for the language, or the empty string.
fn lookup_name(names: &Vec<(Language, String)>, lang: Language) -> (r: String)
    ensures
        r@ == spec_name_lookup(spec_names_view(names@), lang),
{
    let ghost view = spec_names_view(names@);
    proof {
        assert(view.skip(0) =~= view);
    }
    for i in 0..names.len()
        invariant
            view == spec_names_view(names@),
            spec_name_lookup(view, lang) == spec_name_lookup(view.skip(i as int), lang),
    {
        proof {
            assert(view.skip(i as int)[0] == view[i as int]);
            assert(view.skip(i as int).drop_first() =~= view.skip(i as int + 1));
        }
        if names[i].0 == lang {
            let r = names[i].1.clone();
            proof {
                assert(view[i as int].1 == names@[i as int].1@);
            }
            return r;
        }
    }
    proof {
        assert(view.skip(names@.len() as int) =~= Seq::<(Language, Seq<char>)>::empty());
    }
    String::new()
}

/// Adds one string per language to the table: each language's entry from
/// `names`, first adding any language the table does not yet carry.
///
/// Returns the one-based string index of the added string.  Fails with
/// [`GadgetError::TooManyStrings`] exactly when that index would not fit
/// the one-byte string index field; the table is then unchanged.
fn add_strings(table: &mut Vec<(Language, Vec<String>)>, names: &Vec<(Language, String)>) -> (r:
    Result<u8, GadgetError>)
    ensures
        match r {
            Ok(idx) => {
                &&& spec_table_count(spec_table_view(old(table)@)) + 1 <= 255
                &&& idx as int == spec_table_count(spec_table_view(old(table)@)) + 1
                &&& spec_table_view(final(table)@) == spec_table_add(
                    spec_table_view(old(table)@),
                    spec_names_view(names@),
                )
            },
            Err(e) => {
                &&& e == GadgetError::TooManyStrings
                &&& spec_table_count(spec_table_view(old(table)@)) + 1 > 255
                &&& final(table)@ == old(table)@
            },
        },
{
    let ghost orig = spec_table_view(old(table)@);
    let ghost names_v = spec_names_view(names@);
    let cnt: usize = if table.len() == 0 {
        0
    } else {
        table[0].1.len()
    };
    proof {
        assert(orig.len() == table@.len());
        if table@.len() > 0 {
            assert(orig[0].1.len() == table@[0].1@.len());
        }
        assert(cnt as int == spec_table_count(orig));
    }
    if cnt >= 255 {
        return Err(GadgetError::TooManyStrings);
    }

    for i in 0..names.len()
        invariant
            orig == spec_table_view(old(table)@),
            names_v == spec_names_view(names@),
            cnt as int == spec_table_count(orig),
            cnt < 255,
            spec_table_view(table@) == spec_table_add_missing(orig, names_v, cnt as int, i as int),
    {
        let lang = names[i].0;
        proof {
            assert(names_v[i as int].0 == lang);
        }
        if !table_contains(table, lang) {
            let mut empty_strs: Vec<String> = Vec::new();
            for j in 0..cnt
                invariant
                    empty_strs@.len() == j,
                    forall|k: int| 0 <= k < j ==> (#[trigger] empty_strs@[k])@ == Seq::<
                        char,
                    >::empty(),
            {
                empty_strs.push(String::new());
            }
            let ghost pre = table@;
            table.push((lang, empty_strs));
            proof {
                assert(empty_strs@.map_values(|s: String| s@) =~= Seq::new(
                    cnt as nat,
                    |j: int| Seq::<char>::empty(),
                ));
                assert(spec_table_view(table@) =~= spec_table_view(pre).push(
                    (lang, empty_strs@.map_values(|s: String| s@)),
                ));
            }
        }
    }

    let ghost mid = spec_table_view(table@);
    let mut new_table: Vec<(Language, Vec<String>)> = Vec::new();
    for i in 0..table.len()
        invariant
            names_v == spec_names_view(names@),
            mid == spec_table_view(table@),
            spec_table_view(new_table@) == spec_table_append(mid, names_v).take(i as int),
    {
        let entry = &table[i];
        let mut strs: Vec<String> = Vec::new();
        let inner = &entry.1;
        for j in 0..inner.len()
            invariant
                inner == &entry.1,
                strs@.len() == j,
                forall|k: int| 0 <= k < j ==> (#[trigger] strs@[k])@ == inner@[k]@,
        {
            strs.push(inner[j].clone());
        }
        strs.push(lookup_name(names, entry.0));
        let ghost pre_new = new_table@;
        let ghost strs_view = strs@.map_values(|s: String| s@);
        new_table.push((entry.0, strs));
        proof {
            assert(mid[i as int].0 == entry.0);
            assert(mid[i as int].1 =~= entry.1@.map_values(|s: String| s@));
            assert(strs_view =~= mid[i as int].1.push(spec_name_lookup(names_v, entry.0)));
            assert(spec_table_view(new_table@) =~= spec_table_view(pre_new).push(
                (entry.0, strs_view),
            ));
            let app = spec_table_append(mid, names_v);
            assert(app[i as int] == (mid[i as int].0, mid[i as int].1.push(
                spec_name_lookup(names_v, mid[i as int].0),
            )));
            assert(app.take(i as int + 1) =~= app.take(i as int).push(app[i as int]));
            assert(spec_table_view(new_table@) =~= app.take(i as int + 1));
        }
    }
    proof {
        assert(spec_table_append(mid, names_v).take(table@.len() as int) =~= spec_table_append(
            mid,
            names_v,
        ));
    }
    *table = new_table;
    Ok((cnt + 1) as u8)
}

/// Ghost state of the descriptor-set construction, after some prefix of
/// the interfaces.
pub struct BuildView {
    /// Full-speed descriptors so far.
    pub fs: Seq<ffs::DescView>,
    /// High-speed descriptors so far.
    pub hs: Seq<ffs::DescView>,
    /// Super-speed descriptors so far.
    pub ss: Seq<ffs::DescView>,
    /// OS-extension descriptors so far.
    pub os: Seq<ffs::OsDescView>,
    /// String table so far.
    pub table: Seq<(Language, Seq<Seq<char>>)>,
    /// Endpoint numbers handed out so far.
    pub endpoint_num: int,
    /// Interface associations so far: identity token and the descriptor
    /// under construction.
    pub assocs: Seq<(u64, ffs::InterfaceAssocDesc)>,
}

/// The interface descriptor of an interface.
pub open spec fn spec_if_desc(
    interface_class: Class,
    ifnum: u8,
    num_endpoints: u8,
    name_idx: u8,
) -> ffs::InterfaceDesc {
    ffs::InterfaceDesc {
        interface_number: ifnum,
        alternate_setting: 0,
        num_endpoints,
        interface_class: interface_class.class,
        interface_sub_class: interface_class.sub_class,
        interface_protocol: interface_class.protocol,
        name_idx,
    }
}

/// The custom descriptors of an interface as descriptor records.
pub open spec fn spec_custom_descs_view(cs: Seq<ffs::CustomDesc>) -> Seq<ffs::DescView> {
    cs.map_values(|c: ffs::CustomDesc| ffs::DescView::Custom(c.descriptor_type, c.data@))
}

/// The address of an endpoint: its number with the direction bit set for
/// device-to-host endpoints.
pub open spec fn spec_ep_address(direction: Direction, num: u8) -> u8 {
    match direction {
        Direction::DeviceToHost => num | 0x80,
        Direction::HostToDevice => num | 0x00,
    }
}

/// The endpoint descriptor of an endpoint for one speed tier's maximum
/// packet size.
pub open spec fn spec_ep_desc(ep: Endpoint, num: u8, max_packet_size: u16) -> ffs::EndpointDesc {
    ffs::EndpointDesc {
        endpoint_address: spec_ep_address(ep.direction, num),
        attributes: ep.transfer.spec_attributes(),
        max_packet_size,
        interval: ep.interval,
        audio: match ep.audio {
            Some(a) => Some(
                ffs::AudioEndpointDesc { refresh: a.refresh, synch_address: a.synch_address },
            ),
            None => None,
        },
    }
}

/// The super-speed companion descriptor of an endpoint.
pub open spec fn spec_ss_comp(ep: Endpoint) -> ffs::SsEndpointComp {
    ffs::SsEndpointComp {
        max_burst: ep.max_burst_ss,
        attributes: 0,
        bytes_per_interval: ep.bytes_per_interval_ss,
    }
}

/// The full-speed endpoint descriptors of an interface's endpoints,
/// numbered from `base + 1`; the full-speed maximum packet size is 0.
pub open spec fn spec_eps_fs(eps: Seq<Endpoint>, base: int) -> Seq<ffs::DescView> {
    Seq::new(
        eps.len(),
        |j: int| ffs::DescView::Endpoint(spec_ep_desc(eps[j], (base + j + 1) as u8, 0)),
    )
}

/// The high-speed endpoint descriptors of an interface's endpoints.
pub open spec fn spec_eps_hs(eps: Seq<Endpoint>, base: int) -> Seq<ffs::DescView> {
    Seq::new(
        eps.len(),
        |j: int|
            ffs::DescView::Endpoint(
                spec_ep_desc(eps[j], (base + j + 1) as u8, eps[j].max_packet_size_hs),
            ),
    )
}

/// The super-speed endpoint descriptors of an interface's endpoints, each
/// followed by its companion descriptor.
pub open spec fn spec_eps_ss(eps: Seq<Endpoint>, base: int) -> Seq<ffs::DescView> {
    Seq::new(
        2 * eps.len(),
        |j: int|
            if j % 2 == 0 {
                ffs::DescView::Endpoint(
                    spec_ep_desc(eps[j / 2], (base + j / 2 + 1) as u8, eps[j / 2].max_packet_size_ss),
                )
            } else {
                ffs::DescView::SsEndpointComp(spec_ss_comp(eps[j / 2]))
            },
    )
}

/// Index of the association with the given identity token, or -1.
pub open spec fn spec_assoc_find(assocs: Seq<(u64, ffs::InterfaceAssocDesc)>, token: u64) -> int
    decreases assocs.len(),
{
    if assocs.len() == 0 {
        -1
    } else if assocs[0].0 == token {
        0
    } else {
        let rest = spec_assoc_find(assocs.drop_first(), token);
        if rest == -1 {
            -1
        } else {
            rest + 1
        }
    }
}

/// The extended compatibility records of an interface.
pub open spec fn spec_os_compat_view(cs: Seq<OsExtCompat>, ifnum: u8) -> Seq<ffs::OsExtCompat> {
    cs.map_values(
        |oe: OsExtCompat|
            ffs::OsExtCompat {
                first_interface_number: ifnum,
                compatible_id: oe.compatible_id,
                sub_compatible_id: oe.sub_compatible_id,
            },
    )
}

/// The extended property records of an interface.
pub open spec fn spec_os_props_view(ps: Seq<OsExtProp>) -> Seq<ffs::OsExtPropView> {
    ps.map_values(
        |p: OsExtProp|
            ffs::OsExtPropView {
                data_type: spec_reg_value_type(p.value),
                name: vstd::utf8::encode_utf8(p.name@) + seq![0u8],
                data: spec_reg_value_bytes(p.value),
            },
    )
}

/// Applies an interface's association to the association table: a new
/// token opens an association at this interface; a known token requires
/// this interface to adjoin the association's range, which then grows by
/// one.
pub open spec fn spec_apply_assoc(
    assocs: Seq<(u64, ffs::InterfaceAssocDesc)>,
    table: Seq<(Language, Seq<Seq<char>>)>,
    assoc: Association,
    ifnum: u8,
) -> Result<(Seq<(u64, ffs::InterfaceAssocDesc)>, Seq<(Language, Seq<Seq<char>>)>), GadgetError> {
    let idx = spec_assoc_find(assocs, assoc.token);
    if idx == -1 {
        if spec_table_count(table) + 1 > 255 {
            Err(GadgetError::TooManyStrings)
        } else {
            let iad = ffs::InterfaceAssocDesc {
                first_interface: ifnum,
                interface_count: 1,
                function_class: assoc.function_class.class,
                function_sub_class: assoc.function_class.sub_class,
                function_protocol: assoc.function_class.protocol,
                name_idx: (spec_table_count(table) + 1) as u8,
            };
            Ok(
                (
                    assocs.push((assoc.token, iad)),
                    spec_table_add(table, spec_names_view(assoc.name@)),
                ),
            )
        }
    } else {
        let entry = assocs[idx].1;
        if entry.first_interface + entry.interface_count != ifnum {
            Err(GadgetError::AssociatedInterfacesNotAdjacent)
        } else if entry.interface_count == 255 {
            Err(GadgetError::TooManyInterfaces)
        } else {
            let grown = ffs::InterfaceAssocDesc {
                interface_count: (entry.interface_count + 1) as u8,
                ..entry
            };
            Ok((assocs.update(idx, (assocs[idx].0, grown)), table))
        }
    }
}

/// One step of the descriptor-set construction: the state after one more
/// interface, or the validation failure it provokes.
pub open spec fn spec_build_step(st: BuildView, intf: Interface, ifnum: u8) -> Result<
    BuildView,
    GadgetError,
> {
    let n = intf.endpoints@.len() as int;
    if n > 255 {
        Err(GadgetError::TooManyEndpoints)
    } else if spec_table_count(st.table) + 1 > 255 {
        Err(GadgetError::TooManyStrings)
    } else {
        let name_idx = (spec_table_count(st.table) + 1) as u8;
        let table1 = spec_table_add(st.table, spec_names_view(intf.name@));
        let ifd = ffs::DescView::Interface(
            spec_if_desc(intf.interface_class, ifnum, n as u8, name_idx),
        );
        let customs = spec_custom_descs_view(intf.custom_descs@);
        let fs1 = st.fs + seq![ifd] + customs;
        let hs1 = st.hs + seq![ifd] + customs;
        let ss1 = st.ss + seq![ifd] + customs;
        if n > 0 && st.endpoint_num + n >= 128 {
            Err(GadgetError::TooManyEndpoints)
        } else {
            let fs2 = fs1 + spec_eps_fs(intf.endpoints@, st.endpoint_num);
            let hs2 = hs1 + spec_eps_hs(intf.endpoints@, st.endpoint_num);
            let ss2 = ss1 + spec_eps_ss(intf.endpoints@, st.endpoint_num);
            let applied = match intf.association {
                Some(a) => spec_apply_assoc(st.assocs, table1, a, ifnum),
                None => Ok((st.assocs, table1)),
            };
            match applied {
                Err(e) => Err(e),
                Ok((assocs2, table2)) => {
                    let os1 = if intf.os_ext_compat@.len() > 0 {
                        st.os.push(
                            ffs::OsDescView {
                                interface: ifnum,
                                ext: ffs::OsDescExtView::ExtCompat(
                                    spec_os_compat_view(intf.os_ext_compat@, ifnum),
                                ),
                            },
                        )
                    } else {
                        st.os
                    };
                    let os2 = if intf.os_ext_props@.len() > 0 {
                        os1.push(
                            ffs::OsDescView {
                                interface: ifnum,
                                ext: ffs::OsDescExtView::ExtProp(
                                    spec_os_props_view(intf.os_ext_props@),
                                ),
                            },
                        )
                    } else {
                        os1
                    };
                    Ok(
                        BuildView {
                            fs: fs2,
                            hs: hs2,
                            ss: ss2,
                            os: os2,
                            table: table2,
                            endpoint_num: st.endpoint_num + n,
                            assocs: assocs2,
                        },
                    )
                },
            }
        }
    }
}

/// The empty construction state.
pub open spec fn spec_build_empty() -> BuildView {
    BuildView {
        fs: Seq::empty(),
        hs: Seq::empty(),
        ss: Seq::empty(),
        os: Seq::empty(),
        table: Seq::empty(),
        endpoint_num: 0,
        assocs: Seq::empty(),
    }
}

/// The construction state after the first `i` interfaces, or the first
/// validation failure among them.
pub open spec fn spec_build_upto(interfaces: Seq<Interface>, i: int) -> Result<
    BuildView,
    GadgetError,
>
    decreases i,
{
    if i <= 0 {
        Ok(spec_build_empty())
    } else {
        match spec_build_upto(interfaces, i - 1) {
            Err(e) => Err(e),
            Ok(st) => {
                if i - 1 > 255 {
                    Err(GadgetError::TooManyInterfaces)
                } else {
                    spec_build_step(st, interfaces[i - 1], (i - 1) as u8)
                }
            },
        }
    }
}

/// A failed construction stays failed however many more interfaces
/// follow.
proof fn lemma_build_err_stable(interfaces: Seq<Interface>, i: int, j: int)
    requires
        0 <= i <= j,
        spec_build_upto(interfaces, i) is Err,
    ensures
        spec_build_upto(interfaces, j) == spec_build_upto(interfaces, i),
    decreases j - i,
{
    if j > i {
        lemma_build_err_stable(interfaces, i, j - 1);
    }
}

/// The interface association descriptors of the finished construction,
/// as descriptor records in insertion order.
pub open spec fn spec_iads_view(assocs: Seq<(u64, ffs::InterfaceAssocDesc)>) -> Seq<
    ffs::DescView,
> {
    assocs.map_values(
        |e: (u64, ffs::InterfaceAssocDesc)| ffs::DescView::InterfaceAssoc(e.1),
    )
}

/// The flag word requested by a builder: the control-request routing
/// flags; the mandatory bits are added during encoding.
pub open spec fn spec_builder_flags(all_ctrl_recipient: bool, config0_setup: bool) -> u32 {
    if all_ctrl_recipient && config0_setup {
        192
    } else if all_ctrl_recipient {
        64
    } else if config0_setup {
        128
    } else {
        0
    }
}

/// Appends an interface's custom descriptors to all three speed tiers.
fn push_custom_descs(
    fs: &mut Vec<ffs::Desc>,
    hs: &mut Vec<ffs::Desc>,
    ss: &mut Vec<ffs::Desc>,
    customs: &Vec<ffs::CustomDesc>,
)
    ensures
        ffs::spec_descs_view(final(fs)@) == ffs::spec_descs_view(old(fs)@)
            + spec_custom_descs_view(customs@),
        ffs::spec_descs_view(final(hs)@) == ffs::spec_descs_view(old(hs)@)
            + spec_custom_descs_view(customs@),
        ffs::spec_descs_view(final(ss)@) == ffs::spec_descs_view(old(ss)@)
            + spec_custom_descs_view(customs@),
{
    let ghost cview = spec_custom_descs_view(customs@);
    for i in 0..customs.len()
        invariant
            cview == spec_custom_descs_view(customs@),
            ffs::spec_descs_view(fs@) == ffs::spec_descs_view(old(fs)@) + cview.take(i as int),
            ffs::spec_descs_view(hs@) == ffs::spec_descs_view(old(hs)@) + cview.take(i as int),
            ffs::spec_descs_view(ss@) == ffs::spec_descs_view(old(ss)@) + cview.take(i as int),
    {
        let c = &customs[i];
        proof {
            assert(*c == customs@[i as int]);
        }
        let ghost pre_fs = fs@;
        let ghost pre_hs = hs@;
        let ghost pre_ss = ss@;
        fs.push(ffs::Desc::Custom(c.duplicate()));
        hs.push(ffs::Desc::Custom(c.duplicate()));
        ss.push(ffs::Desc::Custom(c.duplicate()));
        proof {
            assert(cview[i as int] == ffs::DescView::Custom(
                customs@[i as int].descriptor_type,
                customs@[i as int].data@,
            ));
            assert(cview.take(i + 1) =~= cview.take(i as int).push(cview[i as int]));
            assert(ffs::spec_descs_view(fs@) =~= ffs::spec_descs_view(pre_fs).push(
                cview[i as int],
            ));
            assert(ffs::spec_descs_view(hs@) =~= ffs::spec_descs_view(pre_hs).push(
                cview[i as int],
            ));
            assert(ffs::spec_descs_view(ss@) =~= ffs::spec_descs_view(pre_ss).push(
                cview[i as int],
            ));
            assert(ffs::spec_descs_view(fs@) =~= ffs::spec_descs_view(old(fs)@) + cview.take(
                i + 1,
            ));
            assert(ffs::spec_descs_view(hs@) =~= ffs::spec_descs_view(old(hs)@) + cview.take(
                i + 1,
            ));
            assert(ffs::spec_descs_view(ss@) =~= ffs::spec_descs_view(old(ss)@) + cview.take(
                i + 1,
            ));
        }
    }
    proof {
        assert(cview.take(customs@.len() as int) =~= cview);
    }
}

/// Appends an interface's endpoint descriptors to all three speed tiers,
/// numbering the endpoints from `endpoint_num + 1`.
///
/// Fails with [`GadgetError::TooManyEndpoints`] exactly when the
/// numbering would reach the direction bit.
fn push_endpoint_descs(
    fs: &mut Vec<ffs::Desc>,
    hs: &mut Vec<ffs::Desc>,
    ss: &mut Vec<ffs::Desc>,
    eps: &Vec<Endpoint>,
    endpoint_num: &mut u8,
) -> (r: Result<(), GadgetError>)
    requires
        *old(endpoint_num) <= 127,
    ensures
        match r {
            Ok(()) => {
                &&& eps@.len() == 0 || *old(endpoint_num) + eps@.len() < 128
                &&& *final(endpoint_num) == *old(endpoint_num) + eps@.len()
                &&& ffs::spec_descs_view(final(fs)@) == ffs::spec_descs_view(old(fs)@)
                    + spec_eps_fs(eps@, *old(endpoint_num) as int)
                &&& ffs::spec_descs_view(final(hs)@) == ffs::spec_descs_view(old(hs)@)
                    + spec_eps_hs(eps@, *old(endpoint_num) as int)
                &&& ffs::spec_descs_view(final(ss)@) == ffs::spec_descs_view(old(ss)@)
                    + spec_eps_ss(eps@, *old(endpoint_num) as int)
            },
            Err(e) => {
                &&& e == GadgetError::TooManyEndpoints
                &&& eps@.len() > 0 && *old(endpoint_num) + eps@.len() >= 128
            },
        },
{
    let ghost base = *old(endpoint_num) as int;
    for j in 0..eps.len()
        invariant
            base == *old(endpoint_num) as int,
            j <= eps@.len(),
            *endpoint_num as int == base + j,
            *endpoint_num <= 127,
            ffs::spec_descs_view(fs@) == ffs::spec_descs_view(old(fs)@) + spec_eps_fs(
                eps@,
                base,
            ).take(j as int),
            ffs::spec_descs_view(hs@) == ffs::spec_descs_view(old(hs)@) + spec_eps_hs(
                eps@,
                base,
            ).take(j as int),
            ffs::spec_descs_view(ss@) == ffs::spec_descs_view(old(ss)@) + spec_eps_ss(
                eps@,
                base,
            ).take(2 * j as int),
    {
        if *endpoint_num >= 127 {
            return Err(GadgetError::TooManyEndpoints);
        }
        let num = *endpoint_num + 1;
        *endpoint_num = num;
        let ep = &eps[j];
        proof {
            assert(*ep == eps@[j as int]);
        }
        let address = match ep.direction {
            Direction::DeviceToHost => num | 0x80,
            Direction::HostToDevice => num | 0x00,
        };
        let attributes = ep.transfer.to_attributes();
        let audio = match &ep.audio {
            Some(a) => Some(
                ffs::AudioEndpointDesc { refresh: a.refresh, synch_address: a.synch_address },
            ),
            None => None,
        };
        let fs_desc = ffs::EndpointDesc {
            endpoint_address: address,
            attributes,
            max_packet_size: 0,
            interval: ep.interval,
            audio,
        };
        let hs_desc = ffs::EndpointDesc {
            max_packet_size: ep.max_packet_size_hs,
            ..fs_desc
        };
        let ss_desc = ffs::EndpointDesc {
            max_packet_size: ep.max_packet_size_ss,
            ..fs_desc
        };
        let comp = ffs::SsEndpointComp {
            max_burst: ep.max_burst_ss,
            attributes: 0,
            bytes_per_interval: ep.bytes_per_interval_ss,
        };
        let ghost pre_fs = fs@;
        let ghost pre_hs = hs@;
        let ghost pre_ss = ss@;
        fs.push(ffs::Desc::Endpoint(fs_desc));
        hs.push(ffs::Desc::Endpoint(hs_desc));
        ss.push(ffs::Desc::Endpoint(ss_desc));
        ss.push(ffs::Desc::SsEndpointComp(comp));
        proof {
            assert(num as int == base + j + 1);
            assert(fs_desc == spec_ep_desc(eps@[j as int], num, 0));
            assert(hs_desc == spec_ep_desc(eps@[j as int], num, eps@[j as int].max_packet_size_hs));
            assert(ss_desc == spec_ep_desc(eps@[j as int], num, eps@[j as int].max_packet_size_ss));
            assert(comp == spec_ss_comp(eps@[j as int]));
            assert(spec_eps_fs(eps@, base)[j as int] == ffs::DescView::Endpoint(fs_desc));
            assert(spec_eps_hs(eps@, base)[j as int] == ffs::DescView::Endpoint(hs_desc));
            assert((2 * (j as int)) / 2 == j as int && (2 * (j as int)) % 2 == 0);
            assert((2 * (j as int) + 1) / 2 == j as int && (2 * (j as int) + 1) % 2 == 1);
            assert(spec_eps_ss(eps@, base)[2 * (j as int)] == ffs::DescView::Endpoint(ss_desc));
            assert(spec_eps_ss(eps@, base)[2 * (j as int) + 1] == ffs::DescView::SsEndpointComp(
                comp,
            ));
            assert(spec_eps_fs(eps@, base).take(j + 1) =~= spec_eps_fs(eps@, base).take(
                j as int,
            ).push(ffs::DescView::Endpoint(fs_desc)));
            assert(spec_eps_hs(eps@, base).take(j + 1) =~= spec_eps_hs(eps@, base).take(
                j as int,
            ).push(ffs::DescView::Endpoint(hs_desc)));
            assert(spec_eps_ss(eps@, base).take(2 * (j + 1)) =~= spec_eps_ss(eps@, base).take(
                2 * (j as int),
            ).push(ffs::DescView::Endpoint(ss_desc)).push(ffs::DescView::SsEndpointComp(comp)));
            assert(ffs::spec_descs_view(fs@) =~= ffs::spec_descs_view(pre_fs).push(
                ffs::DescView::Endpoint(fs_desc),
            ));
            assert(ffs::spec_descs_view(hs@) =~= ffs::spec_descs_view(pre_hs).push(
                ffs::DescView::Endpoint(hs_desc),
            ));
            assert(ffs::spec_descs_view(ss@) =~= ffs::spec_descs_view(pre_ss).push(
                ffs::DescView::Endpoint(ss_desc),
            ).push(ffs::DescView::SsEndpointComp(comp)));
            assert(ffs::spec_descs_view(fs@) =~= ffs::spec_descs_view(old(fs)@) + spec_eps_fs(
                eps@,
                base,
            ).take(j + 1));
            assert(ffs::spec_descs_view(hs@) =~= ffs::spec_descs_view(old(hs)@) + spec_eps_hs(
                eps@,
                base,
            ).take(j + 1));
            assert(ffs::spec_descs_view(ss@) =~= ffs::spec_descs_view(old(ss)@) + spec_eps_ss(
                eps@,
                base,
            ).take(2 * (j + 1)));
        }
    }
    proof {
        assert(spec_eps_fs(eps@, base).take(eps@.len() as int) =~= spec_eps_fs(eps@, base));
        assert(spec_eps_hs(eps@, base).take(eps@.len() as int) =~= spec_eps_hs(eps@, base));
        assert(spec_eps_ss(eps@, base).take(2 * eps@.len() as int) =~= spec_eps_ss(eps@, base));
    }
    Ok(())
}

/// When an index holds the token and no earlier one does, the search
/// finds that index.
proof fn lemma_assoc_find_first(assocs: Seq<(u64, ffs::InterfaceAssocDesc)>, token: u64, k: int)
    requires
        0 <= k < assocs.len(),
        assocs[k].0 == token,
        forall|j: int| 0 <= j < k ==> (#[trigger] assocs[j]).0 != token,
    ensures
        spec_assoc_find(assocs, token) == k,
    decreases assocs.len(),
{
    if k > 0 {
        lemma_assoc_find_first(assocs.drop_first(), token, k - 1);
    }
}

/// When no index holds the token, the search finds nothing.
proof fn lemma_assoc_find_none(assocs: Seq<(u64, ffs::InterfaceAssocDesc)>, token: u64)
    requires
        forall|j: int| 0 <= j < assocs.len() ==> (#[trigger] assocs[j]).0 != token,
    ensures
        spec_assoc_find(assocs, token) == -1,
    decreases assocs.len(),
{
    if assocs.len() > 0 {
        lemma_assoc_find_none(assocs.drop_first(), token);
    }
}

/// Index of the association with the given identity token, or none.
fn find_assoc(assocs: &Vec<(u64, ffs::InterfaceAssocDesc)>, token: u64) -> (r: Option<usize>)
    ensures
        match r {
            Some(idx) => idx < assocs@.len() && spec_assoc_find(assocs@, token) == idx as int,
            None => spec_assoc_find(assocs@, token) == -1,
        },
{
    for i in 0..assocs.len()
        invariant
            forall|j: int| 0 <= j < i ==> (#[trigger] assocs@[j]).0 != token,
    {
        if assocs[i].0 == token {
            proof {
                lemma_assoc_find_first(assocs@, token, i as int);
            }
            return Some(i);
        }
    }
    proof {
        lemma_assoc_find_none(assocs@, token);
    }
    None
}

/// Applies an interface's association to the association table.
fn apply_assoc(
    assocs: &mut Vec<(u64, ffs::InterfaceAssocDesc)>,
    table: &mut Vec<(Language, Vec<String>)>,
    assoc: &Association,
    ifnum: u8,
) -> (r: Result<(), GadgetError>)
    ensures
        match r {
            Ok(()) => spec_apply_assoc(old(assocs)@, spec_table_view(old(table)@), *assoc, ifnum)
                == Ok::<(Seq<(u64, ffs::InterfaceAssocDesc)>, Seq<(Language, Seq<Seq<char>>)>),
                GadgetError,
            >((final(assocs)@, spec_table_view(final(table)@))),
            Err(e) => {
                &&& spec_apply_assoc(old(assocs)@, spec_table_view(old(table)@), *assoc, ifnum)
                    == Err::<
                    (Seq<(u64, ffs::InterfaceAssocDesc)>, Seq<(Language, Seq<Seq<char>>)>),
                    GadgetError,
                >(e)
                &&& final(assocs)@ == old(assocs)@
                &&& final(table)@ == old(table)@
            },
        },
{
    match find_assoc(assocs, assoc.token) {
        None => {
            let name_idx = match add_strings(table, &assoc.name) {
                Ok(idx) => idx,
                Err(e) => {
                    return Err(e);
                },
            };
            let iad = ffs::InterfaceAssocDesc {
                first_interface: ifnum,
                interface_count: 1,
                function_class: assoc.function_class.class,
                function_sub_class: assoc.function_class.sub_class,
                function_protocol: assoc.function_class.protocol,
                name_idx,
            };
            assocs.push((assoc.token, iad));
            Ok(())
        },
        Some(idx) => {
            let entry = assocs[idx].1;
            if (entry.first_interface as usize) + (entry.interface_count as usize) != (
            ifnum as usize) {
                return Err(GadgetError::AssociatedInterfacesNotAdjacent);
            }
            if entry.interface_count == 255 {
                return Err(GadgetError::TooManyInterfaces);
            }
            let token = assocs[idx].0;
            let grown = ffs::InterfaceAssocDesc {
                interface_count: entry.interface_count + 1,
                ..entry
            };
            assocs.set(idx, (token, grown));
            Ok(())
        },
    }
}

/// Appends the extended-compatibility descriptor of an interface.
fn push_os_compat(os: &mut Vec<ffs::OsDesc>, compats: &Vec<OsExtCompat>, ifnum: u8)
    ensures
        ffs::spec_os_descs_view(final(os)@) == ffs::spec_os_descs_view(old(os)@).push(
            ffs::OsDescView {
                interface: ifnum,
                ext: ffs::OsDescExtView::ExtCompat(spec_os_compat_view(compats@, ifnum)),
            },
        ),
{
    let ghost target = spec_os_compat_view(compats@, ifnum);
    let mut records: Vec<ffs::OsExtCompat> = Vec::new();
    for i in 0..compats.len()
        invariant
            target == spec_os_compat_view(compats@, ifnum),
            records@ == target.take(i as int),
    {
        let oe = &compats[i];
        records.push(
            ffs::OsExtCompat {
                first_interface_number: ifnum,
                compatible_id: oe.compatible_id,
                sub_compatible_id: oe.sub_compatible_id,
            },
        );
        proof {
            assert(*oe == compats@[i as int]);
            assert(records@ =~= target.take(i + 1));
        }
    }
    proof {
        assert(records@ =~= target);
    }
    let ghost pre = os@;
    os.push(ffs::OsDesc { interface: ifnum, ext: ffs::OsDescExt::ExtCompat(records) });
    proof {
        assert(ffs::spec_os_descs_view(os@) =~= ffs::spec_os_descs_view(pre).push(
            ffs::OsDescView {
                interface: ifnum,
                ext: ffs::OsDescExtView::ExtCompat(target),
            },
        ));
    }
}

/// Appends the extended-property descriptor of an interface.
fn push_os_props(os: &mut Vec<ffs::OsDesc>, props: &Vec<OsExtProp>, ifnum: u8)
    ensures
        ffs::spec_os_descs_view(final(os)@) == ffs::spec_os_descs_view(old(os)@).push(
            ffs::OsDescView {
                interface: ifnum,
                ext: ffs::OsDescExtView::ExtProp(spec_os_props_view(props@)),
            },
        ),
{
    let ghost target = spec_os_props_view(props@);
    let mut records: Vec<ffs::OsExtProp> = Vec::new();
    for i in 0..props.len()
        invariant
            target == spec_os_props_view(props@),
            records@.map_values(|p: ffs::OsExtProp| ffs::spec_os_ext_prop_view(p)) == target.take(
                i as int,
            ),
    {
        let p = &props[i];
        let ghost pre_records = records@;
        let rec = p.as_os_ext_prop();
        proof {
            assert(*p == props@[i as int]);
            assert(pre_records.map_values(|q: ffs::OsExtProp| ffs::spec_os_ext_prop_view(q)).len()
                == pre_records.len());
        }
        records.push(rec);
        proof {
            assert(records@ == pre_records.push(rec));
            assert(records@.len() == i + 1);
            assert(records@[i as int] == rec);
            let f = |q: ffs::OsExtProp| ffs::spec_os_ext_prop_view(q);
            assert(target[i as int] == (ffs::OsExtPropView {
                data_type: spec_reg_value_type(props@[i as int].value),
                name: vstd::utf8::encode_utf8(props@[i as int].name@) + seq![0u8],
                data: spec_reg_value_bytes(props@[i as int].value),
            }));
            assert(records@[i as int].name@ == vstd::utf8::encode_utf8(props@[i as int].name@)
                + seq![0u8]);
            assert(records@[i as int].data_type == spec_reg_value_type(props@[i as int].value));
            assert(records@[i as int].data@ == spec_reg_value_bytes(props@[i as int].value));
            assert(ffs::spec_os_ext_prop_view(records@[i as int]) == target[i as int]);
            assert(records@.map_values(f) =~= pre_records.map_values(f).push(
                ffs::spec_os_ext_prop_view(records@[i as int]),
            ));
            assert(target.take(i + 1) =~= target.take(i as int).push(target[i as int]));
            assert(records@.map_values(f) =~= target.take(i + 1));
        }
    }
    proof {
        assert(records@.map_values(|q: ffs::OsExtProp| ffs::spec_os_ext_prop_view(q)) =~= target);
    }
    let ghost pre = os@;
    os.push(ffs::OsDesc { interface: ifnum, ext: ffs::OsDescExt::ExtProp(records) });
    proof {
        assert(ffs::spec_os_descs_view(os@) =~= ffs::spec_os_descs_view(pre).push(
            ffs::OsDescView {
                interface: ifnum,
                ext: ffs::OsDescExtView::ExtProp(target),
            },
        ));
    }
}

/// A finished construction carries a string table whose languages all
/// hold the same number of strings.
pub proof fn lemma_build_counts(interfaces: Seq<Interface>, i: int)
    requires
        spec_build_upto(interfaces, i) is Ok,
    ensures
        spec_table_counts_eq(
            spec_build_upto(interfaces, i)->Ok_0.table,
            spec_table_count(spec_build_upto(interfaces, i)->Ok_0.table),
        ),
    decreases i,
{
    if i > 0 {
        lemma_build_counts(interfaces, i - 1);
        let st = spec_build_upto(interfaces, i - 1)->Ok_0;
        let c = spec_table_count(st.table);
        let intf = interfaces[i - 1];
        let names = spec_names_view(intf.name@);
        if intf.endpoints@.len() <= 255 && c + 1 <= 255 {
            lemma_table_add_counts(st.table, names, c);
            let table1 = spec_table_add(st.table, names);
            let c1 = spec_table_count(table1);
            match intf.association {
                Some(a) => {
                    if spec_assoc_find(st.assocs, a.token) == -1 && c1 + 1 <= 255 {
                        lemma_table_add_counts(table1, spec_names_view(a.name@), c1);
                    }
                },
                None => {},
            }
        }
    }
}

/// Builder for a custom USB interface, implemented in user code.
#[derive(Debug)]
pub struct CustomBuilder {
    /// USB interfaces.
    pub interfaces: Vec<Interface>,
    /// Receive control requests that are not explicitly directed to an
    /// interface or endpoint.
    pub all_ctrl_recipient: bool,
    /// Receive control requests in configuration 0.
    pub config0_setup: bool,
    /// Function filesystem mount directory.
    ///
    /// The parent directory must exist.  If unspecified, a directory
    /// under `/dev` starting with `ffs-` is created and used.
    pub ffs_dir: Option<String>,
    /// Function filesystem root permissions.
    pub ffs_root_mode: Option<u32>,
    /// Function filesystem file permissions.
    pub ffs_file_mode: Option<u32>,
    /// Function filesystem user id.
    pub ffs_uid: Option<u32>,
    /// Function filesystem group id.
    pub ffs_gid: Option<u32>,
    /// Do not disconnect the USB gadget when interface files are closed.
    pub ffs_no_disconnect: bool,
    /// Do not initialize the function filesystem.
    pub ffs_no_init: bool,
    /// Do not mount the function filesystem.
    pub ffs_no_mount: bool,
}

impl CustomBuilder {
    /// Creates a builder with no interfaces and all options off.
    pub fn new() -> (r: CustomBuilder)
        ensures
            r.interfaces@.len() == 0,
            !r.all_ctrl_recipient,
            !r.config0_setup,
            r.ffs_dir is None,
            r.ffs_root_mode is None,
            r.ffs_file_mode is None,
            r.ffs_uid is None,
            r.ffs_gid is None,
            !r.ffs_no_disconnect,
            !r.ffs_no_init,
            !r.ffs_no_mount,
    {
        CustomBuilder {
            interfaces: Vec::new(),
            all_ctrl_recipient: false,
            config0_setup: false,
            ffs_dir: None,
            ffs_root_mode: None,
            ffs_file_mode: None,
            ffs_uid: None,
            ffs_gid: None,
            ffs_no_disconnect: false,
            ffs_no_init: false,
            ffs_no_mount: false,
        }
    }

    /// Add an USB interface.
    #[must_use]
    pub fn with_interface(self, interface: Interface) -> (r: Self)
        ensures
            r.interfaces@ == self.interfaces@.push(interface),
            r.all_ctrl_recipient == self.all_ctrl_recipient,
            r.config0_setup == self.config0_setup,
    {
        let mut this = self;
        this.interfaces.push(interface);
        this
    }

    /// Builds the function filesystem descriptor set and string table.
    ///
    /// Interface and string indexes are handed out in order; endpoint
    /// numbers run from 1 to 127 across all interfaces.  Fails on the
    /// first count overflow or non-adjacent association, before any
    /// kernel interaction.
    pub fn ffs_descs(&self) -> (r: Result<(ffs::Descs, ffs::Strings), GadgetError>)
        ensures
            match r {
                Ok((descs, strings)) => spec_build_upto(
                    self.interfaces@,
                    self.interfaces@.len() as int,
                ) is Ok && ({
                    let st = spec_build_upto(self.interfaces@, self.interfaces@.len() as int)->Ok_0;
                    &&& ffs::spec_descs_view(descs.fs_descrs@) == st.fs + spec_iads_view(st.assocs)
                    &&& ffs::spec_descs_view(descs.hs_descrs@) == st.hs + spec_iads_view(st.assocs)
                    &&& ffs::spec_descs_view(descs.ss_descrs@) == st.ss + spec_iads_view(st.assocs)
                    &&& ffs::spec_os_descs_view(descs.os_descrs@) == st.os
                    &&& descs.flags == spec_builder_flags(self.all_ctrl_recipient, self.config0_setup)
                    &&& descs.eventfd is None
                    &&& spec_table_view(strings.0@) == st.table
                    &&& ffs::spec_strings_counts_ok(strings.0@)
                }),
                Err(e) => spec_build_upto(self.interfaces@, self.interfaces@.len() as int)
                    == Err::<BuildView, GadgetError>(e),
            },
    {
        let mut fs: Vec<ffs::Desc> = Vec::new();
        let mut hs: Vec<ffs::Desc> = Vec::new();
        let mut ss: Vec<ffs::Desc> = Vec::new();
        let mut os: Vec<ffs::OsDesc> = Vec::new();
        let mut table: Vec<(Language, Vec<String>)> = Vec::new();
        let mut endpoint_num: u8 = 0;
        let mut assocs: Vec<(u64, ffs::InterfaceAssocDesc)> = Vec::new();
        let ghost intfs = self.interfaces@;
        proof {
            assert(ffs::spec_descs_view(fs@) =~= Seq::<ffs::DescView>::empty());
            assert(ffs::spec_os_descs_view(os@) =~= Seq::<ffs::OsDescView>::empty());
            assert(spec_table_view(table@) =~= Seq::<(Language, Seq<Seq<char>>)>::empty());
        }
        let interfaces = &self.interfaces;
        for i in 0..interfaces.len()
            invariant
                intfs == self.interfaces@,
                interfaces == &self.interfaces,
                endpoint_num <= 127,
                spec_build_upto(intfs, i as int) == Ok::<BuildView, GadgetError>(
                    BuildView {
                        fs: ffs::spec_descs_view(fs@),
                        hs: ffs::spec_descs_view(hs@),
                        ss: ffs::spec_descs_view(ss@),
                        os: ffs::spec_os_descs_view(os@),
                        table: spec_table_view(table@),
                        endpoint_num: endpoint_num as int,
                        assocs: assocs@,
                    },
                ),
        {
            let ghost st = spec_build_upto(intfs, i as int)->Ok_0;
            if i > 255 {
                proof {
                    assert(spec_build_upto(intfs, i + 1) == Err::<BuildView, GadgetError>(
                        GadgetError::TooManyInterfaces,
                    ));
                    lemma_build_err_stable(intfs, i + 1, intfs.len() as int);
                }
                return Err(GadgetError::TooManyInterfaces);
            }
            let ifnum = i as u8;
            let intf = &interfaces[i];
            proof {
                assert(*intf == intfs[i as int]);
            }

            if intf.endpoints.len() > 255 {
                proof {
                    assert(spec_build_step(st, intfs[i as int], ifnum) == Err::<
                        BuildView,
                        GadgetError,
                    >(GadgetError::TooManyEndpoints));
                    assert(spec_build_upto(intfs, i + 1) == Err::<BuildView, GadgetError>(
                        GadgetError::TooManyEndpoints,
                    ));
                    lemma_build_err_stable(intfs, i + 1, intfs.len() as int);
                }
                return Err(GadgetError::TooManyEndpoints);
            }

            let ghost table0 = spec_table_view(table@);
            let name_idx = match add_strings(&mut table, &intf.name) {
                Ok(idx) => idx,
                Err(e) => {
                    proof {
                        assert(spec_build_step(st, intfs[i as int], ifnum) == Err::<
                            BuildView,
                            GadgetError,
                        >(GadgetError::TooManyStrings));
                        assert(spec_build_upto(intfs, i + 1) == Err::<BuildView, GadgetError>(e));
                        lemma_build_err_stable(intfs, i + 1, intfs.len() as int);
                    }
                    return Err(e);
                },
            };

            let if_desc = ffs::InterfaceDesc {
                interface_number: ifnum,
                alternate_setting: 0,
                num_endpoints: intf.endpoints.len() as u8,
                interface_class: intf.interface_class.class,
                interface_sub_class: intf.interface_class.sub_class,
                interface_protocol: intf.interface_class.protocol,
                name_idx,
            };
            let ghost pre_fs = fs@;
            let ghost pre_hs = hs@;
            let ghost pre_ss = ss@;
            fs.push(ffs::Desc::Interface(if_desc));
            hs.push(ffs::Desc::Interface(if_desc));
            ss.push(ffs::Desc::Interface(if_desc));
            proof {
                assert(if_desc == spec_if_desc(
                    intfs[i as int].interface_class,
                    ifnum,
                    intfs[i as int].endpoints@.len() as u8,
                    name_idx,
                ));
                assert(ffs::spec_descs_view(fs@) =~= ffs::spec_descs_view(pre_fs) + seq![
                    ffs::DescView::Interface(if_desc),
                ]);
                assert(ffs::spec_descs_view(hs@) =~= ffs::spec_descs_view(pre_hs) + seq![
                    ffs::DescView::Interface(if_desc),
                ]);
                assert(ffs::spec_descs_view(ss@) =~= ffs::spec_descs_view(pre_ss) + seq![
                    ffs::DescView::Interface(if_desc),
                ]);
            }
            push_custom_descs(&mut fs, &mut hs, &mut ss, &intf.custom_descs);

            let ghost base = endpoint_num as int;
            match push_endpoint_descs(&mut fs, &mut hs, &mut ss, &intf.endpoints, &mut endpoint_num)
            {
                Ok(()) => {},
                Err(e) => {
                    proof {
                        assert(spec_build_step(st, intfs[i as int], ifnum) == Err::<
                            BuildView,
                            GadgetError,
                        >(GadgetError::TooManyEndpoints));
                        assert(spec_build_upto(intfs, i + 1) == Err::<BuildView, GadgetError>(e));
                        lemma_build_err_stable(intfs, i + 1, intfs.len() as int);
                    }
                    return Err(e);
                },
            }

            let ghost table1 = spec_table_view(table@);
            let ghost assocs1 = assocs@;
            match &intf.association {
                Some(a) => {
                    match apply_assoc(&mut assocs, &mut table, a, ifnum) {
                        Ok(()) => {},
                        Err(e) => {
                            proof {
                                assert(spec_apply_assoc(assocs1, table1, *a, ifnum) == Err::<
                                    (
                                        Seq<(u64, ffs::InterfaceAssocDesc)>,
                                        Seq<(Language, Seq<Seq<char>>)>,
                                    ),
                                    GadgetError,
                                >(e));
                                assert(spec_build_step(st, intfs[i as int], ifnum) == Err::<
                                    BuildView,
                                    GadgetError,
                                >(e));
                                assert(spec_build_upto(intfs, i + 1) == Err::<
                                    BuildView,
                                    GadgetError,
                                >(e));
                                lemma_build_err_stable(intfs, i + 1, intfs.len() as int);
                            }
                            return Err(e);
                        },
                    }
                },
                None => {},
            }

            if intf.os_ext_compat.len() > 0 {
                push_os_compat(&mut os, &intf.os_ext_compat, ifnum);
            }
            if intf.os_ext_props.len() > 0 {
                push_os_props(&mut os, &intf.os_ext_props, ifnum);
            }

            proof {
                assert(spec_build_upto(intfs, i + 1) == spec_build_step(st, intfs[i as int], ifnum));
                assert(spec_build_step(st, intfs[i as int], ifnum) == Ok::<BuildView, GadgetError>(
                    BuildView {
                        fs: ffs::spec_descs_view(fs@),
                        hs: ffs::spec_descs_view(hs@),
                        ss: ffs::spec_descs_view(ss@),
                        os: ffs::spec_os_descs_view(os@),
                        table: spec_table_view(table@),
                        endpoint_num: endpoint_num as int,
                        assocs: assocs@,
                    },
                ));
            }
        }

        let ghost st_final = spec_build_upto(intfs, intfs.len() as int)->Ok_0;
        let ghost iads = spec_iads_view(assocs@);
        let assoc_count = assocs.len();
        for k in 0..assoc_count
            invariant
                assoc_count == assocs@.len(),
                iads == spec_iads_view(assocs@),
                st_final.assocs == assocs@,
                ffs::spec_descs_view(fs@) == st_final.fs + iads.take(k as int),
                ffs::spec_descs_view(hs@) == st_final.hs + iads.take(k as int),
                ffs::spec_descs_view(ss@) == st_final.ss + iads.take(k as int),
        {
            let iad = assocs[k].1;
            let ghost pre_fs = fs@;
            let ghost pre_hs = hs@;
            let ghost pre_ss = ss@;
            fs.push(ffs::Desc::InterfaceAssoc(iad));
            hs.push(ffs::Desc::InterfaceAssoc(iad));
            ss.push(ffs::Desc::InterfaceAssoc(iad));
            proof {
                assert(iads[k as int] == ffs::DescView::InterfaceAssoc(assocs@[k as int].1));
                assert(iads.take(k + 1) =~= iads.take(k as int).push(iads[k as int]));
                assert(ffs::spec_descs_view(fs@) =~= ffs::spec_descs_view(pre_fs).push(
                    iads[k as int],
                ));
                assert(ffs::spec_descs_view(hs@) =~= ffs::spec_descs_view(pre_hs).push(
                    iads[k as int],
                ));
                assert(ffs::spec_descs_view(ss@) =~= ffs::spec_descs_view(pre_ss).push(
                    iads[k as int],
                ));
                assert(ffs::spec_descs_view(fs@) =~= st_final.fs + iads.take(k + 1));
                assert(ffs::spec_descs_view(hs@) =~= st_final.hs + iads.take(k + 1));
                assert(ffs::spec_descs_view(ss@) =~= st_final.ss + iads.take(k + 1));
            }
        }
        proof {
            assert(iads.take(assocs@.len() as int) =~= iads);
        }

        let flags: u32 = if self.all_ctrl_recipient && self.config0_setup {
            192
        } else if self.all_ctrl_recipient {
            64
        } else if self.config0_setup {
            128
        } else {
            0
        };

        proof {
            lemma_build_counts(intfs, intfs.len() as int);
            assert forall|i: int|
                0 <= i < table@.len() implies (#[trigger] table@[i].1@).len()
                == ffs::spec_strings_count(table@) by {
                assert(spec_table_view(table@)[i].1.len() == table@[i].1@.len());
                if table@.len() > 0 {
                    assert(spec_table_view(table@)[0].1.len() == table@[0].1@.len());
                }
            }
        }

        Ok(
            (
                ffs::Descs {
                    flags,
                    eventfd: None,
                    fs_descrs: fs,
                    hs_descrs: hs,
                    ss_descrs: ss,
                    os_descrs: os,
                },
                ffs::Strings(table),
            ),
        )
    }

    /// Gets the descriptor and string data for writing into the control
    /// file of the function filesystem, with the given OS-descriptor
    /// `bcdVersion` field value.
    ///
    /// Normally this is done when the custom function is registered; the
    /// blobs are only needed directly when they are written to the
    /// control file by other means.
    ///
    /// Fails exactly when the construction itself fails, or when the
    /// built descriptor set or string table overflows a count or length
    /// field of the wire format.
    pub fn ffs_descriptors_and_strings_with_version(&self, bcd_version: u16) -> (r: Result<
        (Vec<u8>, Vec<u8>),
        GadgetError,
    >)
        ensures
            match r {
                Ok(blobs) => ({
                    let build = spec_build_upto(self.interfaces@, self.interfaces@.len() as int);
                    let flags = spec_builder_flags(self.all_ctrl_recipient, self.config0_setup);
                    &&& build is Ok
                    &&& exists|descs: ffs::Descs|
                        {
                            &&& spec_descs_match_build(descs, build->Ok_0, flags)
                            &&& ffs::spec_descs_ok(descs, bcd_version)
                            &&& blobs.0@ == #[trigger] ffs::spec_descs_bytes(descs, bcd_version)
                        }
                    &&& exists|strings: ffs::Strings|
                        {
                            &&& spec_table_view(strings.0@) == build->Ok_0.table
                            &&& ffs::spec_strings_ok(strings.0@)
                            &&& blobs.1@ == #[trigger] ffs::spec_strings_bytes(strings.0@)
                        }
                }),
                Err(e) => ({
                    let build = spec_build_upto(self.interfaces@, self.interfaces@.len() as int);
                    let flags = spec_builder_flags(self.all_ctrl_recipient, self.config0_setup);
                    match build {
                        Err(be) => e == be,
                        Ok(st) => {
                            &&& e == GadgetError::Codec(ffs::Error::Overflow)
                            &&& (exists|descs: ffs::Descs|
                                {
                                    &&& #[trigger] spec_descs_match_build(descs, st, flags)
                                    &&& !ffs::spec_descs_ok(descs, bcd_version)
                                }) || (exists|strings: ffs::Strings|
                                {
                                    &&& #[trigger] spec_table_view(strings.0@) == st.table
                                    &&& ffs::spec_strings_counts_ok(strings.0@)
                                    &&& !ffs::spec_strings_ok(strings.0@)
                                })
                        },
                    }
                }),
            },
    {
        let (descs, strings) = match self.ffs_descs() {
            Ok(pair) => pair,
            Err(e) => {
                return Err(e);
            },
        };
        let ghost gdescs = descs;
        let ghost gstrings = strings;
        proof {
            let build = spec_build_upto(self.interfaces@, self.interfaces@.len() as int);
            let flags = spec_builder_flags(self.all_ctrl_recipient, self.config0_setup);
            assert(spec_descs_match_build(gdescs, build->Ok_0, flags));
        }
        let descs_data = match descs.to_bytes(bcd_version) {
            Ok(data) => data,
            Err(err) => {
                proof {
                    assert(!ffs::spec_descs_ok(gdescs, bcd_version));
                }
                return Err(GadgetError::Codec(err));
            },
        };
        let strs_data = match strings.to_bytes() {
            Ok(data) => data,
            Err(err) => {
                proof {
                    assert(ffs::spec_strings_counts_ok(gstrings.0@));
                    assert(!ffs::spec_strings_ok(gstrings.0@));
                }
                return Err(GadgetError::Codec(err));
            },
        };
        proof {
            assert(descs_data@ == ffs::spec_descs_bytes(gdescs, bcd_version));
            assert(strs_data@ == ffs::spec_strings_bytes(gstrings.0@));
        }
        Ok((descs_data, strs_data))
    }

    /// Gets the descriptor and string data for writing into the control
    /// file of the function filesystem.
    ///
    /// The OS-descriptor `bcdVersion` field is chosen from the running
    /// kernel's version.  Fails exactly when the construction itself
    /// fails, or when the built descriptor set or string table
    /// overflows a count or length field of the wire format.
    pub fn ffs_descriptors_and_strings(&self) -> (r: Result<(Vec<u8>, Vec<u8>), GadgetError>)
        ensures
            match r {
                Ok(blobs) => ({
                    let build = spec_build_upto(self.interfaces@, self.interfaces@.len() as int);
                    let flags = spec_builder_flags(self.all_ctrl_recipient, self.config0_setup);
                    &&& build is Ok
                    &&& exists|bcd: u16, descs: ffs::Descs|
                        {
                            &&& (bcd == 0x0001 || bcd == 0x0100)
                            &&& spec_descs_match_build(descs, build->Ok_0, flags)
                            &&& ffs::spec_descs_ok(descs, bcd)
                            &&& blobs.0@ == #[trigger] ffs::spec_descs_bytes(descs, bcd)
                        }
                    &&& exists|strings: ffs::Strings|
                        {
                            &&& spec_table_view(strings.0@) == build->Ok_0.table
                            &&& ffs::spec_strings_ok(strings.0@)
                            &&& blobs.1@ == #[trigger] ffs::spec_strings_bytes(strings.0@)
                        }
                }),
                Err(e) => ({
                    let build = spec_build_upto(self.interfaces@, self.interfaces@.len() as int);
                    let flags = spec_builder_flags(self.all_ctrl_recipient, self.config0_setup);
                    match build {
                        Err(be) => e == be,
                        Ok(st) => {
                            &&& e == GadgetError::Codec(ffs::Error::Overflow)
                            &&& (exists|bcd: u16, descs: ffs::Descs|
                                {
                                    &&& (bcd == 0x0001 || bcd == 0x0100)
                                    &&& spec_descs_match_build(descs, st, flags)
                                    &&& !#[trigger] ffs::spec_descs_ok(descs, bcd)
                                }) || (exists|strings: ffs::Strings|
                                {
                                    &&& #[trigger] spec_table_view(strings.0@) == st.table
                                    &&& ffs::spec_strings_counts_ok(strings.0@)
                                    &&& !ffs::spec_strings_ok(strings.0@)
                                })
                        },
                    }
                }),
            },
    {
        let bcd_version = crate::kernel::os_desc_bcd_version(crate::kernel::linux_version());
        self.ffs_descriptors_and_strings_with_version(bcd_version)
    }
}

/// Whether a descriptor set carries exactly the descriptors of a finished
/// construction: the per-speed lists with the association descriptors
/// appended, the OS-extension descriptors, the requested flags, and no
/// eventfd.
pub open spec fn spec_descs_match_build(descs: ffs::Descs, st: BuildView, flags: u32) -> bool {
    &&& ffs::spec_descs_view(descs.fs_descrs@) == st.fs + spec_iads_view(st.assocs)
    &&& ffs::spec_descs_view(descs.hs_descrs@) == st.hs + spec_iads_view(st.assocs)
    &&& ffs::spec_descs_view(descs.ss_descrs@) == st.ss + spec_iads_view(st.assocs)
    &&& ffs::spec_os_descs_view(descs.os_descrs@) == st.os
    &&& descs.flags == flags
    &&& descs.eventfd is None
}

/// Halt sequence on the control endpoint: a protocol-level refusal of the
/// pending transfer.
#[derive(Debug, Clone, Copy, PartialEq, Eq, Structural)]
pub enum HaltAction {
    /// Read a single byte from the control file: stalls a pending
    /// device-to-host transfer.
    ReadByte,
    /// Write a single byte to the control file: stalls a pending
    /// host-to-device transfer.
    WriteByte,
}

/// The halt sequence for a pending transfer of the given direction.
pub open spec fn spec_halt_action(direction: Direction) -> HaltAction {
    match direction {
        Direction::DeviceToHost => HaltAction::ReadByte,
        Direction::HostToDevice => HaltAction::WriteByte,
    }
}

/// The halt sequence for a pending transfer of the given direction.
pub fn halt_action(direction: Direction) -> (r: HaltAction)
    ensures
        r == spec_halt_action(direction),
{
    match direction {
        Direction::DeviceToHost => HaltAction::ReadByte,
        Direction::HostToDevice => HaltAction::WriteByte,
    }
}

/// USB event delivered by the control endpoint.
#[derive(Debug, Clone, Copy, PartialEq, Eq, Structural)]
pub enum Event {
    /// Bind to gadget.
    Bind,
    /// Unbind from gadget.
    Unbind,
    /// Function was enabled.
    Enable,
    /// Function was disabled.
    Disable,
    /// Device suspend.
    Suspend,
    /// Device resume.
    Resume,
    /// Control request with data from host to device.
    SetupHostToDevice(ffs::CtrlReq),
    /// Control request with data from device to host.
    SetupDeviceToHost(ffs::CtrlReq),
    /// Unknown event.
    Unknown(u8),
}

/// The event a raw record decodes to: lifecycle tags map to their events,
/// a SETUP record carries its parsed control request, split by the
/// direction bit of the request type.
pub open spec fn spec_decode_event(data: Seq<u8>, event_type: u8) -> Event
    recommends
        data.len() == 8,
{
    if event_type == ffs::EVENT_BIND {
        Event::Bind
    } else if event_type == ffs::EVENT_UNBIND {
        Event::Unbind
    } else if event_type == ffs::EVENT_ENABLE {
        Event::Enable
    } else if event_type == ffs::EVENT_DISABLE {
        Event::Disable
    } else if event_type == ffs::EVENT_SUSPEND {
        Event::Suspend
    } else if event_type == ffs::EVENT_RESUME {
        Event::Resume
    } else if event_type == ffs::EVENT_SETUP {
        let req = ffs::spec_parse_ctrl_req(data);
        if req.request_type & 0x80 != 0 {
            Event::SetupDeviceToHost(req)
        } else {
            Event::SetupHostToDevice(req)
        }
    } else {
        Event::Unknown(event_type)
    }
}

/// The control-transfer state after decoding a raw record: a SETUP record
/// leaves a transfer of its direction pending, every other record leaves
/// the state idle.
pub open spec fn spec_decode_state(data: Seq<u8>, event_type: u8) -> Option<Direction>
    recommends
        data.len() == 8,
{
    if event_type == ffs::EVENT_SETUP {
        if ffs::spec_parse_ctrl_req(data).request_type & 0x80 != 0 {
            Some(Direction::DeviceToHost)
        } else {
            Some(Direction::HostToDevice)
        }
    } else {
        None
    }
}

/// One draining step of the state machine: the halt sequence owed for the
/// state, and the state afterwards.
pub open spec fn spec_clear(state: Option<Direction>) -> (Option<HaltAction>, Option<Direction>) {
    match state {
        Some(direction) => (Some(spec_halt_action(direction)), None),
        None => (None, None),
    }
}

/// Control-transfer state machine of the control endpoint.
///
/// At most one control transfer is outstanding; it is tracked as the
/// direction of the awaited data phase.  Decoding a SETUP record sets the
/// state; a successful response, an explicit halt or the drop of an
/// unconsumed response object clears it.
#[derive(Debug)]
pub struct CtrlMachine {
    setup_event: Option<Direction>,
}

impl CtrlMachine {
    /// Direction of the pending control transfer, if one is outstanding.
    pub closed spec fn spec_pending(&self) -> Option<Direction> {
        self.setup_event
    }

    /// Creates the state machine with no transfer outstanding.
    pub fn new() -> (r: CtrlMachine)
        ensures
            r.spec_pending() is None,
    {
        CtrlMachine { setup_event: None }
    }

    /// Direction of the pending control transfer, if one is outstanding.
    pub fn pending(&self) -> (r: Option<Direction>)
        ensures
            r == self.spec_pending(),
    {
        self.setup_event
    }

    /// Clears a pending transfer that was never responded to.
    ///
    /// Returns the single halt sequence the caller must perform on the
    /// control file before reading the next event — exactly one halt,
    /// exactly when a transfer was left pending.
    pub fn clear_prev_event(&mut self) -> (r: Option<HaltAction>)
        ensures
            (r, final(self).spec_pending()) == spec_clear(old(self).spec_pending()),
            final(self).spec_pending() is None,
    {
        match self.setup_event {
            Some(direction) => {
                self.setup_event = None;
                Some(halt_action(direction))
            },
            None => None,
        }
    }

    /// Records that the pending transfer was answered: the response was
    /// sent, the data was received, or an explicit halt was performed.
    pub fn response_completed(&mut self)
        ensures
            final(self).spec_pending() is None,
    {
        self.setup_event = None;
    }

    /// Decodes a raw event record and tracks the control-transfer state.
    ///
    /// Any prior transfer must have been drained first.
    pub fn decode_event(&mut self, raw: &ffs::Event) -> (r: Event)
        requires
            old(self).spec_pending() is None,
        ensures
            r == spec_decode_event(raw.data@, raw.event_type),
            final(self).spec_pending() == spec_decode_state(raw.data@, raw.event_type),
    {
        match raw.event_type {
            0 => Event::Bind,
            1 => Event::Unbind,
            2 => Event::Enable,
            3 => Event::Disable,
            5 => Event::Suspend,
            6 => Event::Resume,
            4 => {
                let req = match ffs::CtrlReq::parse(raw.data.as_slice()) {
                    Ok(req) => req,
                    Err(_) => {
                        proof {
                            assert(raw.data@.len() == 8);
                            assert(false);
                        }
                        ffs::CtrlReq { request_type: 0, request: 0, value: 0, index: 0, length: 0 }
                    },
                };
                if req.request_type & 0x80 != 0 {
                    self.setup_event = Some(Direction::DeviceToHost);
                    Event::SetupDeviceToHost(req)
                } else {
                    self.setup_event = Some(Direction::HostToDevice);
                    Event::SetupHostToDevice(req)
                }
            },
            other => Event::Unknown(other),
        }
    }

    /// Checks the size of a raw record read from the control file, then
    /// decodes it.
    ///
    /// Exactly the reads of 12 bytes are accepted; any other size is a
    /// malformed record.
    pub fn event_from_bytes(&mut self, buf: &[u8]) -> (r: Result<Event, GadgetError>)
        requires
            old(self).spec_pending() is None,
        ensures
            match r {
                Ok(ev) => {
                    &&& buf@.len() == 12
                    &&& ev == spec_decode_event(buf@.subrange(0, 8), buf@[8])
                    &&& final(self).spec_pending() == spec_decode_state(
                        buf@.subrange(0, 8),
                        buf@[8],
                    )
                },
                Err(e) => {
                    &&& buf@.len() != 12
                    &&& e == GadgetError::InvalidEventSize
                    &&& final(self).spec_pending() is None
                },
            },
    {
        if buf.len() != 12 {
            return Err(GadgetError::InvalidEventSize);
        }
        let raw = match ffs::Event::parse(buf) {
            Ok(raw) => raw,
            Err(_) => {
                proof {
                    assert(false);
                }
                return Err(GadgetError::InvalidEventSize);
            },
        };
        Ok(self.decode_event(&raw))
    }
}

/// A control transfer left pending by a never-consumed response is
/// drained with exactly one halt sequence — the read or write matching
/// its direction — before the next event is decoded; the machine is then
/// idle, and a second drain would perform no further halt.
pub proof fn lemma_setup_exclusivity(prior: Direction)
    ensures
        ({
            let (act, cleared) = spec_clear(Some(prior));
            &&& act == Some(spec_halt_action(prior))
            &&& cleared is None
            &&& spec_clear(cleared).0 is None
        }),
{
}

} // verus!
