//! Human interface device function configuration.

use vstd::prelude::*;

use crate::props::{push_prop_str, spec_prop_str, spec_props_view, Prop};
use crate::text::{spec_decimal, u64_to_decimal};

verus! {

/// Builder for a USB human interface device function.
#[derive(Debug, Clone, PartialEq, Eq)]
pub struct HidBuilder {
    /// HID subclass to use.
    pub sub_class: u8,
    /// HID protocol to use.
    pub protocol: u8,
    /// Report descriptor data.
    pub report_desc: Vec<u8>,
    /// HID report length.
    pub report_len: u8,
    /// No out endpoint?
    pub no_out_endpoint: bool,
}

/// The properties a builder writes during registration, in order.
pub open spec fn spec_hid_props(b: HidBuilder) -> Seq<(Seq<char>, Seq<u8>)> {
    Seq::empty().push(spec_prop_str(("subclass")@, spec_decimal(b.sub_class as int))).push(
        spec_prop_str(("protocol")@, spec_decimal(b.protocol as int)),
    ).push((("report_desc")@, b.report_desc@)).push(
        spec_prop_str(("report_length")@, spec_decimal(b.report_len as int)),
    ).push(
        spec_prop_str(
            ("no_out_endpoint")@,
            if b.no_out_endpoint {
                spec_decimal(1)
            } else {
                spec_decimal(0)
            },
        ),
    )
}

impl HidBuilder {
    /// A builder for a device with subclass and protocol 0, an empty
    /// report descriptor and an out endpoint.
    pub fn new() -> (r: HidBuilder)
        ensures
            r.sub_class == 0,
            r.protocol == 0,
            r.report_desc@ == Seq::<u8>::empty(),
            r.report_len == 0,
            !r.no_out_endpoint,
    {
        HidBuilder {
            sub_class: 0,
            protocol: 0,
            report_desc: Vec::new(),
            report_len: 0,
            no_out_endpoint: false,
        }
    }

    /// The properties this builder writes during registration, in order.
    pub fn properties(&self) -> (r: Vec<Prop>)
        ensures
            spec_props_view(r@) == spec_hid_props(*self),
    {
        let mut ps: Vec<Prop> = Vec::new();
        proof {
            assert(spec_props_view(ps@) =~= Seq::<(Seq<char>, Seq<u8>)>::empty());
        }
        push_prop_str(&mut ps, "subclass", u64_to_decimal(self.sub_class as u64).as_str());
        push_prop_str(&mut ps, "protocol", u64_to_decimal(self.protocol as u64).as_str());
        let mut desc: Vec<u8> = Vec::new();
        crate::codec::push_bytes(&mut desc, self.report_desc.as_slice());
        let ghost pre = ps@;
        ps.push(Prop { name: String::from_str("report_desc"), value: desc });
        proof {
            assert(spec_props_view(ps@) =~= spec_props_view(pre).push(
                (("report_desc")@, self.report_desc@),
            ));
        }
        push_prop_str(&mut ps, "report_length", u64_to_decimal(self.report_len as u64).as_str());
        let no_out = if self.no_out_endpoint {
            u64_to_decimal(1)
        } else {
            u64_to_decimal(0)
        };
        push_prop_str(&mut ps, "no_out_endpoint", no_out.as_str());
        ps
    }
}

} // verus!
