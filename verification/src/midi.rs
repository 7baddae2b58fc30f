//! Musical instrument digital interface function configuration.

use vstd::prelude::*;

use crate::props::{
    push_prop_string, push_prop_u16, push_prop_u8, spec_props_view, spec_with_str, spec_with_u16,
    spec_with_u8, Prop,
};

verus! {

/// Builder for a USB musical instrument digital interface function.
///
/// Unset fields are left at the driver's default values.
#[derive(Debug, Clone, PartialEq, Eq)]
pub struct MidiBuilder {
    /// Buffer length.
    pub buflen: Option<u16>,
    /// ID string for the USB MIDI adapter.
    pub id: Option<String>,
    /// Number of MIDI input ports.
    pub in_ports: Option<u8>,
    /// Number of MIDI output ports.
    pub out_ports: Option<u8>,
    /// Sound device index for the MIDI adapter; unset for automatic
    /// selection.
    pub index: Option<u8>,
    /// USB read request queue length.
    pub qlen: Option<u8>,
}

/// View of an optional string field.
pub open spec fn spec_opt_str(v: Option<String>) -> Option<Seq<char>> {
    match v {
        Some(s) => Some(s@),
        None => None,
    }
}

/// The properties a builder writes during registration, in order.
pub open spec fn spec_midi_props(b: MidiBuilder) -> Seq<(Seq<char>, Seq<u8>)> {
    let ps = spec_with_u16(Seq::empty(), ("buflen")@, b.buflen);
    let ps = spec_with_str(ps, ("id")@, spec_opt_str(b.id));
    let ps = spec_with_u8(ps, ("in_ports")@, b.in_ports);
    let ps = spec_with_u8(ps, ("out_ports")@, b.out_ports);
    let ps = spec_with_u8(ps, ("index")@, b.index);
    let ps = spec_with_u8(ps, ("qlen")@, b.qlen);
    ps
}

impl MidiBuilder {
    /// A builder with no values set: the driver defaults apply.
    pub fn new() -> (r: MidiBuilder)
        ensures
            r.buflen is None,
            r.id is None,
            r.in_ports is None,
            r.out_ports is None,
            r.index is None,
            r.qlen is None,
    {
        MidiBuilder {
            buflen: None,
            id: None,
            in_ports: None,
            out_ports: None,
            index: None,
            qlen: None,
        }
    }

    /// The properties this builder writes during registration, in order.
    pub fn properties(&self) -> (r: Vec<Prop>)
        ensures
            spec_props_view(r@) == spec_midi_props(*self),
    {
        let mut ps: Vec<Prop> = Vec::new();
        proof {
            assert(spec_props_view(ps@) =~= Seq::<(Seq<char>, Seq<u8>)>::empty());
        }
        push_prop_u16(&mut ps, "buflen", self.buflen);
        push_prop_string(&mut ps, "id", &self.id);
        push_prop_u8(&mut ps, "in_ports", self.in_ports);
        push_prop_u8(&mut ps, "out_ports", self.out_ports);
        push_prop_u8(&mut ps, "index", self.index);
        push_prop_u8(&mut ps, "qlen", self.qlen);
        ps
    }
}

} // verus!
