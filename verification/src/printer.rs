//! Printer function configuration.

use vstd::prelude::*;

use crate::props::{
    push_prop_string, push_prop_u8, spec_props_view, spec_with_str, spec_with_u8, Prop,
};

verus! {

/// Get printer status ioctl id.
pub const GADGET_GET_PRINTER_STATUS: u8 = 0x21;

/// Set printer status ioctl id.
pub const GADGET_SET_PRINTER_STATUS: u8 = 0x22;

/// Printer status flag: printer not in error state.
pub const STATUS_NOT_ERROR: u8 = 8;

/// Printer status flag: printer selected.
pub const STATUS_SELECTED: u8 = 16;

/// Printer status flag: printer out of paper.
pub const STATUS_PAPER_EMPTY: u8 = 32;

/// Builder for a USB printer function.
#[derive(Debug, Clone, PartialEq, Eq)]
pub struct PrinterBuilder {
    /// The PNP ID string used for this printer.
    pub pnp_string: Option<String>,
    /// The number of 8k buffers to use per endpoint; the driver defaults
    /// to 10.
    pub qlen: Option<u8>,
}

/// View of an optional string field.
pub open spec fn spec_opt_str(v: Option<String>) -> Option<Seq<char>> {
    match v {
        Some(s) => Some(s@),
        None => None,
    }
}

/// The properties a builder writes during registration, in order.
pub open spec fn spec_printer_props(b: PrinterBuilder) -> Seq<(Seq<char>, Seq<u8>)> {
    let ps = spec_with_str(Seq::empty(), ("pnp_string")@, spec_opt_str(b.pnp_string));
    let ps = spec_with_u8(ps, ("q_len")@, b.qlen);
    ps
}

impl PrinterBuilder {
    /// A builder with no values set: the driver defaults apply.
    pub fn new() -> (r: PrinterBuilder)
        ensures
            r.pnp_string is None,
            r.qlen is None,
    {
        PrinterBuilder { pnp_string: None, qlen: None }
    }

    /// The properties this builder writes during registration, in order.
    pub fn properties(&self) -> (r: Vec<Prop>)
        ensures
            spec_props_view(r@) == spec_printer_props(*self),
    {
        let mut ps: Vec<Prop> = Vec::new();
        proof {
            assert(spec_props_view(ps@) =~= Seq::<(Seq<char>, Seq<u8>)>::empty());
        }
        push_prop_string(&mut ps, "pnp_string", &self.pnp_string);
        push_prop_u8(&mut ps, "q_len", self.qlen);
        ps
    }
}

} // verus!
