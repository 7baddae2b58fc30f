//! Serial function classes and configuration.

use vstd::prelude::*;

use crate::props::{push_prop_bool, spec_props_view, spec_with_bool, Prop};

verus! {

/// Class of USB serial function.
#[derive(Debug, Clone, Copy, PartialEq, Eq, Structural)]
pub enum SerialClass {
    /// Abstract Control Model (CDC ACM).
    Acm,
    /// Generic serial.
    Generic,
}

impl SerialClass {
    /// Name of the kernel function driver.
    pub fn driver(&self) -> (r: &'static str)
        ensures
            *self == SerialClass::Acm ==> r@ == "acm"@,
            *self == SerialClass::Generic ==> r@ == "gser"@,
    {
        match self {
            SerialClass::Acm => "acm",
            SerialClass::Generic => "gser",
        }
    }
}

/// Builder for a USB serial function.
#[derive(Debug, Clone, PartialEq, Eq)]
pub struct SerialBuilder {
    /// Class of the serial function.
    pub serial_class: SerialClass,
    /// Console?
    pub console: Option<bool>,
}

/// The properties a builder writes during registration, in order.
///
/// Console support is optional: a failing write of the console property
/// is ignored during registration.
pub open spec fn spec_serial_props(b: SerialBuilder) -> Seq<(Seq<char>, Seq<u8>)> {
    spec_with_bool(Seq::empty(), ("console")@, b.console)
}

impl SerialBuilder {
    /// A builder for the given serial class with no values set.
    pub fn new(serial_class: SerialClass) -> (r: SerialBuilder)
        ensures
            r.serial_class == serial_class,
            r.console is None,
    {
        SerialBuilder { serial_class, console: None }
    }

    /// The properties this builder writes during registration, in order.
    pub fn properties(&self) -> (r: Vec<Prop>)
        ensures
            spec_props_view(r@) == spec_serial_props(*self),
    {
        let mut ps: Vec<Prop> = Vec::new();
        proof {
            assert(spec_props_view(ps@) =~= Seq::<(Seq<char>, Seq<u8>)>::empty());
        }
        push_prop_bool(&mut ps, "console", self.console);
        ps
    }
}

} // verus!
