//! Implementation of USB peripherals, so called USB gadgets, for Linux
//! devices with a USB device controller.
//!
//! The heart of the crate is the custom USB function subsystem: the binary
//! descriptor and string codec for the kernel's function filesystem, the
//! asynchronous I/O reactor driving endpoint device files, and the
//! control-transfer state machine that answers or stalls every SETUP packet
//! exactly once.

pub mod audio;
pub mod codec;
pub mod custom;
pub mod endpoint;
pub mod errors;
pub mod ffs;
pub mod function;
pub mod gadget;
pub mod hid;
pub mod kernel;
pub mod lang;
pub mod midi;
pub mod msd;
pub mod net;
pub mod printer;
pub mod props;
pub mod reactor;
pub mod serial;
pub mod status;
pub mod text;
pub mod udc;
pub mod value;
pub mod video;

pub use errors::GadgetError;
pub use gadget::{Class, Config, Gadget, Id, OsDescriptor, Strings, UsbVersion, WebUsb,
    WebUsbVersion};
pub use lang::Language;
pub use text::{hex_u16, hex_u8};

use vstd::prelude::*;
use vstd::string::StringSliceAdditionalSpecFns;

verus! {

/// USB speed.
#[derive(Debug, Clone, Copy, PartialEq, Eq, Hash, Structural)]
pub enum Speed {
    /// USB 3.1: 10 Gbit/s.
    SuperSpeedPlus,
    /// USB 3.0: 5 Gbit/s.
    SuperSpeed,
    /// USB 2.0: 480 Mbit/s.
    HighSpeed,
    /// USB 1.0: 12 Mbit/s.
    FullSpeed,
    /// USB 1.0: 1.5 Mbit/s.
    LowSpeed,
    /// Unknown speed.
    Unknown,
}

impl Speed {
    /// The name under which the kernel reports this speed.
    pub fn name(self) -> (r: &'static str)
        ensures
            self == Speed::SuperSpeedPlus ==> r@ == "super-speed-plus"@,
            self == Speed::SuperSpeed ==> r@ == "super-speed"@,
            self == Speed::HighSpeed ==> r@ == "high-speed"@,
            self == Speed::FullSpeed ==> r@ == "full-speed"@,
            self == Speed::LowSpeed ==> r@ == "low-speed"@,
            self == Speed::Unknown ==> r@ == "UNKNOWN"@,
    {
        match self {
            Speed::SuperSpeedPlus => "super-speed-plus",
            Speed::SuperSpeed => "super-speed",
            Speed::HighSpeed => "high-speed",
            Speed::FullSpeed => "full-speed",
            Speed::LowSpeed => "low-speed",
            Speed::Unknown => "UNKNOWN",
        }
    }

    /// The speed named by the given kernel report bytes,
    /// [`Speed::Unknown`] when they match no known name.
    pub open spec fn spec_from_name(b: Seq<u8>) -> Speed {
        if b == ("super-speed-plus").spec_bytes() {
            Speed::SuperSpeedPlus
        } else if b == ("super-speed").spec_bytes() {
            Speed::SuperSpeed
        } else if b == ("high-speed").spec_bytes() {
            Speed::HighSpeed
        } else if b == ("full-speed").spec_bytes() {
            Speed::FullSpeed
        } else if b == ("low-speed").spec_bytes() {
            Speed::LowSpeed
        } else {
            Speed::Unknown
        }
    }

    /// The speed a kernel report names, [`Speed::Unknown`] when the bytes
    /// match no known name.
    pub fn from_name(name: &str) -> (r: Speed)
        ensures
            r == Speed::spec_from_name(name.spec_bytes()),
    {
        let bytes = name.as_bytes();
        if codec::bytes_eq(bytes, "super-speed-plus".as_bytes()) {
            Speed::SuperSpeedPlus
        } else if codec::bytes_eq(bytes, "super-speed".as_bytes()) {
            Speed::SuperSpeed
        } else if codec::bytes_eq(bytes, "high-speed".as_bytes()) {
            Speed::HighSpeed
        } else if codec::bytes_eq(bytes, "full-speed".as_bytes()) {
            Speed::FullSpeed
        } else if codec::bytes_eq(bytes, "low-speed".as_bytes()) {
            Speed::LowSpeed
        } else {
            Speed::Unknown
        }
    }
}

impl Default for Speed {
    /// Unknown speed.
    fn default() -> (r: Self)
        ensures
            r == Speed::Unknown,
    {
        Speed::Unknown
    }
}

} // verus!
