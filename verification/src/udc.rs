//! USB device controller connection states.

use vstd::prelude::*;
use vstd::string::StringSliceAdditionalSpecFns;

verus! {

/// USB device controller connection state.
#[derive(Debug, Clone, Copy, PartialEq, Eq, Hash, Structural)]
pub enum UdcState {
    /// Not attached.
    NotAttached,
    /// Attached.
    Attached,
    /// Powered.
    Powered,
    /// Reconnecting.
    Reconnecting,
    /// Unauthenticated.
    Unauthenticated,
    /// Default.
    Default,
    /// Addressed.
    Addressed,
    /// Configured.
    Configured,
    /// Suspended.
    Suspended,
    /// Unknown state.
    Unknown,
}

impl UdcState {
    /// The name under which the kernel reports this state.
    pub fn name(self) -> (r: &'static str)
        ensures
            self == UdcState::NotAttached ==> r@ == "not attached"@,
            self == UdcState::Attached ==> r@ == "attached"@,
            self == UdcState::Powered ==> r@ == "powered"@,
            self == UdcState::Reconnecting ==> r@ == "reconnecting"@,
            self == UdcState::Unauthenticated ==> r@ == "unauthenticated"@,
            self == UdcState::Default ==> r@ == "default"@,
            self == UdcState::Addressed ==> r@ == "addressed"@,
            self == UdcState::Configured ==> r@ == "configured"@,
            self == UdcState::Suspended ==> r@ == "suspended"@,
            self == UdcState::Unknown ==> r@ == "UNKNOWN"@,
    {
        match self {
            UdcState::NotAttached => "not attached",
            UdcState::Attached => "attached",
            UdcState::Powered => "powered",
            UdcState::Reconnecting => "reconnecting",
            UdcState::Unauthenticated => "unauthenticated",
            UdcState::Default => "default",
            UdcState::Addressed => "addressed",
            UdcState::Configured => "configured",
            UdcState::Suspended => "suspended",
            UdcState::Unknown => "UNKNOWN",
        }
    }

    /// The state named by the given kernel report bytes,
    /// [`UdcState::Unknown`] when they match no known name.
    pub open spec fn spec_from_name(b: Seq<u8>) -> UdcState {
        if b == ("not attached").spec_bytes() {
            UdcState::NotAttached
        } else if b == ("attached").spec_bytes() {
            UdcState::Attached
        } else if b == ("powered").spec_bytes() {
            UdcState::Powered
        } else if b == ("reconnecting").spec_bytes() {
            UdcState::Reconnecting
        } else if b == ("unauthenticated").spec_bytes() {
            UdcState::Unauthenticated
        } else if b == ("default").spec_bytes() {
            UdcState::Default
        } else if b == ("addressed").spec_bytes() {
            UdcState::Addressed
        } else if b == ("configured").spec_bytes() {
            UdcState::Configured
        } else if b == ("suspended").spec_bytes() {
            UdcState::Suspended
        } else {
            UdcState::Unknown
        }
    }

    /// The state a kernel report names.
    pub fn from_name(name: &str) -> (r: UdcState)
        ensures
            r == UdcState::spec_from_name(name.spec_bytes()),
    {
        let bytes = name.as_bytes();
        if crate::codec::bytes_eq(bytes, "not attached".as_bytes()) {
            UdcState::NotAttached
        } else if crate::codec::bytes_eq(bytes, "attached".as_bytes()) {
            UdcState::Attached
        } else if crate::codec::bytes_eq(bytes, "powered".as_bytes()) {
            UdcState::Powered
        } else if crate::codec::bytes_eq(bytes, "reconnecting".as_bytes()) {
            UdcState::Reconnecting
        } else if crate::codec::bytes_eq(bytes, "unauthenticated".as_bytes()) {
            UdcState::Unauthenticated
        } else if crate::codec::bytes_eq(bytes, "default".as_bytes()) {
            UdcState::Default
        } else if crate::codec::bytes_eq(bytes, "addressed".as_bytes()) {
            UdcState::Addressed
        } else if crate::codec::bytes_eq(bytes, "configured".as_bytes()) {
            UdcState::Configured
        } else if crate::codec::bytes_eq(bytes, "suspended".as_bytes()) {
            UdcState::Suspended
        } else {
            UdcState::Unknown
        }
    }
}

impl Default for UdcState {
    /// Unknown state.
    fn default() -> (r: Self)
        ensures
            r == UdcState::Unknown,
    {
        UdcState::Unknown
    }
}

} // verus!
