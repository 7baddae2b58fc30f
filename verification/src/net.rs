//! Network function classes.

use vstd::prelude::*;

verus! {

/// Class of USB network device.
#[derive(Debug, Clone, Copy, PartialEq, Eq, Structural)]
pub enum NetClass {
    /// Ethernet Control Model (CDC ECM).
    Ecm,
    /// Subset of Ethernet Control Model (CDC ECM subset).
    EcmSubset,
    /// Ethernet Emulation Model (CDC EEM).
    Eem,
    /// Network Control Model (CDC NCM).
    Ncm,
    /// Remote Network Driver Interface Specification (RNDIS).
    Rndis,
}

impl NetClass {
    /// Name of the kernel function driver.
    pub fn driver(&self) -> (r: &'static str)
        ensures
            *self == NetClass::Ecm ==> r@ == "ecm"@,
            *self == NetClass::EcmSubset ==> r@ == "geth"@,
            *self == NetClass::Eem ==> r@ == "eem"@,
            *self == NetClass::Ncm ==> r@ == "ncm"@,
            *self == NetClass::Rndis ==> r@ == "rndis"@,
    {
        match self {
            NetClass::Ecm => "ecm",
            NetClass::EcmSubset => "geth",
            NetClass::Eem => "eem",
            NetClass::Ncm => "ncm",
            NetClass::Rndis => "rndis",
        }
    }
}

} // verus!
