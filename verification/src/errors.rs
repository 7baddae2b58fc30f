//! Library-wide error type.
//!
//! The variants separate capacity, kernel-rejection, protocol, lifecycle
//! and timeout failures, so callers can tell a full queue from a torn-down
//! gadget and choose between retrying, cancelling and giving up.

use vstd::prelude::*;

verus! {

/// Failure of a gadget, endpoint or control-transfer operation.
#[derive(Debug, Clone, Copy, PartialEq, Eq, Structural)]
pub enum GadgetError {
    /// No queue space is available; retry after retrieving a completion.
    QueueFull,
    /// The kernel rejected an operation with the given OS error code.
    Os(i32),
    /// An event record of the wrong size was read from the control file.
    InvalidEventSize,
    /// Too many interfaces for the interface number field.
    TooManyInterfaces,
    /// Too many endpoints for the endpoint numbering.
    TooManyEndpoints,
    /// Too many strings for the string index field.
    TooManyStrings,
    /// Interfaces sharing an association are not numbered contiguously.
    AssociatedInterfacesNotAdjacent,
    /// Descriptor or string encoding failed.
    Codec(crate::ffs::Error),
    /// The gadget was removed; the endpoint or control file is gone.
    GadgetRemoved,
    /// A bounded wait ran out before the operation completed.
    TimedOut,
    /// Fewer bytes were accepted than were produced.
    IncompleteWrite,
    /// The backing file path of a logical unit is not absolute.
    LunFileNotAbsolute,
}

impl GadgetError {
    /// Human-readable description of the failure.
    pub fn message(&self) -> (r: String)
        ensures
            *self == GadgetError::QueueFull ==> r@ == "no queue space available"@,
            *self == GadgetError::InvalidEventSize ==> r@ == "invalid event size"@,
            *self == GadgetError::TooManyInterfaces ==> r@ == "too many interfaces"@,
            *self == GadgetError::TooManyEndpoints ==> r@ == "too many endpoints"@,
            *self == GadgetError::TooManyStrings ==> r@ == "too many strings"@,
            *self == GadgetError::AssociatedInterfacesNotAdjacent ==> r@
                == "associated interfaces must be adjacent"@,
            *self == GadgetError::GadgetRemoved ==> r@ == "USB gadget was removed"@,
            *self == GadgetError::TimedOut ==> r@ == "timeout waiting for completion"@,
            *self == GadgetError::IncompleteWrite ==> r@ == "short write"@,
            *self == GadgetError::LunFileNotAbsolute ==> r@
                == "the LUN file path must be absolute"@,
    {
        match self {
            GadgetError::QueueFull => String::from_str("no queue space available"),
            GadgetError::Os(_) => String::from_str("operating system error"),
            GadgetError::InvalidEventSize => String::from_str("invalid event size"),
            GadgetError::TooManyInterfaces => String::from_str("too many interfaces"),
            GadgetError::TooManyEndpoints => String::from_str("too many endpoints"),
            GadgetError::TooManyStrings => String::from_str("too many strings"),
            GadgetError::AssociatedInterfacesNotAdjacent => String::from_str(
                "associated interfaces must be adjacent",
            ),
            GadgetError::Codec(e) => e.message(),
            GadgetError::GadgetRemoved => String::from_str("USB gadget was removed"),
            GadgetError::TimedOut => String::from_str("timeout waiting for completion"),
            GadgetError::IncompleteWrite => String::from_str("short write"),
            GadgetError::LunFileNotAbsolute => String::from_str(
                "the LUN file path must be absolute",
            ),
        }
    }
}

} // verus!
