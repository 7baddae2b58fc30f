//! Registration state of a USB gadget function.

use vstd::prelude::*;

verus! {

/// USB function registration state.
#[derive(Debug, Clone, Copy, PartialEq, Eq, PartialOrd, Ord, Structural)]
pub enum State {
    /// Function is not registered.
    Unregistered,
    /// Function is registered but not bound to a device controller.
    Registered,
    /// Function is registered and bound to a device controller.
    Bound,
    /// Function was removed and will stay in this state.
    Removed,
}

/// The registration state read off a function directory: whether a
/// directory is present, whether one was ever set, and whether the
/// function is bound to a device controller.
pub open spec fn spec_state_of(dir_present: bool, dir_was_set: bool, bound: bool) -> State {
    if !dir_present && !dir_was_set {
        State::Unregistered
    } else if !dir_present {
        State::Removed
    } else if !bound {
        State::Registered
    } else {
        State::Bound
    }
}

/// The registration state read off a function directory.
pub fn state_of(dir_present: bool, dir_was_set: bool, bound: bool) -> (r: State)
    ensures
        r == spec_state_of(dir_present, dir_was_set, bound),
{
    if !dir_present && !dir_was_set {
        State::Unregistered
    } else if !dir_present {
        State::Removed
    } else if !bound {
        State::Registered
    } else {
        State::Bound
    }
}

} // verus!
