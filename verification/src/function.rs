//! USB gadget functions, grouped by function driver.

pub use crate::audio;
pub use crate::custom;
pub use crate::hid;
pub use crate::midi;
pub use crate::msd;
pub use crate::net;
pub use crate::printer;
pub use crate::serial;
pub use crate::status;
pub use crate::value;
