//! Syncs the system time and volume to the LCD of a Royal Kludge M87 keyboard:
//! the packet formats, device recognition and the daemon's scheduling.
use vstd::prelude::*;

pub mod duration;
pub mod error;
pub mod hid;
pub mod protocol;
pub mod state;
pub mod volume;

verus! {
}
