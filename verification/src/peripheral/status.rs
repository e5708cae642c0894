//! Port status bytes.

use vstd::prelude::*;

verus! {

/// Nothing is plugged in.
pub const NOT_CONNECTED: u8 = 0xF0;
/// One peripheral, directly on the port.
pub const DIRECT: u8 = 0xF1;
/// A light gun, which reports nothing but this byte.
pub const GUN_DIRECT: u8 = 0xA0;

} // verus!
