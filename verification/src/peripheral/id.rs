//! Peripheral identifiers. The low nibble is the number of data bytes.

use vstd::prelude::*;

verus! {

pub const PAD: u8 = 0x02;
pub const WHEEL: u8 = 0x13;
pub const MISSION_STICK: u8 = 0x15;
pub const PAD_3D: u8 = 0x16;
pub const TWIN_STICKS: u8 = 0x19;
pub const KEYBOARD: u8 = 0x34;
pub const MOUSE: u8 = 0xE3;

} // verus!
