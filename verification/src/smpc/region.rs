//! Region codes reported in OREG9.

use vstd::prelude::*;

verus! {

pub const AUTODETECT: u8 = 0x0;
pub const JAPAN: u8 = 0x1;
pub const ASIA_NTSC: u8 = 0x2;
pub const NORTH_AMERICA: u8 = 0x4;
pub const CENTRAL_SOUTH_AMERICA_NTSC: u8 = 0x5;
pub const KOREA: u8 = 0x6;
pub const ASIA_PAL: u8 = 0xA;
pub const EUROPE: u8 = 0xC;
pub const CENTRAL_SOUTH_AMERICA_PAL: u8 = 0xD;

} // verus!
