//! Command codes that COMREG understands.

use vstd::prelude::*;

verus! {

pub const MSHON: u8 = 0x00;
pub const SSHON: u8 = 0x02;
pub const SSHOFF: u8 = 0x03;
pub const SNDON: u8 = 0x06;
pub const SNDOFF: u8 = 0x07;
pub const CDON: u8 = 0x08;
pub const CDOFF: u8 = 0x09;
pub const SYSRES: u8 = 0x0D;
pub const CKCHG352: u8 = 0x0E;
pub const CKCHG320: u8 = 0x0F;
pub const INTBACK: u8 = 0x10;
pub const SETSMEM: u8 = 0x17;
pub const NMIREQ: u8 = 0x18;
pub const RESENAB: u8 = 0x19;
pub const RESDISA: u8 = 0x1A;

} // verus!
