//! Offsets of the SMPC registers within their 0x80-byte window.

use vstd::prelude::*;

verus! {

pub const IREG0: usize = 0x01;
pub const IREG1: usize = 0x03;
pub const IREG2: usize = 0x05;
pub const IREG3: usize = 0x07;
pub const IREG4: usize = 0x09;
pub const IREG5: usize = 0x0B;
pub const IREG6: usize = 0x0D;
pub const COMREG: usize = 0x1F;
pub const OREG_BASE: usize = 0x21;
pub const SR: usize = 0x61;
pub const SF: usize = 0x63;
pub const PDR1: usize = 0x75;
pub const PDR2: usize = 0x77;
pub const DDR1: usize = 0x79;
pub const DDR2: usize = 0x7B;
pub const IOSEL: usize = 0x7D;
pub const EXLE: usize = 0x7F;

/// The offset of output register `n`.
pub fn oreg(n: usize) -> (r: usize)
    requires
        OREG_BASE + 2 * n <= usize::MAX,
    ensures
        r == OREG_BASE + 2 * n,
{
    OREG_BASE + 2 * n
}

} // verus!
