//! Reading the on-chip registers.

use crate::bytes::{be16, from_be16};
use crate::sh2_onchip::Sh2OnChip;
use vstd::prelude::*;

verus! {

/// Cycles per tick of the free-running timer.
pub open spec fn frt_unit(shift: int) -> int {
    if shift <= 0 {
        1
    } else if shift == 1 {
        2
    } else if shift == 2 {
        4
    } else if shift == 3 {
        8
    } else if shift == 4 {
        16
    } else if shift == 5 {
        32
    } else if shift == 6 {
        64
    } else {
        128
    }
}

/// Cycles per tick of the free-running timer.
pub fn timer_unit(shift: u32) -> (r: u32)
    ensures
        r == frt_unit(shift as int),
        1 <= r <= 128,
{
    if shift == 0 {
        1
    } else if shift == 1 {
        2
    } else if shift == 2 {
        4
    } else if shift == 3 {
        8
    } else if shift == 4 {
        16
    } else if shift == 5 {
        32
    } else if shift == 6 {
        64
    } else {
        128
    }
}

/// The 16-bit register at an offset, if there is one.
pub open spec fn onchip_reg16(o: Sh2OnChip, off: int) -> Option<u16> {
    if off == 0x060 {
        Some(o.iprb)
    } else if off == 0x062 {
        Some(o.vcra)
    } else if off == 0x064 {
        Some(o.vcrb)
    } else if off == 0x066 {
        Some(o.vcrc)
    } else if off == 0x068 {
        Some(o.vcrd)
    } else if off == 0x0E0 {
        Some(o.icr)
    } else if off == 0x0E2 {
        Some(o.ipra)
    } else if off == 0x0E4 {
        Some(o.vcrwdt)
    } else if off == 0x1E0 || off == 0x1E2 {
        Some(o.bcr1)
    } else if off == 0x1E4 || off == 0x1E6 {
        Some(o.bcr2)
    } else if off == 0x1E8 || off == 0x1EA {
        Some(o.wcr)
    } else if off == 0x1EC || off == 0x1EE {
        Some(o.mcr)
    } else if off == 0x1F0 || off == 0x1F2 {
        Some(o.rtcsr)
    } else if off == 0x1F4 || off == 0x1F6 {
        Some(o.rtcnt)
    } else if off == 0x1F8 || off == 0x1FA {
        Some(o.rtcor)
    } else if off == 0x012 {
        Some(o.frc)
    } else if off == 0x014 {
        Some(
            if o.tocr & 0x10 == 0 {
                o.ocra
            } else {
                o.ocrb
            },
        )
    } else if off == 0x018 {
        Some(o.ficr)
    } else if off == 0x148 {
        Some(o.bbra)
    } else if off == 0x168 {
        Some(o.bbrb)
    } else {
        None
    }
}

/// The division unit's registers appear twice.
pub open spec fn onchip_base(off: int) -> int {
    if 0x120 <= off <= 0x13F {
        off - 0x20
    } else {
        off
    }
}

/// The 32-bit register at an offset, if there is one.
pub open spec fn onchip_reg32(o: Sh2OnChip, off: int) -> Option<u32> {
    let n = onchip_base(off);
    if n == 0x100 {
        Some(o.dvsr)
    } else if n == 0x104 {
        Some(o.dvdntl)
    } else if n == 0x108 {
        Some(o.dvcr)
    } else if n == 0x10C {
        Some(o.vcrdiv)
    } else if n == 0x110 {
        Some(o.dvdnth)
    } else if n == 0x114 {
        Some(o.dvdntl)
    } else if n == 0x118 {
        Some(o.dvdntuh)
    } else if n == 0x11C {
        Some(o.dvdntul)
    } else if n == 0x140 {
        Some(o.bara)
    } else if n == 0x144 {
        Some(o.bamra)
    } else if n == 0x178 {
        Some(o.brcr)
    } else if n == 0x180 {
        Some(o.sar0)
    } else if n == 0x184 {
        Some(o.dar0)
    } else if n == 0x188 {
        Some(o.tcr0)
    } else if n == 0x18C {
        Some(o.chcr0)
    } else if n == 0x190 {
        Some(o.sar1)
    } else if n == 0x194 {
        Some(o.dar1)
    } else if n == 0x198 {
        Some(o.tcr1)
    } else if n == 0x19C {
        Some(o.chcr1)
    } else if n == 0x1A0 {
        Some(o.vcrdma0)
    } else if n == 0x1A8 {
        Some(o.vcrdma1)
    } else if n == 0x1B0 {
        Some(o.dmaor)
    } else {
        None
    }
}

/// The 8-bit register at an offset, if there is one.
pub open spec fn onchip_reg8(o: Sh2OnChip, off: int) -> Option<u8> {
    if off == 0x000 {
        Some(o.smr)
    } else if off == 0x001 {
        Some(o.brr)
    } else if off == 0x002 {
        Some(o.scr)
    } else if off == 0x003 {
        Some(o.tdr)
    } else if off == 0x004 {
        Some(o.ssr)
    } else if off == 0x005 {
        Some(o.rdr)
    } else if off == 0x010 {
        Some(o.tier)
    } else if off == 0x011 {
        Some(o.ftcsr)
    } else if off == 0x016 {
        Some(o.tcr)
    } else if off == 0x017 {
        Some(o.tocr)
    } else if off == 0x071 {
        Some(o.drcr0)
    } else if off == 0x072 {
        Some(o.drcr1)
    } else if off == 0x080 {
        Some(o.wtcsr)
    } else if off == 0x081 {
        Some(o.wtcnt)
    } else if off == 0x083 {
        Some(o.rstcsr)
    } else if off == 0x091 {
        Some(o.sbycr)
    } else if off == 0x092 {
        Some(o.ccr)
    } else {
        None
    }
}

/// A byte read: an 8-bit register, or a byte of a wider one, or 0.
#[verifier::opaque]
pub open spec fn onchip_read8(o: Sh2OnChip, off: int) -> u8 {
    match onchip_reg8(o, off) {
        Some(v) => v,
        None => match onchip_reg16(o, off / 2 * 2) {
            Some(v) => crate::bytes::byte16(v, off % 2),
            None => match onchip_reg32(o, off / 4 * 4) {
                Some(v) => crate::bytes::byte32(v, off % 4),
                None => 0,
            },
        },
    }
}

/// A word read: a 16-bit register, or half of a wider one, or two bytes.
#[verifier::opaque]
pub open spec fn onchip_read16(o: Sh2OnChip, off: int) -> u16 {
    match onchip_reg16(o, off) {
        Some(v) => v,
        None => match onchip_reg32(o, off / 4 * 4) {
            Some(v) => if off / 2 % 2 == 0 {
                (v / 0x1_0000) as u16
            } else {
                (v % 0x1_0000) as u16
            },
            None => be16(onchip_read8(o, off), onchip_read8(o, off + 1)),
        },
    }
}

/// A long word read: a 32-bit register, or two words. The bus state controller's
/// registers pair up.
#[verifier::opaque]
pub open spec fn onchip_read32(o: Sh2OnChip, off: int) -> u32 {
    match onchip_reg32(o, off) {
        Some(v) => v,
        None => if off == 0x1E0 {
            (o.bcr1 * 0x1_0000 + o.bcr2) as u32
        } else if off == 0x1E8 {
            (o.wcr * 0x1_0000 + o.mcr) as u32
        } else if off == 0x1F0 {
            (o.rtcsr * 0x1_0000 + o.rtcnt) as u32
        } else if off == 0x1F8 {
            (o.rtcor * 0x1_0000) as u32
        } else if off == 0x148 {
            (o.bbra * 0x1_0000) as u32
        } else {
            (onchip_read16(o, off) * 0x1_0000 + onchip_read16(o, off + 2)) as u32
        },
    }
}

/// The 16-bit register at an offset, if there is one.
pub fn get_onchip_16(o: &Sh2OnChip, off: usize) -> (r: Option<u16>)
    ensures
        r == onchip_reg16(*o, off as int),
{
    match off {
        0x060 => Some(o.iprb),
        0x062 => Some(o.vcra),
        0x064 => Some(o.vcrb),
        0x066 => Some(o.vcrc),
        0x068 => Some(o.vcrd),
        0x0E0 => Some(o.icr),
        0x0E2 => Some(o.ipra),
        0x0E4 => Some(o.vcrwdt),
        0x1E0 | 0x1E2 => Some(o.bcr1),
        0x1E4 | 0x1E6 => Some(o.bcr2),
        0x1E8 | 0x1EA => Some(o.wcr),
        0x1EC | 0x1EE => Some(o.mcr),
        0x1F0 | 0x1F2 => Some(o.rtcsr),
        0x1F4 | 0x1F6 => Some(o.rtcnt),
        0x1F8 | 0x1FA => Some(o.rtcor),
        0x012 => Some(o.frc),
        0x014 => {
            if o.tocr & 0x10 == 0 {
                Some(o.ocra)
            } else {
                Some(o.ocrb)
            }
        },
        0x018 => Some(o.ficr),
        0x148 => Some(o.bbra),
        0x168 => Some(o.bbrb),
        _ => None,
    }
}

/// The 32-bit register at an offset, if there is one.
pub fn get_onchip_32(o: &Sh2OnChip, off: usize) -> (r: Option<u32>)
    ensures
        r == onchip_reg32(*o, off as int),
{
    let normalized: usize = if off >= 0x120 && off <= 0x13F {
        off - 0x20
    } else {
        off
    };
    match normalized {
        0x100 => Some(o.dvsr),
        0x104 => Some(o.dvdntl),
        0x108 => Some(o.dvcr),
        0x10C => Some(o.vcrdiv),
        0x110 => Some(o.dvdnth),
        0x114 => Some(o.dvdntl),
        0x118 => Some(o.dvdntuh),
        0x11C => Some(o.dvdntul),
        0x140 => Some(o.bara),
        0x144 => Some(o.bamra),
        0x178 => Some(o.brcr),
        0x180 => Some(o.sar0),
        0x184 => Some(o.dar0),
        0x188 => Some(o.tcr0),
        0x18C => Some(o.chcr0),
        0x190 => Some(o.sar1),
        0x194 => Some(o.dar1),
        0x198 => Some(o.tcr1),
        0x19C => Some(o.chcr1),
        0x1A0 => Some(o.vcrdma0),
        0x1A8 => Some(o.vcrdma1),
        0x1B0 => Some(o.dmaor),
        _ => None,
    }
}

/// The 8-bit register at an offset, if there is one.
fn get_onchip_8(o: &Sh2OnChip, off: usize) -> (r: Option<u8>)
    ensures
        r == onchip_reg8(*o, off as int),
{
    match off {
        0x000 => Some(o.smr),
        0x001 => Some(o.brr),
        0x002 => Some(o.scr),
        0x003 => Some(o.tdr),
        0x004 => Some(o.ssr),
        0x005 => Some(o.rdr),
        0x010 => Some(o.tier),
        0x011 => Some(o.ftcsr),
        0x016 => Some(o.tcr),
        0x017 => Some(o.tocr),
        0x071 => Some(o.drcr0),
        0x072 => Some(o.drcr1),
        0x080 => Some(o.wtcsr),
        0x081 => Some(o.wtcnt),
        0x083 => Some(o.rstcsr),
        0x091 => Some(o.sbycr),
        0x092 => Some(o.ccr),
        _ => None,
    }
}

/// Read a byte.
pub fn read_onchip_byte(o: &Sh2OnChip, off: usize) -> (r: u8)
    ensures
        r == onchip_read8(*o, off as int),
{
    reveal(onchip_read8);
    if let Some(v) = get_onchip_8(o, off) {
        return v;
    }
    if let Some(v) = get_onchip_16(o, off / 2 * 2) {
        if off % 2 == 0 {
            (v / 0x100) as u8
        } else {
            (v % 0x100) as u8
        }
    } else if let Some(v) = get_onchip_32(o, off / 4 * 4) {
        let lane: usize = off % 4;
        if lane == 0 {
            (v / 0x100_0000) as u8
        } else if lane == 1 {
            (v / 0x1_0000 % 0x100) as u8
        } else if lane == 2 {
            (v / 0x100 % 0x100) as u8
        } else {
            (v % 0x100) as u8
        }
    } else {
        0
    }
}

/// Read a word.
pub fn read_onchip_word(o: &Sh2OnChip, off: usize) -> (r: u16)
    requires
        off < 0x1000,
    ensures
        r == onchip_read16(*o, off as int),
{
    reveal(onchip_read16);
    if let Some(v) = get_onchip_16(o, off) {
        v
    } else if let Some(v) = get_onchip_32(o, off / 4 * 4) {
        if off / 2 % 2 == 0 {
            (v / 0x1_0000) as u16
        } else {
            (v % 0x1_0000) as u16
        }
    } else {
        from_be16(read_onchip_byte(o, off), read_onchip_byte(o, off + 1))
    }
}

/// Read a long word.
pub fn read_onchip(o: &Sh2OnChip, off: usize) -> (r: u32)
    requires
        off < 0x800,
    ensures
        r == onchip_read32(*o, off as int),
{
    reveal(onchip_read32);
    if let Some(v) = get_onchip_32(o, off) {
        return v;
    }
    match off {
        0x1E0 => (o.bcr1 as u32) * 0x1_0000 + (o.bcr2 as u32),
        0x1E8 => (o.wcr as u32) * 0x1_0000 + (o.mcr as u32),
        0x1F0 => (o.rtcsr as u32) * 0x1_0000 + (o.rtcnt as u32),
        0x1F8 => (o.rtcor as u32) * 0x1_0000,
        0x148 => (o.bbra as u32) * 0x1_0000,
        _ => {
            let w0: u32 = read_onchip_word(o, off) as u32;
            let w1: u32 = read_onchip_word(o, off + 2) as u32;
            w0 * 0x1_0000 + w1
        },
    }
}

} // verus!
