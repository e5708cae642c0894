//! Writing the on-chip registers that have no effect beyond themselves, and the
//! division unit.

use crate::arith::{
    divide, quotient64, s32, to_pattern, to_signed, trunc_div, trunc_rem, wrap32,
};
use crate::sh2::onchip::onchip_base;
use crate::sh2_onchip::Sh2OnChip;
use vstd::prelude::*;

verus! {

/// The on-chip registers after a 32-bit division, and whether it overflowed.
/// Division by zero saturates.
#[verifier::opaque]
pub open spec fn divided32(o: Sh2OnChip, val: u32) -> (Sh2OnChip, bool) {
    if o.dvsr == 0 {
        let l = if s32(val) < 0 {
            0x8000_0000u32
        } else {
            0x7FFF_FFFFu32
        };
        let h = if s32(val) < 0 {
            (0xFFFF_FFFC + val / 0x2000_0000 % 4) as u32
        } else {
            (val / 0x2000_0000) as u32
        };
        (
            Sh2OnChip { dvdntl: l, dvdntul: l, dvdnth: h, dvdntuh: h, dvcr: o.dvcr | 1, ..o },
            true,
        )
    } else {
        let l = wrap32(trunc_div(s32(val), s32(o.dvsr)));
        let h = wrap32(trunc_rem(s32(val), s32(o.dvsr)));
        (Sh2OnChip { dvdntl: l, dvdntul: l, dvdnth: h, dvdntuh: h, ..o }, false)
    }
}

/// The 64-bit dividend whose halves are given.
pub open spec fn dividend64(high: u32, low: u32) -> int {
    s32(high) * 0x1_0000_0000 + low
}

/// The on-chip registers after a division of 64 by 32 bits, and whether it
/// overflowed. A quotient out of range saturates.
#[verifier::opaque]
pub open spec fn divided64(o: Sh2OnChip, val: u32) -> (Sh2OnChip, bool) {
    if o.dvsr == 0 {
        let l = if s32(o.dvdnth) < 0 {
            0x8000_0000u32
        } else {
            0x7FFF_FFFFu32
        };
        let h = wrap32(o.dvdnth * 8);
        (
            Sh2OnChip { dvdntl: l, dvdntul: l, dvdnth: h, dvdntuh: h, dvcr: o.dvcr | 1, ..o },
            true,
        )
    } else {
        let a = dividend64(o.dvdnth, val);
        let q = quotient64(a, s32(o.dvsr));
        if q > 0x7FFF_FFFF || q < -0x1_0000_0000 {
            let l = if q > 0 {
                0x7FFF_FFFFu32
            } else {
                0x8000_0000u32
            };
            let h = 0xFFFF_FFFEu32;
            (
                Sh2OnChip {
                    dvdntl: l,
                    dvdntul: l,
                    dvdnth: h,
                    dvdntuh: h,
                    dvcr: o.dvcr | 1,
                    ..o
                },
                true,
            )
        } else {
            let l = wrap32(q);
            let h = wrap32(trunc_rem(a, s32(o.dvsr)));
            (Sh2OnChip { dvdntl: l, dvdntul: l, dvdnth: h, dvdntuh: h, ..o }, false)
        }
    }
}

/// Start a 32-bit division. Returns whether it overflowed.
pub fn divide_32(o: &mut Sh2OnChip, val: u32) -> (r: bool)
    ensures
        (*final(o), r) == divided32(*old(o), val),
{
    reveal(divided32);
    let dividend: i64 = to_signed(val);
    if o.dvsr == 0 {
        let (l, h): (u32, u32) = if dividend < 0 {
            (0x8000_0000, 0xFFFF_FFFC + val / 0x2000_0000 % 4)
        } else {
            (0x7FFF_FFFF, val / 0x2000_0000)
        };
        o.dvdntl = l;
        o.dvdntul = l;
        o.dvdnth = h;
        o.dvdntuh = h;
        o.dvcr = o.dvcr | 1;
        true
    } else {
        let (quotient, remainder): (i64, i64) = divide(dividend, to_signed(o.dvsr));
        let l: u32 = to_pattern(quotient);
        let h: u32 = to_pattern(remainder);
        o.dvdntl = l;
        o.dvdntul = l;
        o.dvdnth = h;
        o.dvdntuh = h;
        false
    }
}

/// Start a division of 64 by 32 bits. Returns whether it overflowed.
pub fn divide_64(o: &mut Sh2OnChip, val: u32) -> (r: bool)
    ensures
        (*final(o), r) == divided64(*old(o), val),
{
    reveal(divided64);
    let high: i64 = to_signed(o.dvdnth);
    if o.dvsr == 0 {
        let l: u32 = if high < 0 {
            0x8000_0000
        } else {
            0x7FFF_FFFF
        };
        let h: u32 = (o.dvdnth as u64 * 8 % 0x1_0000_0000) as u32;
        o.dvdntl = l;
        o.dvdntul = l;
        o.dvdnth = h;
        o.dvdntuh = h;
        o.dvcr = o.dvcr | 1;
        return true;
    }
    let dividend: i64 = high * 0x1_0000_0000 + val as i64;
    let (quotient, remainder): (i64, i64) = divide(dividend, to_signed(o.dvsr));
    if quotient > 0x7FFF_FFFF || quotient < -0x1_0000_0000 {
        let l: u32 = if quotient > 0 {
            0x7FFF_FFFF
        } else {
            0x8000_0000
        };
        o.dvdntl = l;
        o.dvdntul = l;
        o.dvdnth = 0xFFFF_FFFE;
        o.dvdntuh = 0xFFFF_FFFE;
        o.dvcr = o.dvcr | 1;
        true
    } else {
        let l: u32 = to_pattern(quotient);
        let h: u32 = to_pattern(remainder);
        o.dvdntl = l;
        o.dvdntul = l;
        o.dvdnth = h;
        o.dvdntuh = h;
        false
    }
}

/// Whether a word write to this offset reaches a 16-bit register.
pub open spec fn is_word_reg(off: int) -> bool {
    onchip_word_reg_list(off) || (0x1E0 <= off <= 0x1FA && off % 2 == 0)
}

/// The 16-bit registers outside the bus state controller.
pub open spec fn onchip_word_reg_list(off: int) -> bool {
    off == 0x060 || off == 0x062 || off == 0x064 || off == 0x066 || off == 0x068 || off == 0x0E0
        || off == 0x0E2 || off == 0x0E4 || off == 0x0E5 || off == 0x012 || off == 0x014 || off
        == 0x018 || off == 0x148 || off == 0x168
}

/// The registers after a word write to a 16-bit register. FICR is read-only, and
/// the bus state controller ignores words.
#[verifier::opaque]
pub open spec fn onchip_put16(o: Sh2OnChip, off: int, val: u16) -> Sh2OnChip {
    if off == 0x060 {
        Sh2OnChip { iprb: val & 0xFF00, ..o }
    } else if off == 0x062 {
        Sh2OnChip { vcra: val & 0x7F7F, ..o }
    } else if off == 0x064 {
        Sh2OnChip { vcrb: val & 0x7F7F, ..o }
    } else if off == 0x066 {
        Sh2OnChip { vcrc: val & 0x7F7F, ..o }
    } else if off == 0x068 {
        Sh2OnChip { vcrd: val & 0x7F7F, ..o }
    } else if off == 0x0E0 {
        Sh2OnChip { icr: val & 0x0101, ..o }
    } else if off == 0x0E2 {
        Sh2OnChip { ipra: val & 0xFFF0, ..o }
    } else if off == 0x0E4 || off == 0x0E5 {
        Sh2OnChip { vcrwdt: val & 0x7F7F, ..o }
    } else if off == 0x012 {
        Sh2OnChip { frc: val, ..o }
    } else if off == 0x014 {
        if o.tocr & 0x10 == 0 {
            Sh2OnChip { ocra: val, ..o }
        } else {
            Sh2OnChip { ocrb: val, ..o }
        }
    } else if off == 0x148 {
        Sh2OnChip { bbra: val, ..o }
    } else if off == 0x168 {
        Sh2OnChip { bbrb: val, ..o }
    } else {
        o
    }
}

/// Write a 16-bit register.
#[verifier::rlimit(40)]
pub fn put_onchip_16(o: &mut Sh2OnChip, off: usize, val: u16)
    ensures
        *final(o) == onchip_put16(*old(o), off as int, val),
{
    reveal(onchip_put16);
    match off {
        0x060 => o.iprb = val & 0xFF00,
        0x062 => o.vcra = val & 0x7F7F,
        0x064 => o.vcrb = val & 0x7F7F,
        0x066 => o.vcrc = val & 0x7F7F,
        0x068 => o.vcrd = val & 0x7F7F,
        0x0E0 => o.icr = val & 0x0101,
        0x0E2 => o.ipra = val & 0xFFF0,
        0x0E4 | 0x0E5 => o.vcrwdt = val & 0x7F7F,
        0x012 => o.frc = val,
        0x014 => {
            if o.tocr & 0x10 == 0 {
                o.ocra = val;
            } else {
                o.ocrb = val;
            }
        },
        0x148 => o.bbra = val,
        0x168 => o.bbrb = val,
        _ => {},
    }
}

/// Whether a long word write to this offset reaches a 32-bit register or a pair
/// of the bus state controller.
pub open spec fn is_long_reg(off: int) -> bool {
    (0x100 <= off <= 0x13C && off % 4 == 0) || off == 0x140 || off == 0x144 || off == 0x148
        || off == 0x178 || (0x180 <= off <= 0x19C && off % 4 == 0) || off == 0x1A0 || off == 0x1A8
        || off == 0x1B0 || off == 0x1E0 || off == 0x1E8 || off == 0x1F0 || off == 0x1F8
}

/// The registers after a long word write to a register that just stores.
#[verifier::opaque]
pub open spec fn onchip_set32(o: Sh2OnChip, off: int, val: u32) -> Sh2OnChip {
    let n = onchip_base(off);
    if n == 0x100 {
        Sh2OnChip { dvsr: val, ..o }
    } else if n == 0x108 {
        Sh2OnChip { dvcr: val & 3, ..o }
    } else if n == 0x10C {
        Sh2OnChip { vcrdiv: val & 0xFFFF, ..o }
    } else if n == 0x110 {
        Sh2OnChip { dvdnth: val, ..o }
    } else if n == 0x118 {
        Sh2OnChip { dvdntuh: val, ..o }
    } else if n == 0x11C {
        Sh2OnChip { dvdntul: val, ..o }
    } else if n == 0x1E0 {
        Sh2OnChip {
            bcr1: (o.bcr1 & 0x8000) | (((val >> 16) & 0x1FF7) as u16),
            bcr2: (val & 0xFC) as u16,
            ..o
        }
    } else if n == 0x1E8 {
        Sh2OnChip { wcr: (val >> 16) as u16, mcr: (val & 0xFEFC) as u16, ..o }
    } else if n == 0x1F0 {
        Sh2OnChip { rtcsr: ((val >> 16) & 0xF8) as u16, ..o }
    } else if n == 0x1F8 {
        Sh2OnChip { rtcor: ((val >> 16) & 0xFF) as u16, ..o }
    } else if n == 0x140 {
        Sh2OnChip { bara: val, ..o }
    } else if n == 0x144 {
        Sh2OnChip { bamra: val, ..o }
    } else if n == 0x148 {
        Sh2OnChip { bbra: (val >> 16) as u16, ..o }
    } else if n == 0x178 {
        Sh2OnChip { brcr: val, ..o }
    } else if n == 0x180 {
        Sh2OnChip { sar0: val, ..o }
    } else if n == 0x184 {
        Sh2OnChip { dar0: val, ..o }
    } else if n == 0x188 {
        Sh2OnChip { tcr0: val & 0xFF_FFFF, ..o }
    } else if n == 0x190 {
        Sh2OnChip { sar1: val, ..o }
    } else if n == 0x194 {
        Sh2OnChip { dar1: val, ..o }
    } else if n == 0x198 {
        Sh2OnChip { tcr1: val & 0xFF_FFFF, ..o }
    } else if n == 0x1A0 {
        Sh2OnChip { vcrdma0: val & 0xFFFF, ..o }
    } else if n == 0x1A8 {
        Sh2OnChip { vcrdma1: val & 0xFFFF, ..o }
    } else {
        o
    }
}

/// Write a 32-bit register that just stores.
#[verifier::rlimit(60)]
pub fn set_onchip_32(o: &mut Sh2OnChip, off: usize, val: u32)
    ensures
        *final(o) == onchip_set32(*old(o), off as int, val),
{
    reveal(onchip_set32);
    let n: usize = if off >= 0x120 && off <= 0x13F {
        off - 0x20
    } else {
        off
    };
    match n {
        0x100 => o.dvsr = val,
        0x108 => o.dvcr = val & 3,
        0x10C => o.vcrdiv = val & 0xFFFF,
        0x110 => o.dvdnth = val,
        0x118 => o.dvdntuh = val,
        0x11C => o.dvdntul = val,
        0x1E0 => {
            o.bcr1 = (o.bcr1 & 0x8000) | (((val >> 16) & 0x1FF7) as u16);
            o.bcr2 = (val & 0xFC) as u16;
        },
        0x1E8 => {
            o.wcr = (val >> 16) as u16;
            o.mcr = (val & 0xFEFC) as u16;
        },
        0x1F0 => o.rtcsr = ((val >> 16) & 0xF8) as u16,
        0x1F8 => o.rtcor = ((val >> 16) & 0xFF) as u16,
        0x140 => o.bara = val,
        0x144 => o.bamra = val,
        0x148 => o.bbra = (val >> 16) as u16,
        0x178 => o.brcr = val,
        0x180 => o.sar0 = val,
        0x184 => o.dar0 = val,
        0x188 => o.tcr0 = val & 0xFF_FFFF,
        0x190 => o.sar1 = val,
        0x194 => o.dar1 = val,
        0x198 => o.tcr1 = val & 0xFF_FFFF,
        0x1A0 => o.vcrdma0 = val & 0xFFFF,
        0x1A8 => o.vcrdma1 = val & 0xFFFF,
        _ => {},
    }
}

/// Whether a byte write to this offset reaches a register of its own.
pub open spec fn is_byte_reg(off: int) -> bool {
    (0 <= off <= 5) || off == 0x010 || off == 0x011 || off == 0x016 || off == 0x017 || off == 0x060
        || off == 0x061 || off == 0x068 || off == 0x069 || off == 0x071 || off == 0x072 || off
        == 0x080 || off == 0x081 || off == 0x083 || off == 0x091 || off == 0x092
}

/// The registers after a byte write to such a register. RDR is read-only; IPRB and
/// VCRD lose their low byte and ignore writes to it.
#[verifier::opaque]
pub open spec fn onchip_put8(o: Sh2OnChip, off: int, val: u8) -> Sh2OnChip {
    if off == 0x000 {
        Sh2OnChip { smr: val, ..o }
    } else if off == 0x001 {
        Sh2OnChip { brr: val, ..o }
    } else if off == 0x002 {
        Sh2OnChip {
            scr: val,
            ssr: if val & 0x20 == 0 {
                o.ssr | 0x80
            } else {
                o.ssr
            },
            ..o
        }
    } else if off == 0x003 {
        Sh2OnChip { tdr: val, ..o }
    } else if off == 0x004 {
        Sh2OnChip { ssr: val, ..o }
    } else if off == 0x010 {
        Sh2OnChip { tier: (val & 0x8E) | 0x01, ..o }
    } else if off == 0x011 {
        Sh2OnChip { ftcsr: (o.ftcsr & (val & 0xFE)) | (val & 0x01), ..o }
    } else if off == 0x016 {
        Sh2OnChip { tcr: val & 0x83, ..o }
    } else if off == 0x017 {
        Sh2OnChip { tocr: 0xE0 | (val & 0x13), ..o }
    } else if off == 0x060 {
        Sh2OnChip { iprb: (val * 0x100) as u16, ..o }
    } else if off == 0x068 {
        Sh2OnChip { vcrd: (val % 0x80 * 0x100) as u16, ..o }
    } else if off == 0x071 {
        Sh2OnChip { drcr0: val & 0x3, ..o }
    } else if off == 0x072 {
        Sh2OnChip { drcr1: val & 0x3, ..o }
    } else if off == 0x080 {
        Sh2OnChip { wtcsr: val, ..o }
    } else if off == 0x081 {
        Sh2OnChip { wtcnt: val, ..o }
    } else if off == 0x083 {
        Sh2OnChip { rstcsr: val, ..o }
    } else if off == 0x091 {
        Sh2OnChip { sbycr: val & 0xDF, ..o }
    } else if off == 0x092 {
        Sh2OnChip { ccr: val & 0xCF, ..o }
    } else {
        o
    }
}

/// Write an 8-bit register.
#[verifier::rlimit(60)]
pub fn put_onchip_8(o: &mut Sh2OnChip, off: usize, val: u8)
    ensures
        *final(o) == onchip_put8(*old(o), off as int, val),
{
    reveal(onchip_put8);
    match off {
        0x000 => o.smr = val,
        0x001 => o.brr = val,
        0x002 => {
            o.scr = val;
            if val & 0x20 == 0 {
                o.ssr = o.ssr | 0x80;
            }
        },
        0x003 => o.tdr = val,
        0x004 => o.ssr = val,
        0x010 => o.tier = (val & 0x8E) | 0x01,
        0x011 => o.ftcsr = (o.ftcsr & (val & 0xFE)) | (val & 0x01),
        0x016 => o.tcr = val & 0x83,
        0x017 => o.tocr = 0xE0 | (val & 0x13),
        0x060 => o.iprb = (val as u16) * 0x100,
        0x068 => o.vcrd = (val as u16) % 0x80 * 0x100,
        0x071 => o.drcr0 = val & 0x3,
        0x072 => o.drcr1 = val & 0x3,
        0x080 => o.wtcsr = val,
        0x081 => o.wtcnt = val,
        0x083 => o.rstcsr = val,
        0x091 => o.sbycr = val & 0xDF,
        0x092 => o.ccr = val & 0xCF,
        _ => {},
    }
}

} // verus!
