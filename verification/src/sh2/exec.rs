//! The instructions of the SH-2, grouped by the top nibble of the opcode.

use crate::sh2::alu::{
    accumulate_long, accumulate_word, add_carry, addc, addv, branch_target, div_step, divide_step,
    doubled_is_even, extend_byte, extend_word, high32, mac_long, mac_word, multiply_signed,
    multiply_unsigned, multiply_words, multiply_words_unsigned, overflows32, s16, sext16, sext8,
    sign_extend8, signed_disp, sr_has, sub_borrow, subc, subv, target_of, SR_M, SR_Q, SR_S, SR_T,
    SR_WRITE_MASK,
};
use crate::sh2::bus::{after_read8, bus_granted, load16, load32, load8, read8, BusView};
use crate::arith::{s32, to_signed, wrap32};
use crate::sh2::region::region_of;
use crate::sh2::store::{store32, write8, NESTING_LIMIT};
use crate::sh2::{ld16, ld32, ld8, st16, st32, st8, Machine, Sh2};
use vstd::prelude::*;

verus! {

/// The fields of an opcode.
pub open spec fn op_n(op: u16) -> int {
    op as int / 0x100 % 16
}

pub open spec fn op_m(op: u16) -> int {
    op as int / 0x10 % 16
}

pub open spec fn op_d4(op: u16) -> int {
    op as int % 0x10
}

pub open spec fn op_d8(op: u16) -> int {
    op as int % 0x100
}

/// An exception: the status register and the address to return to go on the
/// stack, and execution continues at the vector's address.
#[verifier::opaque]
pub open spec fn entered(m: Machine, vector: int, sr: u32) -> Machine {
    let sr_addr = m.r[15].wrapping_sub(4);
    let pc_addr = sr_addr.wrapping_sub(4);
    let b = store32(store32(m.bus, sr_addr, m.sr), pc_addr, m.pc);
    let (b1, target) = load32(b, m.vbr.wrapping_add((vector * 4) as u32));
    Machine { r: m.r.update(15, pc_addr), sr, pc: target, bus: b1, ..m }
}

/// An opcode that is no instruction raises exception 4.
pub open spec fn illegal(m: Machine) -> Machine {
    let m1 = entered(m, 4, m.sr);
    Machine {
        illegal: true,
        bus: BusView { cycles: m1.bus.cycles.wrapping_add(1), ..m1.bus },
        ..m1
    }
}

/// Opcodes 0xxx.
#[verifier::opaque]
pub open spec fn group0(m: Machine, op: u16) -> Machine {
    let n = op_n(op);
    let rm = m.r[op_m(op)];
    let d8 = op_d8(op);
    let d4 = op_d4(op);
    if d8 == 0x09 {
        m
    } else if d8 == 0x18 {
        m.with_t(true)
    } else if d8 == 0x08 {
        m.with_t(false)
    } else if d8 == 0x19 {
        // DIV0U
        Machine { sr: m.sr & !(SR_T | SR_M | SR_Q), ..m }
    } else if d8 == 0x28 {
        // CLRMAC
        Machine { mach: 0, macl: 0, ..m }
    } else if d8 == 0x1B {
        // SLEEP stays where it is.
        Machine { pc: m.pc.wrapping_sub(2), ..m }
    } else if d8 == 0x02 {
        m.with_r(n, m.sr)
    } else if d8 == 0x12 {
        m.with_r(n, m.gbr)
    } else if d8 == 0x22 {
        m.with_r(n, m.vbr)
    } else if d8 == 0x0A {
        m.with_r(n, m.mach)
    } else if d8 == 0x1A {
        m.with_r(n, m.macl)
    } else if d8 == 0x2A {
        m.with_r(n, m.pr)
    } else if d8 == 0x29 {
        // MOVT
        m.with_r(
            n,
            if m.t() {
                1
            } else {
                0
            },
        )
    } else if d4 == 0x4 {
        st8(m, m.r[0].wrapping_add(m.r[n]), rm)
    } else if d4 == 0x5 {
        st16(m, m.r[0].wrapping_add(m.r[n]), rm)
    } else if d4 == 0x6 {
        st32(m, m.r[0].wrapping_add(m.r[n]), rm)
    } else if d4 == 0x7 {
        // MUL.L
        Machine { macl: m.r[n].wrapping_mul(rm), ..m }
    } else if d4 == 0xC {
        ld8(m, n, m.r[0].wrapping_add(rm))
    } else if d4 == 0xD {
        ld16(m, n, m.r[0].wrapping_add(rm))
    } else if d4 == 0xE {
        ld32(m, n, m.r[0].wrapping_add(rm))
    } else if d4 == 0xF {
        mac_l(m, n, op_m(op))
    } else {
        illegal(m)
    }
}

/// MAC.L @Rm+,@Rn+
#[verifier::opaque]
pub open spec fn mac_l(m: Machine, n: int, k: int) -> Machine {
    let (b1, val_n) = load32(m.bus, m.r[n]);
    let r1 = m.r.update(n, m.r[n].wrapping_add(4));
    let (b2, val_m) = load32(b1, r1[k]);
    let r2 = r1.update(k, r1[k].wrapping_add(4));
    let (h, l) = mac_long(m.mach, m.macl, val_n, val_m, sr_has(m.sr, SR_S));
    Machine { r: r2, mach: h, macl: l, bus: b2, ..m }
}

/// MAC.W @Rm+,@Rn+
#[verifier::opaque]
pub open spec fn mac_w(m: Machine, n: int, k: int) -> Machine {
    let (b1, val_m) = load16(m.bus, m.r[k]);
    let r1 = m.r.update(k, m.r[k].wrapping_add(2));
    let (b2, val_n) = load16(b1, r1[n]);
    let r2 = r1.update(n, r1[n].wrapping_add(2));
    let (h, l) = mac_word(m.mach, m.macl, val_m, val_n, sr_has(m.sr, SR_S));
    Machine { r: r2, mach: h, macl: l, bus: b2, ..m }
}

/// Whether two registers share a byte.
pub open spec fn any_byte_equal(a: u32, b: u32) -> bool {
    a % 0x100 == b % 0x100 || a / 0x100 % 0x100 == b / 0x100 % 0x100 || a / 0x1_0000 % 0x100 == b
        / 0x1_0000 % 0x100 || a / 0x100_0000 == b / 0x100_0000
}

/// Opcodes 2xxx.
#[verifier::opaque]
pub open spec fn group2(m: Machine, op: u16) -> Machine {
    let n = op_n(op);
    let rn = m.r[n];
    let rm = m.r[op_m(op)];
    let d4 = op_d4(op);
    if d4 == 0x0 {
        st8(m, rn, rm)
    } else if d4 == 0x1 {
        st16(m, rn, rm)
    } else if d4 == 0x2 {
        st32(m, rn, rm)
    } else if d4 == 0x4 {
        st8(m, rn.wrapping_sub(1), rm).with_r(n, rn.wrapping_sub(1))
    } else if d4 == 0x5 {
        st16(m, rn.wrapping_sub(2), rm).with_r(n, rn.wrapping_sub(2))
    } else if d4 == 0x6 {
        st32(m, rn.wrapping_sub(4), rm).with_r(n, rn.wrapping_sub(4))
    } else if d4 == 0x7 {
        // DIV0S
        m.with_flag(SR_Q, rn >= 0x8000_0000).with_flag(SR_M, rm >= 0x8000_0000).with_t(
            (rn >= 0x8000_0000) != (rm >= 0x8000_0000),
        )
    } else if d4 == 0x8 {
        m.with_t(rn & rm == 0)
    } else if d4 == 0x9 {
        m.with_r(n, rn & rm)
    } else if d4 == 0xA {
        m.with_r(n, rn ^ rm)
    } else if d4 == 0xB {
        m.with_r(n, rn | rm)
    } else if d4 == 0xC {
        // CMP/STR
        m.with_t(any_byte_equal(rn, rm))
    } else if d4 == 0xD {
        // XTRCT
        m.with_r(n, (rn / 0x1_0000 + rm % 0x1_0000 * 0x1_0000) as u32)
    } else if d4 == 0xE {
        // MULU.W
        Machine { macl: wrap32((rn % 0x1_0000) * (rm % 0x1_0000)), ..m }
    } else if d4 == 0xF {
        // MULS.W
        Machine { macl: wrap32(s16(rn) * s16(rm)), ..m }
    } else {
        illegal(m)
    }
}

/// Opcodes 3xxx.
#[verifier::opaque]
pub open spec fn group3(m: Machine, op: u16) -> Machine {
    let n = op_n(op);
    let rn = m.r[n];
    let rm = m.r[op_m(op)];
    let d4 = op_d4(op);
    if d4 == 0x0 {
        m.with_t(rn == rm)
    } else if d4 == 0x2 {
        m.with_t(rn >= rm)
    } else if d4 == 0x3 {
        m.with_t(s32(rn) >= s32(rm))
    } else if d4 == 0x4 {
        // DIV1
        let (r, sr) = div_step(rn, rm, m.sr);
        Machine { r: m.r.update(n, r), sr, ..m }
    } else if d4 == 0x5 {
        // DMULU.L
        Machine { mach: high32(rn * rm), macl: wrap32(rn * rm), ..m }
    } else if d4 == 0x6 {
        m.with_t(rn > rm)
    } else if d4 == 0x7 {
        m.with_t(s32(rn) > s32(rm))
    } else if d4 == 0x8 {
        m.with_r(n, rn.wrapping_sub(rm))
    } else if d4 == 0xA {
        // SUBC
        let (r, c) = sub_borrow(rn, rm, m.t());
        m.with_r(n, r).with_t(c)
    } else if d4 == 0xB {
        // SUBV
        m.with_r(n, wrap32(s32(rn) - s32(rm))).with_t(overflows32(s32(rn) - s32(rm)))
    } else if d4 == 0xC {
        m.with_r(n, rn.wrapping_add(rm))
    } else if d4 == 0xD {
        // DMULS.L
        Machine { mach: high32(s32(rn) * s32(rm)), macl: wrap32(s32(rn) * s32(rm)), ..m }
    } else if d4 == 0xE {
        // ADDC
        let (r, c) = add_carry(rn, rm, m.t());
        m.with_r(n, r).with_t(c)
    } else if d4 == 0xF {
        // ADDV
        m.with_r(n, wrap32(s32(rn) + s32(rm))).with_t(overflows32(s32(rn) + s32(rm)))
    } else {
        illegal(m)
    }
}

/// Test and set: T tells whether the byte was 0, and its top bit is set.
#[verifier::opaque]
pub open spec fn tas(m: Machine, a: u32) -> Machine {
    let b = bus_granted(m.bus);
    let v = read8(b, region_of(a));
    Machine {
        bus: write8(after_read8(b, region_of(a)), a, v | 0x80, NESTING_LIMIT as nat),
        ..m
    }.with_t(v == 0)
}

/// Shifts and rotations, which leave the bit they push out in T.
pub open spec fn shifted(m: Machine, d8: int, n: int) -> Machine {
    let rn = m.r[n];
    let carry = if m.t() {
        1int
    } else {
        0
    };
    if d8 == 0x00 || d8 == 0x20 {
        // SHLL, SHAL
        m.with_r(n, rn.wrapping_mul(2)).with_t(rn >= 0x8000_0000)
    } else if d8 == 0x01 {
        // SHLR
        m.with_r(n, rn / 2).with_t(rn % 2 == 1)
    } else if d8 == 0x04 {
        // ROTL
        m.with_r(n, (rn.wrapping_mul(2) + rn / 0x8000_0000) as u32).with_t(rn >= 0x8000_0000)
    } else if d8 == 0x05 {
        // ROTR
        m.with_r(n, (rn / 2 + rn % 2 * 0x8000_0000) as u32).with_t(rn % 2 == 1)
    } else if d8 == 0x21 {
        // SHAR
        m.with_r(n, wrap32(s32(rn) / 2)).with_t(rn % 2 == 1)
    } else if d8 == 0x24 {
        // ROTCL
        m.with_r(n, (rn.wrapping_mul(2) + carry) as u32).with_t(rn >= 0x8000_0000)
    } else {
        // ROTCR
        m.with_r(n, (rn / 2 + carry * 0x8000_0000) as u32).with_t(rn % 2 == 1)
    }
}

/// Opcodes 4xxx that work on registers.
#[verifier::opaque]
pub open spec fn group4_regs(m: Machine, op: u16) -> Machine {
    let n = op_n(op);
    let rn = m.r[n];
    let d8 = op_d8(op);
    if d8 == 0x00 || d8 == 0x20 || d8 == 0x01 || d8 == 0x04 || d8 == 0x05 || d8 == 0x21 || d8
        == 0x24 || d8 == 0x25 {
        shifted(m, d8, n)
    } else if d8 == 0x08 {
        m.with_r(n, rn.wrapping_mul(4))
    } else if d8 == 0x09 {
        m.with_r(n, rn / 4)
    } else if d8 == 0x18 {
        m.with_r(n, rn.wrapping_mul(0x100))
    } else if d8 == 0x19 {
        m.with_r(n, rn / 0x100)
    } else if d8 == 0x28 {
        m.with_r(n, rn.wrapping_mul(0x1_0000))
    } else if d8 == 0x29 {
        m.with_r(n, rn / 0x1_0000)
    } else if d8 == 0x10 {
        // DT
        m.with_r(n, rn.wrapping_sub(1)).with_t(rn.wrapping_sub(1) == 0)
    } else if d8 == 0x11 {
        m.with_t(s32(rn) >= 0)
    } else if d8 == 0x15 {
        m.with_t(s32(rn) > 0)
    } else if d8 == 0x0E {
        Machine { sr: rn & SR_WRITE_MASK, ..m }
    } else if d8 == 0x1E {
        Machine { gbr: rn, ..m }
    } else if d8 == 0x2E {
        Machine { vbr: rn, ..m }
    } else if d8 == 0x0A {
        Machine { mach: rn, ..m }
    } else if d8 == 0x1A {
        Machine { macl: rn, ..m }
    } else {
        // 0x2A
        Machine { pr: rn, ..m }
    }
}

/// Whether an opcode 4xxx works on registers only.
pub open spec fn is_group4_regs(d8: int) -> bool {
    d8 == 0x00 || d8 == 0x20 || d8 == 0x01 || d8 == 0x04 || d8 == 0x05 || d8 == 0x21 || d8 == 0x24
        || d8 == 0x25 || d8 == 0x08 || d8 == 0x09 || d8 == 0x18 || d8 == 0x19 || d8 == 0x28 || d8
        == 0x29 || d8 == 0x10 || d8 == 0x11 || d8 == 0x15 || d8 == 0x0E || d8 == 0x1E || d8 == 0x2E
        || d8 == 0x0A || d8 == 0x1A || d8 == 0x2A
}

/// Opcodes 4xxx that reach memory.
#[verifier::opaque]
pub open spec fn group4_mem(m: Machine, op: u16) -> Machine {
    let n = op_n(op);
    let rn = m.r[n];
    let d8 = op_d8(op);
    let down = rn.wrapping_sub(4);
    let (b, v) = load32(m.bus, rn);
    let popped = Machine { bus: b, r: m.r.update(n, rn.wrapping_add(4)), ..m };
    if d8 == 0x1B {
        tas(m, rn)
    } else if d8 == 0x06 {
        Machine { mach: v, ..popped }
    } else if d8 == 0x16 {
        Machine { macl: v, ..popped }
    } else if d8 == 0x26 {
        Machine { pr: v, ..popped }
    } else if d8 == 0x07 {
        Machine { sr: v & SR_WRITE_MASK, ..popped }
    } else if d8 == 0x17 {
        Machine { gbr: v, ..popped }
    } else if d8 == 0x27 {
        Machine { vbr: v, ..popped }
    } else if d8 == 0x02 {
        st32(m, down, m.mach).with_r(n, down)
    } else if d8 == 0x12 {
        st32(m, down, m.macl).with_r(n, down)
    } else if d8 == 0x22 {
        st32(m, down, m.pr).with_r(n, down)
    } else if d8 == 0x03 {
        st32(m, down, m.sr).with_r(n, down)
    } else if d8 == 0x13 {
        st32(m, down, m.gbr).with_r(n, down)
    } else if d8 == 0x23 {
        st32(m, down, m.vbr).with_r(n, down)
    } else if op_d4(op) == 0xF {
        mac_w(m, n, op_m(op))
    } else {
        illegal(m)
    }
}

/// Opcodes 6xxx.
#[verifier::opaque]
pub open spec fn group6(m: Machine, op: u16) -> Machine {
    let n = op_n(op);
    let k = op_m(op);
    let rm = m.r[k];
    let d4 = op_d4(op);
    if d4 == 0x0 {
        ld8(m, n, rm)
    } else if d4 == 0x1 {
        ld16(m, n, rm)
    } else if d4 == 0x2 {
        ld32(m, n, rm)
    } else if d4 == 0x3 {
        m.with_r(n, rm)
    } else if d4 == 0x4 {
        let m1 = ld8(m, n, rm);
        if n != k {
            m1.with_r(k, rm.wrapping_add(1))
        } else {
            m1
        }
    } else if d4 == 0x5 {
        let m1 = ld16(m, n, rm);
        if n != k {
            m1.with_r(k, rm.wrapping_add(2))
        } else {
            m1
        }
    } else if d4 == 0x6 {
        let m1 = ld32(m, n, rm);
        if n != k {
            m1.with_r(k, rm.wrapping_add(4))
        } else {
            m1
        }
    } else if d4 == 0x7 {
        m.with_r(n, !rm)
    } else if d4 == 0x8 {
        // SWAP.B
        m.with_r(n, (rm / 0x1_0000 * 0x1_0000 + rm % 0x100 * 0x100 + rm / 0x100 % 0x100) as u32)
    } else if d4 == 0x9 {
        // SWAP.W
        m.with_r(n, (rm % 0x1_0000 * 0x1_0000 + rm / 0x1_0000) as u32)
    } else if d4 == 0xA {
        // NEGC
        let (r, c) = sub_borrow(0, rm, m.t());
        m.with_r(n, r).with_t(c)
    } else if d4 == 0xB {
        m.with_r(n, 0u32.wrapping_sub(rm))
    } else if d4 == 0xC {
        m.with_r(n, rm % 0x100)
    } else if d4 == 0xD {
        m.with_r(n, rm % 0x1_0000)
    } else if d4 == 0xE {
        m.with_r(n, sext8((rm % 0x100) as u8))
    } else {
        m.with_r(n, sext16((rm % 0x1_0000) as u16))
    }
}

/// Opcodes 8xxx.
#[verifier::opaque]
pub open spec fn group8(m: Machine, op: u16) -> Machine {
    let sub = op_n(op);
    let rm = m.r[op_m(op)];
    let d4 = op_d4(op);
    let d8 = op_d8(op);
    if sub == 0x0 {
        st8(m, rm.wrapping_add(d4 as u32), m.r[0])
    } else if sub == 0x1 {
        st16(m, rm.wrapping_add((d4 * 2) as u32), m.r[0])
    } else if sub == 0x4 {
        ld8(m, 0, rm.wrapping_add(d4 as u32))
    } else if sub == 0x5 {
        ld16(m, 0, rm.wrapping_add((d4 * 2) as u32))
    } else if sub == 0x8 {
        // CMP/EQ #imm,R0
        m.with_t(m.r[0] == sext8(d8 as u8))
    } else if sub == 0x9 {
        // BT
        if m.t() {
            Machine { pc: branch_target(m.pc, signed_disp(d8, 0x80)), ..m }
        } else {
            m
        }
    } else if sub == 0xB {
        // BF
        if !m.t() {
            Machine { pc: branch_target(m.pc, signed_disp(d8, 0x80)), ..m }
        } else {
            m
        }
    } else if sub == 0xD || sub == 0xF {
        // BT/S and BF/S that are not taken
        m
    } else {
        illegal(m)
    }
}

/// A byte in memory combined with an immediate value.
pub open spec fn byte_op(m: Machine, a: u32, kind: int, imm: u8) -> Machine {
    let (b, v) = load8(m.bus, a);
    let m1 = Machine { bus: b, ..m };
    if kind == 0 {
        m1.with_t(v & imm == 0)
    } else if kind == 1 {
        Machine { bus: crate::sh2::store::store8(b, a, v & imm), ..m }
    } else if kind == 2 {
        Machine { bus: crate::sh2::store::store8(b, a, v ^ imm), ..m }
    } else {
        Machine { bus: crate::sh2::store::store8(b, a, v | imm), ..m }
    }
}

/// Opcodes Cxxx.
#[verifier::opaque]
pub open spec fn group_c(m: Machine, op: u16) -> Machine {
    let sub = op_n(op);
    let d8 = op_d8(op);
    let imm = d8 as u32;
    let r0 = m.r[0];
    if sub == 0x0 {
        st8(m, m.gbr.wrapping_add(imm), r0)
    } else if sub == 0x1 {
        st16(m, m.gbr.wrapping_add((d8 * 2) as u32), r0)
    } else if sub == 0x2 {
        st32(m, m.gbr.wrapping_add((d8 * 4) as u32), r0)
    } else if sub == 0x3 {
        // TRAPA
        entered(m, d8, m.sr)
    } else if sub == 0x4 {
        ld8(m, 0, m.gbr.wrapping_add(imm))
    } else if sub == 0x5 {
        ld16(m, 0, m.gbr.wrapping_add((d8 * 2) as u32))
    } else if sub == 0x6 {
        ld32(m, 0, m.gbr.wrapping_add((d8 * 4) as u32))
    } else if sub == 0x7 {
        // MOVA
        m.with_r(0, long_base(m.pc).wrapping_add((d8 * 4) as u32))
    } else if sub == 0x8 {
        m.with_t(r0 & imm == 0)
    } else if sub == 0x9 {
        m.with_r(0, r0 & imm)
    } else if sub == 0xA {
        m.with_r(0, r0 ^ imm)
    } else if sub == 0xB {
        m.with_r(0, r0 | imm)
    } else {
        byte_op(m, m.gbr.wrapping_add(r0), sub - 0xC, d8 as u8)
    }
}

/// Where word loads relative to the program counter count from.
pub open spec fn word_base(pc: u32) -> u32 {
    (pc.wrapping_add(2) / 2 * 2) as u32
}

/// Where long word loads relative to the program counter count from.
pub open spec fn long_base(pc: u32) -> u32 {
    (pc.wrapping_add(2) / 4 * 4) as u32
}

/// What an instruction that does not branch with a delay slot does.
#[verifier::opaque]
pub open spec fn plain_executed(m: Machine, op: u16) -> Machine {
    let top = op / 0x1000;
    let n = op_n(op);
    let k = op_m(op);
    let d4 = op_d4(op);
    let d8 = op_d8(op);
    if top == 0x0 {
        group0(m, op)
    } else if top == 0x1 {
        st32(m, m.r[n].wrapping_add((d4 * 4) as u32), m.r[k])
    } else if top == 0x2 {
        group2(m, op)
    } else if top == 0x3 {
        group3(m, op)
    } else if top == 0x4 {
        if is_group4_regs(d8) {
            group4_regs(m, op)
        } else {
            group4_mem(m, op)
        }
    } else if top == 0x5 {
        ld32(m, n, m.r[k].wrapping_add((d4 * 4) as u32))
    } else if top == 0x6 {
        group6(m, op)
    } else if top == 0x7 {
        m.with_r(n, m.r[n].wrapping_add(sext8(d8 as u8)))
    } else if top == 0x8 {
        group8(m, op)
    } else if top == 0x9 {
        ld16(m, n, word_base(m.pc).wrapping_add((d8 * 2) as u32))
    } else if top == 0xC {
        group_c(m, op)
    } else if top == 0xD {
        ld32(m, n, long_base(m.pc).wrapping_add((d8 * 4) as u32))
    } else if top == 0xE {
        m.with_r(n, sext8(d8 as u8))
    } else {
        illegal(m)
    }
}

impl Sh2 {
    /// Enter an exception: save the status register and the return address, take
    /// over a new status register and go to the vector's address.
    pub fn enter_exception(&mut self, vector: u8, sr: u32)
        requires
            old(self).wf(),
        ensures
            final(self).wf(),
            final(self)@ == entered(old(self)@, vector as int, sr),
    {
        reveal(entered);
        let sr_addr: u32 = self.registers[15].wrapping_sub(4);
        self.bus.write_long(sr_addr, self.sr);
        let pc_addr: u32 = sr_addr.wrapping_sub(4);
        self.bus.write_long(pc_addr, self.pc);
        self.registers[15] = pc_addr;
        self.sr = sr;
        self.pc = self.bus.read_long(self.vbr.wrapping_add((vector as u32) * 4));
    }

    fn exec_illegal(&mut self)
        requires
            old(self).wf(),
        ensures
            final(self).wf(),
            final(self)@ == illegal(old(self)@),
    {
        let sr: u32 = self.sr;
        self.enter_exception(4, sr);
        self.bus.cycles = self.bus.cycles.wrapping_add(1);
        self.illegal_instruction_flag = true;
    }

    fn exec_mac_l(&mut self, n: usize, k: usize)
        requires
            old(self).wf(),
            n < 16,
            k < 16,
        ensures
            final(self).wf(),
            final(self)@ == mac_l(old(self)@, n as int, k as int),
    {
        reveal(mac_l);
        let addr_n: u32 = self.registers[n];
        let val_n: u32 = self.bus.read_long(addr_n);
        self.registers[n] = addr_n.wrapping_add(4);
        let addr_m: u32 = self.registers[k];
        let val_m: u32 = self.bus.read_long(addr_m);
        self.registers[k] = addr_m.wrapping_add(4);
        let saturate: bool = self.s();
        let (h, l): (u32, u32) = accumulate_long(self.mach, self.macl, val_n, val_m, saturate);
        self.mach = h;
        self.macl = l;
    }

    fn exec_mac_w(&mut self, n: usize, k: usize)
        requires
            old(self).wf(),
            n < 16,
            k < 16,
        ensures
            final(self).wf(),
            final(self)@ == mac_w(old(self)@, n as int, k as int),
    {
        reveal(mac_w);
        let addr_m: u32 = self.registers[k];
        let val_m: u16 = self.bus.read_word(addr_m);
        self.registers[k] = addr_m.wrapping_add(2);
        let addr_n: u32 = self.registers[n];
        let val_n: u16 = self.bus.read_word(addr_n);
        self.registers[n] = addr_n.wrapping_add(2);
        let saturate: bool = self.s();
        let (h, l): (u32, u32) = accumulate_word(self.mach, self.macl, val_m, val_n, saturate);
        self.mach = h;
        self.macl = l;
    }

    #[verifier::rlimit(60)]
    fn exec_group0(&mut self, op: u16)
        requires
            old(self).wf(),
        ensures
            final(self).wf(),
            final(self)@ == group0(old(self)@, op),
    {
        reveal(group0);
        let n: usize = (op / 0x100 % 16) as usize;
        let k: usize = (op / 0x10 % 16) as usize;
        let d8: u16 = op % 0x100;
        let d4: u16 = op % 0x10;
        match d8 {
            0x09 => {},
            0x18 => self.set_t(true),
            0x08 => self.set_t(false),
            0x19 => {
                self.sr = self.sr & !(SR_T | SR_M | SR_Q);
            },
            0x28 => {
                self.mach = 0;
                self.macl = 0;
            },
            0x1B => {
                self.pc = self.pc.wrapping_sub(2);
            },
            0x02 => {
                self.registers[n] = self.sr;
            },
            0x12 => {
                self.registers[n] = self.gbr;
            },
            0x22 => {
                self.registers[n] = self.vbr;
            },
            0x0A => {
                self.registers[n] = self.mach;
            },
            0x1A => {
                self.registers[n] = self.macl;
            },
            0x2A => {
                self.registers[n] = self.pr;
            },
            0x29 => {
                self.registers[n] = if self.t() {
                    1
                } else {
                    0
                };
            },
            _ => {
                let r0: u32 = self.registers[0];
                let rn: u32 = self.registers[n];
                let rm: u32 = self.registers[k];
                match d4 {
                    0x4 => self.store_byte(r0.wrapping_add(rn), rm),
                    0x5 => self.store_word(r0.wrapping_add(rn), rm),
                    0x6 => self.store_long(r0.wrapping_add(rn), rm),
                    0x7 => {
                        self.macl = rn.wrapping_mul(rm);
                    },
                    0xC => self.load_byte(n, r0.wrapping_add(rm)),
                    0xD => self.load_word(n, r0.wrapping_add(rm)),
                    0xE => self.load_long(n, r0.wrapping_add(rm)),
                    0xF => self.exec_mac_l(n, k),
                    _ => self.exec_illegal(),
                }
            },
        }
    }

    #[verifier::rlimit(60)]
    fn exec_group2(&mut self, op: u16)
        requires
            old(self).wf(),
        ensures
            final(self).wf(),
            final(self)@ == group2(old(self)@, op),
    {
        reveal(group2);
        let n: usize = (op / 0x100 % 16) as usize;
        let rn: u32 = self.registers[n];
        let rm: u32 = self.registers[(op / 0x10 % 16) as usize];
        match op % 0x10 {
            0x0 => self.store_byte(rn, rm),
            0x1 => self.store_word(rn, rm),
            0x2 => self.store_long(rn, rm),
            0x4 => {
                self.store_byte(rn.wrapping_sub(1), rm);
                self.set_reg(n, rn.wrapping_sub(1));
            },
            0x5 => {
                self.store_word(rn.wrapping_sub(2), rm);
                self.set_reg(n, rn.wrapping_sub(2));
            },
            0x6 => {
                self.store_long(rn.wrapping_sub(4), rm);
                self.set_reg(n, rn.wrapping_sub(4));
            },
            0x7 => {
                let q: bool = rn >= 0x8000_0000;
                let m_bit: bool = rm >= 0x8000_0000;
                self.set_q(q);
                self.set_m(m_bit);
                self.set_t(q != m_bit);
            },
            0x8 => self.set_t(rn & rm == 0),
            0x9 => self.set_reg(n, rn & rm),
            0xA => self.set_reg(n, rn ^ rm),
            0xB => self.set_reg(n, rn | rm),
            0xC => {
                let matches: bool = rn % 0x100 == rm % 0x100 || rn / 0x100 % 0x100 == rm / 0x100
                    % 0x100 || rn / 0x1_0000 % 0x100 == rm / 0x1_0000 % 0x100 || rn / 0x100_0000
                    == rm / 0x100_0000;
                self.set_t(matches);
            },
            0xD => self.set_reg(n, rn / 0x1_0000 + rm % 0x1_0000 * 0x1_0000),
            0xE => {
                self.macl = multiply_words_unsigned(rn, rm);
            },
            0xF => {
                self.macl = multiply_words(rn, rm);
            },
            _ => self.exec_illegal(),
        }
    }

    #[verifier::rlimit(60)]
    fn exec_group3(&mut self, op: u16)
        requires
            old(self).wf(),
        ensures
            final(self).wf(),
            final(self)@ == group3(old(self)@, op),
    {
        reveal(group3);
        let n: usize = (op / 0x100 % 16) as usize;
        let rn: u32 = self.registers[n];
        let rm: u32 = self.registers[(op / 0x10 % 16) as usize];
        match op % 0x10 {
            0x0 => self.set_t(rn == rm),
            0x2 => self.set_t(rn >= rm),
            0x3 => self.set_t(to_signed(rn) >= to_signed(rm)),
            0x4 => {
                let (r, sr): (u32, u32) = divide_step(rn, rm, self.sr);
                self.registers[n] = r;
                self.sr = sr;
            },
            0x5 => {
                let (h, l): (u32, u32) = multiply_unsigned(rn, rm);
                self.mach = h;
                self.macl = l;
            },
            0x6 => self.set_t(rn > rm),
            0x7 => self.set_t(to_signed(rn) > to_signed(rm)),
            0x8 => self.set_reg(n, rn.wrapping_sub(rm)),
            0xA => {
                let t: bool = self.t();
                let (r, c): (u32, bool) = subc(rn, rm, t);
                self.set_reg(n, r);
                self.set_t(c);
            },
            0xB => {
                let (r, ov): (u32, bool) = subv(rn, rm);
                self.set_reg(n, r);
                self.set_t(ov);
            },
            0xC => self.set_reg(n, rn.wrapping_add(rm)),
            0xD => {
                let (h, l): (u32, u32) = multiply_signed(rn, rm);
                self.mach = h;
                self.macl = l;
            },
            0xE => {
                let t: bool = self.t();
                let (r, c): (u32, bool) = addc(rn, rm, t);
                self.set_reg(n, r);
                self.set_t(c);
            },
            0xF => {
                let (r, ov): (u32, bool) = addv(rn, rm);
                self.set_reg(n, r);
                self.set_t(ov);
            },
            _ => self.exec_illegal(),
        }
    }

    fn exec_tas(&mut self, a: u32)
        requires
            old(self).wf(),
        ensures
            final(self).wf(),
            final(self)@ == tas(old(self)@, a),
    {
        reveal(tas);
        self.bus.bus_wait();
        let v: u8 = self.bus.raw_read_byte(a);
        self.bus.raw_write_byte(a, v | 0x80, NESTING_LIMIT);
        self.set_t(v == 0);
    }

    #[verifier::rlimit(40)]
    fn exec_shift(&mut self, d8: u16, n: usize)
        requires
            old(self).wf(),
            n < 16,
        ensures
            final(self).wf(),
            final(self)@ == shifted(old(self)@, d8 as int, n as int),
    {
        let rn: u32 = self.registers[n];
        let t: bool = self.t();
        proof {
            doubled_is_even(rn);
        }
        if d8 == 0x00 || d8 == 0x20 {
            self.set_reg(n, rn.wrapping_mul(2));
            self.set_t(rn >= 0x8000_0000);
        } else if d8 == 0x01 {
            self.set_reg(n, rn / 2);
            self.set_t(rn % 2 == 1);
        } else if d8 == 0x04 {
            self.set_reg(n, rn.wrapping_mul(2) + rn / 0x8000_0000);
            self.set_t(rn >= 0x8000_0000);
        } else if d8 == 0x05 {
            self.set_reg(n, rn / 2 + rn % 2 * 0x8000_0000);
            self.set_t(rn % 2 == 1);
        } else if d8 == 0x21 {
            let half: u32 = rn / 2 + if rn >= 0x8000_0000 {
                0x8000_0000u32
            } else {
                0
            };
            assert(half == wrap32(s32(rn) / 2));
            self.set_reg(n, half);
            self.set_t(rn % 2 == 1);
        } else if d8 == 0x24 {
            self.set_reg(
                n,
                rn.wrapping_mul(2) + if t {
                    1u32
                } else {
                    0
                },
            );
            self.set_t(rn >= 0x8000_0000);
        } else {
            self.set_reg(
                n,
                rn / 2 + if t {
                    0x8000_0000u32
                } else {
                    0
                },
            );
            self.set_t(rn % 2 == 1);
        }
    }

    #[verifier::rlimit(60)]
    fn exec_group4_regs(&mut self, op: u16)
        requires
            old(self).wf(),
            is_group4_regs(op_d8(op)),
        ensures
            final(self).wf(),
            final(self)@ == group4_regs(old(self)@, op),
    {
        reveal(group4_regs);
        let n: usize = (op / 0x100 % 16) as usize;
        let rn: u32 = self.registers[n];
        let d8: u16 = op % 0x100;
        match d8 {
            0x00 | 0x20 | 0x01 | 0x04 | 0x05 | 0x21 | 0x24 | 0x25 => self.exec_shift(d8, n),
            0x08 => self.set_reg(n, rn.wrapping_mul(4)),
            0x09 => self.set_reg(n, rn / 4),
            0x18 => self.set_reg(n, rn.wrapping_mul(0x100)),
            0x19 => self.set_reg(n, rn / 0x100),
            0x28 => self.set_reg(n, rn.wrapping_mul(0x1_0000)),
            0x29 => self.set_reg(n, rn / 0x1_0000),
            0x10 => {
                let v: u32 = rn.wrapping_sub(1);
                self.set_reg(n, v);
                self.set_t(v == 0);
            },
            0x11 => self.set_t(to_signed(rn) >= 0),
            0x15 => self.set_t(to_signed(rn) > 0),
            0x0E => {
                self.sr = rn & SR_WRITE_MASK;
            },
            0x1E => {
                self.gbr = rn;
            },
            0x2E => {
                self.vbr = rn;
            },
            0x0A => {
                self.mach = rn;
            },
            0x1A => {
                self.macl = rn;
            },
            _ => {
                self.pr = rn;
            },
        }
    }

    #[verifier::rlimit(60)]
    fn exec_group4_mem(&mut self, op: u16)
        requires
            old(self).wf(),
        ensures
            final(self).wf(),
            final(self)@ == group4_mem(old(self)@, op),
    {
        reveal(group4_mem);
        let n: usize = (op / 0x100 % 16) as usize;
        let rn: u32 = self.registers[n];
        let down: u32 = rn.wrapping_sub(4);
        let d8: u16 = op % 0x100;
        match d8 {
            0x1B => self.exec_tas(rn),
            0x06 | 0x16 | 0x26 | 0x07 | 0x17 | 0x27 => {
                let v: u32 = self.bus.read_long(rn);
                self.registers[n] = rn.wrapping_add(4);
                if d8 == 0x06 {
                    self.mach = v;
                } else if d8 == 0x16 {
                    self.macl = v;
                } else if d8 == 0x26 {
                    self.pr = v;
                } else if d8 == 0x07 {
                    self.sr = v & SR_WRITE_MASK;
                } else if d8 == 0x17 {
                    self.gbr = v;
                } else {
                    self.vbr = v;
                }
            },
            0x02 | 0x12 | 0x22 | 0x03 | 0x13 | 0x23 => {
                let v: u32 = if d8 == 0x02 {
                    self.mach
                } else if d8 == 0x12 {
                    self.macl
                } else if d8 == 0x22 {
                    self.pr
                } else if d8 == 0x03 {
                    self.sr
                } else if d8 == 0x13 {
                    self.gbr
                } else {
                    self.vbr
                };
                self.store_long(down, v);
                self.set_reg(n, down);
            },
            _ => {
                if op % 0x10 == 0xF {
                    self.exec_mac_w(n, (op / 0x10 % 16) as usize);
                } else {
                    self.exec_illegal();
                }
            },
        }
    }

    #[verifier::rlimit(60)]
    fn exec_group6(&mut self, op: u16)
        requires
            old(self).wf(),
        ensures
            final(self).wf(),
            final(self)@ == group6(old(self)@, op),
    {
        reveal(group6);
        let n: usize = (op / 0x100 % 16) as usize;
        let k: usize = (op / 0x10 % 16) as usize;
        let rm: u32 = self.registers[k];
        match op % 0x10 {
            0x0 => self.load_byte(n, rm),
            0x1 => self.load_word(n, rm),
            0x2 => self.load_long(n, rm),
            0x3 => self.set_reg(n, rm),
            0x4 => {
                self.load_byte(n, rm);
                if n != k {
                    self.set_reg(k, rm.wrapping_add(1));
                }
            },
            0x5 => {
                self.load_word(n, rm);
                if n != k {
                    self.set_reg(k, rm.wrapping_add(2));
                }
            },
            0x6 => {
                self.load_long(n, rm);
                if n != k {
                    self.set_reg(k, rm.wrapping_add(4));
                }
            },
            0x7 => self.set_reg(n, !rm),
            0x8 => self.set_reg(
                n,
                rm / 0x1_0000 * 0x1_0000 + rm % 0x100 * 0x100 + rm / 0x100 % 0x100,
            ),
            0x9 => self.set_reg(n, rm % 0x1_0000 * 0x1_0000 + rm / 0x1_0000),
            0xA => {
                let t: bool = self.t();
                let (r, c): (u32, bool) = subc(0, rm, t);
                self.set_reg(n, r);
                self.set_t(c);
            },
            0xB => self.set_reg(n, 0u32.wrapping_sub(rm)),
            0xC => self.set_reg(n, rm % 0x100),
            0xD => self.set_reg(n, rm % 0x1_0000),
            0xE => self.set_reg(n, extend_byte((rm % 0x100) as u8)),
            _ => self.set_reg(n, extend_word((rm % 0x1_0000) as u16)),
        }
    }

    #[verifier::rlimit(60)]
    fn exec_group8(&mut self, op: u16)
        requires
            old(self).wf(),
        ensures
            final(self).wf(),
            final(self)@ == group8(old(self)@, op),
    {
        reveal(group8);
        let sub: u16 = op / 0x100 % 16;
        let r0: u32 = self.registers[0];
        let rm: u32 = self.registers[(op / 0x10 % 16) as usize];
        let d4: u32 = (op % 0x10) as u32;
        let d8: u32 = (op % 0x100) as u32;
        match sub {
            0x0 => self.store_byte(rm.wrapping_add(d4), r0),
            0x1 => self.store_word(rm.wrapping_add(d4 * 2), r0),
            0x4 => self.load_byte(0, rm.wrapping_add(d4)),
            0x5 => self.load_word(0, rm.wrapping_add(d4 * 2)),
            0x8 => self.set_t(r0 == extend_byte(d8 as u8)),
            0x9 => {
                if self.t() {
                    self.pc = target_of(self.pc, sign_extend8(d8));
                }
            },
            0xB => {
                if !self.t() {
                    self.pc = target_of(self.pc, sign_extend8(d8));
                }
            },
            0xD | 0xF => {},
            _ => self.exec_illegal(),
        }
    }

    fn exec_byte_op(&mut self, a: u32, kind: u16, imm: u8)
        requires
            old(self).wf(),
        ensures
            final(self).wf(),
            final(self)@ == byte_op(old(self)@, a, kind as int, imm),
    {
        let v: u8 = self.bus.read_byte(a);
        if kind == 0 {
            self.set_t(v & imm == 0);
        } else if kind == 1 {
            self.bus.write_byte(a, v & imm);
        } else if kind == 2 {
            self.bus.write_byte(a, v ^ imm);
        } else {
            self.bus.write_byte(a, v | imm);
        }
    }

    #[verifier::rlimit(60)]
    fn exec_group_c(&mut self, op: u16)
        requires
            old(self).wf(),
        ensures
            final(self).wf(),
            final(self)@ == group_c(old(self)@, op),
    {
        reveal(group_c);
        let sub: u16 = op / 0x100 % 16;
        let d8: u32 = (op % 0x100) as u32;
        let r0: u32 = self.registers[0];
        match sub {
            0x0 => self.store_byte(self.gbr.wrapping_add(d8), r0),
            0x1 => self.store_word(self.gbr.wrapping_add(d8 * 2), r0),
            0x2 => self.store_long(self.gbr.wrapping_add(d8 * 4), r0),
            0x3 => self.enter_exception(d8 as u8, self.sr),
            0x4 => self.load_byte(0, self.gbr.wrapping_add(d8)),
            0x5 => self.load_word(0, self.gbr.wrapping_add(d8 * 2)),
            0x6 => self.load_long(0, self.gbr.wrapping_add(d8 * 4)),
            0x7 => {
                let base: u32 = self.pc.wrapping_add(2) / 4 * 4;
                self.set_reg(0, base.wrapping_add(d8 * 4));
            },
            0x8 => self.set_t(r0 & d8 == 0),
            0x9 => self.set_reg(0, r0 & d8),
            0xA => self.set_reg(0, r0 ^ d8),
            0xB => self.set_reg(0, r0 | d8),
            _ => self.exec_byte_op(self.gbr.wrapping_add(r0), sub - 0xC, d8 as u8),
        }
    }

    /// Carry out an instruction that does not branch with a delay slot.
    #[verifier::rlimit(40)]
    pub fn execute_plain(&mut self, op: u16)
        requires
            old(self).wf(),
        ensures
            final(self).wf(),
            final(self)@ == plain_executed(old(self)@, op),
    {
        reveal(plain_executed);
        let top: u16 = op / 0x1000;
        let n: usize = (op / 0x100 % 16) as usize;
        let k: usize = (op / 0x10 % 16) as usize;
        let d4: u32 = (op % 0x10) as u32;
        let d8: u32 = (op % 0x100) as u32;
        match top {
            0x0 => self.exec_group0(op),
            0x1 => {
                let addr: u32 = self.registers[n].wrapping_add(d4 * 4);
                let v: u32 = self.registers[k];
                self.store_long(addr, v);
            },
            0x2 => self.exec_group2(op),
            0x3 => self.exec_group3(op),
            0x4 => {
                if group4_on_registers(op % 0x100) {
                    self.exec_group4_regs(op);
                } else {
                    self.exec_group4_mem(op);
                }
            },
            0x5 => {
                let addr: u32 = self.registers[k].wrapping_add(d4 * 4);
                self.load_long(n, addr);
            },
            0x6 => self.exec_group6(op),
            0x7 => {
                let v: u32 = self.registers[n].wrapping_add(extend_byte(d8 as u8));
                self.set_reg(n, v);
            },
            0x8 => self.exec_group8(op),
            0x9 => {
                let base: u32 = self.pc.wrapping_add(2) / 2 * 2;
                self.load_word(n, base.wrapping_add(d8 * 2));
            },
            0xC => self.exec_group_c(op),
            0xD => {
                let base: u32 = self.pc.wrapping_add(2) / 4 * 4;
                self.load_long(n, base.wrapping_add(d8 * 4));
            },
            0xE => self.set_reg(n, extend_byte(d8 as u8)),
            _ => self.exec_illegal(),
        }
    }
}

fn group4_on_registers(d8: u16) -> (r: bool)
    ensures
        r == is_group4_regs(d8 as int),
{
    d8 == 0x00 || d8 == 0x20 || d8 == 0x01 || d8 == 0x04 || d8 == 0x05 || d8 == 0x21 || d8 == 0x24
        || d8 == 0x25 || d8 == 0x08 || d8 == 0x09 || d8 == 0x18 || d8 == 0x19 || d8 == 0x28 || d8
        == 0x29 || d8 == 0x10 || d8 == 0x11 || d8 == 0x15 || d8 == 0x0E || d8 == 0x1E || d8 == 0x2E
        || d8 == 0x0A || d8 == 0x1A || d8 == 0x2A
}

} // verus!
