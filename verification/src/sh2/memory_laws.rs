//! Where the instructions read and store, and where they go on.

use crate::arith::wrap32;
use crate::sh2::alu::{
    div_step, flags_are_independent, high32, mac_long, mac_word, s16, saturated, sext16, sext8,
    sr_has, sr_with, wrap64, SR_M, SR_Q, SR_S, SR_T,
};
use crate::sh2::bus::{load16, load32, load8, waited};
use crate::sh2::exec::{
    entered, group0, group2, group3, group4_mem, group6, group8, group_c, long_base, mac_l, mac_w,
    op_d4, op_d8, op_m, op_n, plain_executed, word_base,
};
use crate::sh2::opcode_laws::{
    cut_to_32_bits, fields_i, fields_ni, fields_nm, is_reg, may_branch, one_if, op_ni, op_nm,
    plain_of_group, signed, signed_byte,
};
use crate::sh2::step::{base_cycles, branch_of, delay_slot, executed, performed};
use crate::sh2::store::{store16, store32, store8, NESTING_LIMIT};
use crate::sh2::{ld16, ld32, ld8, st32, Machine};
use vstd::prelude::*;

verus! {

/// The address or register value of a number, cut to 32 bits.
pub open spec fn at(i: int) -> u32 {
    (i % 0x1_0000_0000) as u32
}

/// The machine after a register took 1, 2 or 4 bytes from an address, as a signed number.
pub open spec fn taken(m: Machine, n: int, a: u32, width: int) -> Machine {
    if width == 1 {
        let (b, v) = load8(m.bus, a);
        Machine {
            bus: b,
            r: m.r.update(
                n,
                at(
                    if v < 0x80 {
                        v as int
                    } else {
                        v - 0x100
                    },
                ),
            ),
            ..m
        }
    } else if width == 2 {
        let (b, v) = load16(m.bus, a);
        Machine {
            bus: b,
            r: m.r.update(
                n,
                at(
                    if v < 0x8000 {
                        v as int
                    } else {
                        v - 0x1_0000
                    },
                ),
            ),
            ..m
        }
    } else {
        let (b, v) = load32(m.bus, a);
        Machine { bus: b, r: m.r.update(n, v), ..m }
    }
}

/// The machine after the lowest 1, 2 or 4 bytes of a value went to an address.
pub open spec fn put(m: Machine, a: u32, v: u32, width: int) -> Machine {
    if width == 1 {
        Machine { bus: store8(m.bus, a, (v as int % 0x100) as u8), ..m }
    } else if width == 2 {
        Machine { bus: store16(m.bus, a, (v as int % 0x1_0000) as u16), ..m }
    } else {
        Machine { bus: store32(m.bus, a, v), ..m }
    }
}

/// With a register set to a number, cut to 32 bits.
pub open spec fn set(m: Machine, n: int, i: int) -> Machine {
    Machine { r: m.r.update(n, at(i)), ..m }
}

#[verifier::spinoff_prover]
proof fn signs_are_extended(m: Machine, n: int, a: u32)
    ensures
        ld8(m, n, a) == taken(m, n, a, 1),
        ld16(m, n, a) == taken(m, n, a, 2),
        ld32(m, n, a) == taken(m, n, a, 4),
{
    let v = load8(m.bus, a).1;
    assert(sext8(v) == at(
        if v < 0x80 {
            v as int
        } else {
            v - 0x100
        },
    ));
    let w = load16(m.bus, a).1;
    assert(sext16(w) == at(
        if w < 0x8000 {
            w as int
        } else {
            w - 0x1_0000
        },
    ));
}

/// The instructions that have a group of their own.
#[verifier::spinoff_prover]
proof fn plain_of_top(m: Machine, op: u16)
    requires
        !may_branch(op),
    ensures
        ({
            let n = op_n(op);
            let k = op_m(op);
            let d4 = op_d4(op);
            let d8 = op_d8(op);
            &&& op / 0x1000 == 0x1 ==> performed(m, op) == st32(
                m,
                m.r[n].wrapping_add((d4 * 4) as u32),
                m.r[k],
            )
            &&& op / 0x1000 == 0x5 ==> performed(m, op) == ld32(
                m,
                n,
                m.r[k].wrapping_add((d4 * 4) as u32),
            )
            &&& op / 0x1000 == 0x9 ==> performed(m, op) == ld16(
                m,
                n,
                word_base(m.pc).wrapping_add((d8 * 2) as u32),
            )
            &&& op / 0x1000 == 0xD ==> performed(m, op) == ld32(
                m,
                n,
                long_base(m.pc).wrapping_add((d8 * 4) as u32),
            )
        }),
{
    plain_of_group(m, op);
    reveal(plain_executed);
}

/// MOV @Rm,Rn takes a byte, a word or a long word from where Rm points, its sign extended.
#[verifier::spinoff_prover]
pub proof fn loads_by_register(m: Machine, n: int, k: int)
    requires
        m.r.len() == 16,
        is_reg(n),
        is_reg(k),
    ensures
        performed(m, op_nm(0x6000, n, k)) == taken(m, n, m.r[k], 1),
        performed(m, op_nm(0x6001, n, k)) == taken(m, n, m.r[k], 2),
        performed(m, op_nm(0x6002, n, k)) == taken(m, n, m.r[k], 4),
{
    reveal(group6);
    signs_are_extended(m, n, m.r[k]);
    fields_nm(6, n, k, 0);
    plain_of_group(m, op_nm(0x6000, n, k));
    fields_nm(6, n, k, 1);
    plain_of_group(m, op_nm(0x6001, n, k));
    fields_nm(6, n, k, 2);
    plain_of_group(m, op_nm(0x6002, n, k));
}

/// MOV Rm,@Rn stores the low byte, the low word or all of Rm where Rn points.
#[verifier::spinoff_prover]
pub proof fn stores_by_register(m: Machine, n: int, k: int)
    requires
        m.r.len() == 16,
        is_reg(n),
        is_reg(k),
    ensures
        performed(m, op_nm(0x2000, n, k)) == put(m, m.r[n], m.r[k], 1),
        performed(m, op_nm(0x2001, n, k)) == put(m, m.r[n], m.r[k], 2),
        performed(m, op_nm(0x2002, n, k)) == put(m, m.r[n], m.r[k], 4),
{
    reveal(group2);
    fields_nm(2, n, k, 0);
    plain_of_group(m, op_nm(0x2000, n, k));
    fields_nm(2, n, k, 1);
    plain_of_group(m, op_nm(0x2001, n, k));
    fields_nm(2, n, k, 2);
    plain_of_group(m, op_nm(0x2002, n, k));
}

/// MOV @Rm+,Rn takes a byte and moves Rm on by its size, unless Rm took it.
#[verifier::spinoff_prover]
pub proof fn loads_a_byte_and_moves_on(m: Machine, n: int, k: int)
    requires
        m.r.len() == 16,
        is_reg(n),
        is_reg(k),
    ensures
        n != k ==> performed(m, op_nm(0x6004, n, k)) == set(
            taken(m, n, m.r[k], 1),
            k,
            m.r[k] + 1,
        ),
        n == k ==> performed(m, op_nm(0x6004, n, k)) == taken(m, n, m.r[k], 1),
{
    reveal(group6);
    signs_are_extended(m, n, m.r[k]);
    cut_to_32_bits(m.r[k], 1);
    fields_nm(6, n, k, 4);
    plain_of_group(m, op_nm(0x6004, n, k));
}

/// MOV Rm,@-Rn moves Rn back by the size of a byte and stores it there.
#[verifier::spinoff_prover]
pub proof fn moves_back_and_stores_a_byte(m: Machine, n: int, k: int)
    requires
        m.r.len() == 16,
        is_reg(n),
        is_reg(k),
    ensures
        performed(m, op_nm(0x2004, n, k)) == set(
            put(m, at(m.r[n] - 1), m.r[k], 1),
            n,
            m.r[n] - 1,
        ),
{
    reveal(group2);
    cut_to_32_bits(m.r[n], 1);
    fields_nm(2, n, k, 4);
    plain_of_group(m, op_nm(0x2004, n, k));
}

/// MOV @Rm+,Rn takes a word and moves Rm on by its size, unless Rm took it.
#[verifier::spinoff_prover]
pub proof fn loads_a_word_and_moves_on(m: Machine, n: int, k: int)
    requires
        m.r.len() == 16,
        is_reg(n),
        is_reg(k),
    ensures
        n != k ==> performed(m, op_nm(0x6005, n, k)) == set(
            taken(m, n, m.r[k], 2),
            k,
            m.r[k] + 2,
        ),
        n == k ==> performed(m, op_nm(0x6005, n, k)) == taken(m, n, m.r[k], 2),
{
    reveal(group6);
    signs_are_extended(m, n, m.r[k]);
    cut_to_32_bits(m.r[k], 2);
    fields_nm(6, n, k, 5);
    plain_of_group(m, op_nm(0x6005, n, k));
}

/// MOV Rm,@-Rn moves Rn back by the size of a word and stores it there.
#[verifier::spinoff_prover]
pub proof fn moves_back_and_stores_a_word(m: Machine, n: int, k: int)
    requires
        m.r.len() == 16,
        is_reg(n),
        is_reg(k),
    ensures
        performed(m, op_nm(0x2005, n, k)) == set(
            put(m, at(m.r[n] - 2), m.r[k], 2),
            n,
            m.r[n] - 2,
        ),
{
    reveal(group2);
    cut_to_32_bits(m.r[n], 2);
    fields_nm(2, n, k, 5);
    plain_of_group(m, op_nm(0x2005, n, k));
}

/// MOV @Rm+,Rn takes a long word and moves Rm on by its size, unless Rm took it.
#[verifier::spinoff_prover]
pub proof fn loads_a_long_word_and_moves_on(m: Machine, n: int, k: int)
    requires
        m.r.len() == 16,
        is_reg(n),
        is_reg(k),
    ensures
        n != k ==> performed(m, op_nm(0x6006, n, k)) == set(
            taken(m, n, m.r[k], 4),
            k,
            m.r[k] + 4,
        ),
        n == k ==> performed(m, op_nm(0x6006, n, k)) == taken(m, n, m.r[k], 4),
{
    reveal(group6);
    signs_are_extended(m, n, m.r[k]);
    cut_to_32_bits(m.r[k], 4);
    fields_nm(6, n, k, 6);
    plain_of_group(m, op_nm(0x6006, n, k));
}

/// MOV Rm,@-Rn moves Rn back by the size of a long word and stores it there.
#[verifier::spinoff_prover]
pub proof fn moves_back_and_stores_a_long_word(m: Machine, n: int, k: int)
    requires
        m.r.len() == 16,
        is_reg(n),
        is_reg(k),
    ensures
        performed(m, op_nm(0x2006, n, k)) == set(
            put(m, at(m.r[n] - 4), m.r[k], 4),
            n,
            m.r[n] - 4,
        ),
{
    reveal(group2);
    cut_to_32_bits(m.r[n], 4);
    fields_nm(2, n, k, 6);
    plain_of_group(m, op_nm(0x2006, n, k));
}

/// MOV @(R0,Rm),Rn adds R0 to the address.
#[verifier::spinoff_prover]
pub proof fn loads_by_sum(m: Machine, n: int, k: int)
    requires
        m.r.len() == 16,
        is_reg(n),
        is_reg(k),
    ensures
        performed(m, op_nm(0x000C, n, k)) == taken(m, n, at(m.r[0] + m.r[k]), 1),
        performed(m, op_nm(0x000D, n, k)) == taken(m, n, at(m.r[0] + m.r[k]), 2),
        performed(m, op_nm(0x000E, n, k)) == taken(m, n, at(m.r[0] + m.r[k]), 4),
{
    reveal(group0);
    signs_are_extended(m, n, at(m.r[0] + m.r[k]));
    cut_to_32_bits(m.r[0], m.r[k]);
    fields_nm(0, n, k, 12);
    plain_of_group(m, op_nm(0x000C, n, k));
    fields_nm(0, n, k, 13);
    plain_of_group(m, op_nm(0x000D, n, k));
    fields_nm(0, n, k, 14);
    plain_of_group(m, op_nm(0x000E, n, k));
}

/// MOV Rm,@(R0,Rn) adds R0 to the address.
#[verifier::spinoff_prover]
pub proof fn stores_by_sum(m: Machine, n: int, k: int)
    requires
        m.r.len() == 16,
        is_reg(n),
        is_reg(k),
    ensures
        performed(m, op_nm(0x0004, n, k)) == put(m, at(m.r[0] + m.r[n]), m.r[k], 1),
        performed(m, op_nm(0x0005, n, k)) == put(m, at(m.r[0] + m.r[n]), m.r[k], 2),
        performed(m, op_nm(0x0006, n, k)) == put(m, at(m.r[0] + m.r[n]), m.r[k], 4),
{
    reveal(group0);
    cut_to_32_bits(m.r[0], m.r[n]);
    fields_nm(0, n, k, 4);
    plain_of_group(m, op_nm(0x0004, n, k));
    fields_nm(0, n, k, 5);
    plain_of_group(m, op_nm(0x0005, n, k));
    fields_nm(0, n, k, 6);
    plain_of_group(m, op_nm(0x0006, n, k));
}

/// MOV with a displacement of four bits counts it in the size of what it moves: bytes and words
/// go by R0.
#[verifier::spinoff_prover]
pub proof fn loads_and_stores_by_displacement(m: Machine, k: int, d: int)
    requires
        m.r.len() == 16,
        is_reg(k),
        is_reg(d),
    ensures
        performed(m, op_nm(0x8000 + d, 4, k)) == taken(m, 0, at(m.r[k] + d), 1),
        performed(m, op_nm(0x8000 + d, 5, k)) == taken(m, 0, at(m.r[k] + 2 * d), 2),
        performed(m, op_nm(0x8000 + d, 0, k)) == put(m, at(m.r[k] + d), m.r[0], 1),
        performed(m, op_nm(0x8000 + d, 1, k)) == put(m, at(m.r[k] + 2 * d), m.r[0], 2),
{
    reveal(group8);
    cut_to_32_bits(m.r[k], d as u32);
    cut_to_32_bits(m.r[k], (2 * d) as u32);
    signs_are_extended(m, 0, at(m.r[k] + d));
    signs_are_extended(m, 0, at(m.r[k] + 2 * d));
    fields_nm(8, 4, k, d);
    plain_of_group(m, op_nm(0x8000 + d, 4, k));
    fields_nm(8, 5, k, d);
    plain_of_group(m, op_nm(0x8000 + d, 5, k));
    fields_nm(8, 0, k, d);
    plain_of_group(m, op_nm(0x8000 + d, 0, k));
    fields_nm(8, 1, k, d);
    plain_of_group(m, op_nm(0x8000 + d, 1, k));
}

/// MOV.L with a displacement of four bits moves any register.
#[verifier::spinoff_prover]
pub proof fn long_words_by_displacement(m: Machine, n: int, k: int, d: int)
    requires
        m.r.len() == 16,
        is_reg(n),
        is_reg(k),
        is_reg(d),
    ensures
        performed(m, op_nm(0x5000 + d, n, k)) == taken(m, n, at(m.r[k] + 4 * d), 4),
        performed(m, op_nm(0x1000 + d, n, k)) == put(m, at(m.r[n] + 4 * d), m.r[k], 4),
{
    cut_to_32_bits(m.r[k], (4 * d) as u32);
    cut_to_32_bits(m.r[n], (4 * d) as u32);
    fields_nm(5, n, k, d);
    plain_of_top(m, op_nm(0x5000 + d, n, k));
    fields_nm(1, n, k, d);
    plain_of_top(m, op_nm(0x1000 + d, n, k));
}

/// MOV @(disp,GBR) counts its displacement in the size of what it moves.
#[verifier::spinoff_prover]
pub proof fn loads_and_stores_by_gbr(m: Machine, d: int)
    requires
        m.r.len() == 16,
        0 <= d < 256,
    ensures
        performed(m, op_ni(0xC400, 0, d)) == taken(m, 0, at(m.gbr + d), 1),
        performed(m, op_ni(0xC500, 0, d)) == taken(m, 0, at(m.gbr + 2 * d), 2),
        performed(m, op_ni(0xC600, 0, d)) == taken(m, 0, at(m.gbr + 4 * d), 4),
        performed(m, op_ni(0xC000, 0, d)) == put(m, at(m.gbr + d), m.r[0], 1),
        performed(m, op_ni(0xC100, 0, d)) == put(m, at(m.gbr + 2 * d), m.r[0], 2),
        performed(m, op_ni(0xC200, 0, d)) == put(m, at(m.gbr + 4 * d), m.r[0], 4),
{
    reveal(group_c);
    cut_to_32_bits(m.gbr, (1 * d) as u32);
    cut_to_32_bits(m.gbr, (2 * d) as u32);
    cut_to_32_bits(m.gbr, (4 * d) as u32);
    signs_are_extended(m, 0, at(m.gbr + 1 * d));
    signs_are_extended(m, 0, at(m.gbr + 2 * d));
    signs_are_extended(m, 0, at(m.gbr + 4 * d));
    fields_i(0xC, 4, d);
    plain_of_group(m, op_ni(0xC400, 0, d));
    fields_i(0xC, 5, d);
    plain_of_group(m, op_ni(0xC500, 0, d));
    fields_i(0xC, 6, d);
    plain_of_group(m, op_ni(0xC600, 0, d));
    fields_i(0xC, 0, d);
    plain_of_group(m, op_ni(0xC000, 0, d));
    fields_i(0xC, 1, d);
    plain_of_group(m, op_ni(0xC100, 0, d));
    fields_i(0xC, 2, d);
    plain_of_group(m, op_ni(0xC200, 0, d));
}

/// MOV @(disp,PC) counts from two instructions on, on the grid of what it moves; MOVA gives the
/// address itself.
#[verifier::spinoff_prover]
pub proof fn loads_by_pc(m: Machine, n: int, d: int)
    requires
        m.r.len() == 16,
        is_reg(n),
        0 <= d < 256,
    ensures
        performed(m, op_ni(0x9000, n, d)) == taken(m, n, at(at(m.pc + 2) / 2 * 2 + 2 * d), 2),
        performed(m, op_ni(0xD000, n, d)) == taken(m, n, at(at(m.pc + 2) / 4 * 4 + 4 * d), 4),
        performed(m, op_ni(0xC700, 0, d)) == set(m, 0, at(m.pc + 2) / 4 * 4 + 4 * d),
{
    cut_to_32_bits(m.pc, 2);
    cut_to_32_bits(word_base(m.pc), (2 * d) as u32);
    cut_to_32_bits(long_base(m.pc), (4 * d) as u32);
    signs_are_extended(m, n, at(at(m.pc + 2) / 2 * 2 + 2 * d));
    signs_are_extended(m, n, at(at(m.pc + 2) / 4 * 4 + 4 * d));
    fields_ni(9, n, 0, d);
    plain_of_top(m, op_ni(0x9000, n, d));
    fields_ni(0xD, n, 0, d);
    plain_of_top(m, op_ni(0xD000, n, d));
    assert(performed(m, op_ni(0xC700, 0, d)) == set(m, 0, at(m.pc + 2) / 4 * 4 + 4 * d)) by {
        reveal(group_c);
        fields_i(0xC, 7, d);
        plain_of_group(m, op_ni(0xC700, 0, d));
    }
}

/// LDS.L and LDC.L take a special register from where Rn points, and move Rn on. Of SR only the
/// bits that exist are taken.
#[verifier::spinoff_prover]
pub proof fn special_registers_are_popped(m: Machine, n: int)
    requires
        m.r.len() == 16,
        is_reg(n),
    ensures
        ({
            let (b, v) = load32(m.bus, m.r[n]);
            let popped = set(Machine { bus: b, ..m }, n, m.r[n] + 4);
            &&& performed(m, op_ni(0x4006, n, 0)) == (Machine { mach: v, ..popped })
            &&& performed(m, op_ni(0x4016, n, 0)) == (Machine { macl: v, ..popped })
            &&& performed(m, op_ni(0x4026, n, 0)) == (Machine { pr: v, ..popped })
            &&& performed(m, op_ni(0x4007, n, 0)) == (Machine { sr: v & 0x3F3, ..popped })
            &&& performed(m, op_ni(0x4017, n, 0)) == (Machine { gbr: v, ..popped })
            &&& performed(m, op_ni(0x4027, n, 0)) == (Machine { vbr: v, ..popped })
        }),
{
    reveal(group4_mem);
    cut_to_32_bits(m.r[n], 4);
    fields_ni(4, n, 0x06, 0);
    plain_of_group(m, op_ni(0x4006, n, 0));
    fields_ni(4, n, 0x16, 0);
    plain_of_group(m, op_ni(0x4016, n, 0));
    fields_ni(4, n, 0x26, 0);
    plain_of_group(m, op_ni(0x4026, n, 0));
    fields_ni(4, n, 0x07, 0);
    plain_of_group(m, op_ni(0x4007, n, 0));
    fields_ni(4, n, 0x17, 0);
    plain_of_group(m, op_ni(0x4017, n, 0));
    fields_ni(4, n, 0x27, 0);
    plain_of_group(m, op_ni(0x4027, n, 0));
}

/// STS.L and STC.L move Rn back and store a special register there.
#[verifier::spinoff_prover]
pub proof fn special_registers_are_pushed(m: Machine, n: int)
    requires
        m.r.len() == 16,
        is_reg(n),
    ensures
        ({
            let a = m.r[n] - 4;
            &&& performed(m, op_ni(0x4002, n, 0)) == set(put(m, at(a), m.mach, 4), n, a)
            &&& performed(m, op_ni(0x4012, n, 0)) == set(put(m, at(a), m.macl, 4), n, a)
            &&& performed(m, op_ni(0x4022, n, 0)) == set(put(m, at(a), m.pr, 4), n, a)
            &&& performed(m, op_ni(0x4003, n, 0)) == set(put(m, at(a), m.sr, 4), n, a)
            &&& performed(m, op_ni(0x4013, n, 0)) == set(put(m, at(a), m.gbr, 4), n, a)
            &&& performed(m, op_ni(0x4023, n, 0)) == set(put(m, at(a), m.vbr, 4), n, a)
        }),
{
    reveal(group4_mem);
    cut_to_32_bits(m.r[n], 4);
    fields_ni(4, n, 0x02, 0);
    plain_of_group(m, op_ni(0x4002, n, 0));
    fields_ni(4, n, 0x12, 0);
    plain_of_group(m, op_ni(0x4012, n, 0));
    fields_ni(4, n, 0x22, 0);
    plain_of_group(m, op_ni(0x4022, n, 0));
    fields_ni(4, n, 0x03, 0);
    plain_of_group(m, op_ni(0x4003, n, 0));
    fields_ni(4, n, 0x13, 0);
    plain_of_group(m, op_ni(0x4013, n, 0));
    fields_ni(4, n, 0x23, 0);
    plain_of_group(m, op_ni(0x4023, n, 0));
}

/// TST.B, AND.B, XOR.B and OR.B work on the byte at the sum of R0 and GBR: the first one tests it,
/// the others store it back.
#[verifier::spinoff_prover]
pub proof fn bytes_are_changed_in_place(m: Machine, i: int)
    requires
        m.r.len() == 16,
        0 <= i < 256,
    ensures
        ({
            let a = at(m.r[0] + m.gbr);
            let (b, v) = load8(m.bus, a);
            let imm = i as u8;
            let tested = performed(m, op_ni(0xCC00, 0, i));
            &&& tested == (Machine { bus: b, sr: tested.sr, ..m })
            &&& tested.t() == (v & imm == 0)
            &&& performed(m, op_ni(0xCD00, 0, i)) == (Machine {
                bus: store8(b, a, v & imm),
                ..m
            })
            &&& performed(m, op_ni(0xCE00, 0, i)) == (Machine {
                bus: store8(b, a, v ^ imm),
                ..m
            })
            &&& performed(m, op_ni(0xCF00, 0, i)) == (Machine {
                bus: store8(b, a, v | imm),
                ..m
            })
        }),
{
    reveal(group_c);
    cut_to_32_bits(m.gbr, m.r[0]);
    assert(at(m.gbr + m.r[0]) == at(m.r[0] + m.gbr));
    let v = load8(m.bus, at(m.r[0] + m.gbr)).1;
    flags_are_independent(m.sr, v & (i as u8) == 0);
    fields_i(0xC, 0xC, i);
    plain_of_group(m, op_ni(0xCC00, 0, i));
    fields_i(0xC, 0xD, i);
    plain_of_group(m, op_ni(0xCD00, 0, i));
    fields_i(0xC, 0xE, i);
    plain_of_group(m, op_ni(0xCE00, 0, i));
    fields_i(0xC, 0xF, i);
    plain_of_group(m, op_ni(0xCF00, 0, i));
}

/// Entering an exception stores SR and then PC below the stack pointer, which moves down by
/// eight, and goes on where the entry of the vector table points. TRAPA does so.
#[verifier::spinoff_prover]
pub proof fn exceptions_save_the_state(m: Machine, i: int)
    requires
        m.r.len() == 16,
        0 <= i < 256,
    ensures
        ({
            let sp = m.r[15] as int;
            let b = store32(store32(m.bus, at(sp - 4), m.sr), at(sp - 8), m.pc);
            let (b1, target) = load32(b, at(m.vbr + 4 * i));
            performed(m, op_ni(0xC300, 0, i)) == (Machine {
                pc: target,
                bus: b1,
                ..set(m, 15, sp - 8)
            })
        }),
{
    reveal(group_c);
    reveal(entered);
    cut_to_32_bits(m.r[15], 4);
    cut_to_32_bits(at(m.r[15] - 4), 4);
    assert(at(at(m.r[15] - 4) - 4) == at(m.r[15] - 8));
    cut_to_32_bits(m.vbr, (i * 4) as u32);
    fields_i(0xC, 3, i);
    plain_of_group(m, op_ni(0xC300, 0, i));
}

/// BT and BF go by a signed number of instructions from two instructions on, when T is set or
/// clear, and else do nothing.
#[verifier::spinoff_prover]
pub proof fn short_branches_follow_the_flag(m: Machine, i: int)
    requires
        m.r.len() == 16,
        0 <= i < 256,
    ensures
        performed(m, op_ni(0x8900, 0, i)) == if m.t() {
            Machine { pc: at(m.pc + 2 + 2 * signed_byte(i)), ..m }
        } else {
            m
        },
        performed(m, op_ni(0x8B00, 0, i)) == if m.t() {
            m
        } else {
            Machine { pc: at(m.pc + 2 + 2 * signed_byte(i)), ..m }
        },
{
    reveal(group8);
    fields_i(8, 9, i);
    plain_of_group(m, op_ni(0x8900, 0, i));
    fields_i(8, 0xB, i);
    plain_of_group(m, op_ni(0x8B00, 0, i));
}

/// Whether a branch with a delay slot leads to a target: the instruction behind it, which is
/// none of those itself and does not move the program counter, is carried out, and the program
/// goes on at the target.
pub open spec fn goes_to(m: Machine, after: Machine, target: u32) -> bool {
    let (b, slot) = load16(m.bus, m.pc);
    let before = Machine { pc: at(target - 2), bus: b, ..m };
    let done = performed(before, slot);
    !may_branch(slot) && done.pc == before.pc ==> after == (Machine {
        pc: target,
        bus: waited(done.bus, base_cycles(slot, m.t())),
        ..done
    })
}

#[verifier::spinoff_prover]
proof fn slot_is_carried_out(m: Machine, op: u16, from: Machine, target: u32)
    requires
        branch_of(m, op) == Some((from, target)),
    ensures
        goes_to(from, performed(m, op), target),
{
    reveal(performed);
    let (b, slot) = load16(from.bus, from.pc);
    let before = Machine { pc: at(target - 2), bus: b, ..from };
    cut_to_32_bits(target, 2);
    if !may_branch(slot) {
        plain_of_group(before, slot);
        assert(performed(m, op) == delay_slot(from, target, NESTING_LIMIT as nat));
        not_a_branch(before, slot);
        assert(executed(before, slot, (NESTING_LIMIT - 1) as nat) == plain_executed(before, slot));
        cut_to_32_bits(before.pc, 2);
    }
}

#[verifier::spinoff_prover]
proof fn not_a_branch(m: Machine, op: u16)
    requires
        !may_branch(op),
    ensures
        branch_of(m, op) is None,
{
    reveal(branch_of);
    assert(op / 0x100 == 0x8D ==> op / 0x1000 == 8 && op_n(op) == 0xD);
    assert(op / 0x100 == 0x8F ==> op / 0x1000 == 8 && op_n(op) == 0xF);
}

/// A displacement of twelve bits as a signed number.
pub open spec fn signed_12(d: int) -> int {
    if d < 0x800 {
        d
    } else {
        d - 0x1000
    }
}


/// BRA goes by a signed number of instructions from two instructions on, and BSR also notes the
/// address behind its delay slot in PR.
#[verifier::spinoff_prover]
pub proof fn long_branches_go_by_instructions(m: Machine, d: int)
    requires
        m.r.len() == 16,
        0 <= d < 0x1000,
    ensures
        goes_to(m, performed(m, (0xA000 + d) as u16), at(m.pc + 2 + 2 * signed_12(d))),
        goes_to(
            Machine { pr: at(m.pc + 2), ..m },
            performed(m, (0xB000 + d) as u16),
            at(m.pc + 2 + 2 * signed_12(d)),
        ),
{
    let target = at(m.pc + 2 + 2 * signed_12(d));
    let link = Machine { pr: at(m.pc + 2), ..m };
    cut_to_32_bits(m.pc, 2);
    let a: u16 = (0xA000 + d) as u16;
    let b: u16 = (0xB000 + d) as u16;
    assert(a / 0x1000 == 0xA && a as int % 0x1000 == d && b / 0x1000 == 0xB && b as int % 0x1000 == d);
    assert(branch_of(m, a) == Some((m, target)) && branch_of(m, b) == Some((link, target))) by {
        reveal(branch_of);
    }
    slot_is_carried_out(m, a, m, target);
    slot_is_carried_out(m, b, link, target);
}

/// BT/S and BF/S do likewise by a byte when T is set or clear, and else do nothing.
#[verifier::spinoff_prover]
pub proof fn flag_branches_with_a_slot(m: Machine, i: int)
    requires
        m.r.len() == 16,
        0 <= i < 256,
    ensures
        m.t() ==> goes_to(
            m,
            performed(m, op_ni(0x8D00, 0, i)),
            at(m.pc + 2 + 2 * signed_byte(i)),
        ),
        !m.t() ==> performed(m, op_ni(0x8D00, 0, i)) == m,
        !m.t() ==> goes_to(
            m,
            performed(m, op_ni(0x8F00, 0, i)),
            at(m.pc + 2 + 2 * signed_byte(i)),
        ),
        m.t() ==> performed(m, op_ni(0x8F00, 0, i)) == m,
{
    let target = at(m.pc + 2 + 2 * signed_byte(i));
    let a = op_ni(0x8D00, 0, i);
    let b = op_ni(0x8F00, 0, i);
    fields_i(8, 0xD, i);
    fields_i(8, 0xF, i);
    assert(a / 0x100 == 0x8D && b / 0x100 == 0x8F) by {
        reveal(op_ni);
    }
    if m.t() {
        assert(branch_of(m, a) == Some((m, target)) && branch_of(m, b) is None) by {
            reveal(branch_of);
        }
        slot_is_carried_out(m, a, m, target);
        reveal(performed);
        reveal(plain_executed);
        reveal(group8);
    } else {
        assert(branch_of(m, b) == Some((m, target)) && branch_of(m, a) is None) by {
            reveal(branch_of);
        }
        slot_is_carried_out(m, b, m, target);
        reveal(performed);
        reveal(plain_executed);
        reveal(group8);
    }
}

/// JMP and JSR go where Rn points, BRAF and BSRF by Rn from two instructions on, and RTS where PR
/// points. JSR and BSRF note the address behind their delay slot in PR.
#[verifier::spinoff_prover]
pub proof fn jumps_go_by_register(m: Machine, n: int)
    requires
        m.r.len() == 16,
        is_reg(n),
    ensures
        goes_to(m, performed(m, op_ni(0x402B, n, 0)), m.r[n]),
        goes_to(
            Machine { pr: at(m.pc + 2), ..m },
            performed(m, op_ni(0x400B, n, 0)),
            m.r[n],
        ),
        goes_to(m, performed(m, op_ni(0x0023, n, 0)), at(m.pc + 2 + m.r[n])),
        goes_to(
            Machine { pr: at(m.pc + 2), ..m },
            performed(m, op_ni(0x0003, n, 0)),
            at(m.pc + 2 + m.r[n]),
        ),
        goes_to(m, performed(m, 0x000B), m.pr),
{
    let link = Machine { pr: at(m.pc + 2), ..m };
    let far = at(m.pc + 2 + m.r[n]);
    cut_to_32_bits(m.pc, 2);
    cut_to_32_bits(at(m.pc + 2), m.r[n]);
    assert(at(at(m.pc + 2) + m.r[n]) == far);
    fields_ni(4, n, 0x2B, 0);
    fields_ni(4, n, 0x0B, 0);
    fields_ni(0, n, 0x23, 0);
    fields_ni(0, n, 0x03, 0);
    assert(branch_of(m, op_ni(0x402B, n, 0)) == Some((m, m.r[n]))) by {
        reveal(branch_of);
    }
    assert(branch_of(m, op_ni(0x400B, n, 0)) == Some((link, m.r[n]))) by {
        reveal(branch_of);
    }
    assert(branch_of(m, op_ni(0x0023, n, 0)) == Some((m, far))) by {
        reveal(branch_of);
    }
    assert(branch_of(m, op_ni(0x0003, n, 0)) == Some((link, far))) by {
        reveal(branch_of);
    }
    assert(branch_of(m, 0x000B) == Some((m, m.pr))) by {
        reveal(branch_of);
    }
    slot_is_carried_out(m, op_ni(0x402B, n, 0), m, m.r[n]);
    slot_is_carried_out(m, op_ni(0x400B, n, 0), link, m.r[n]);
    slot_is_carried_out(m, op_ni(0x0023, n, 0), m, far);
    slot_is_carried_out(m, op_ni(0x0003, n, 0), link, far);
    slot_is_carried_out(m, 0x000B, m, m.pr);
}

/// RTE takes PC and then SR from the stack.
#[verifier::spinoff_prover]
pub proof fn rte_restores_the_state(m: Machine)
    requires
        m.r.len() == 16,
    ensures
        ({
            let sp = m.r[15] as int;
            let (b1, pc) = load32(m.bus, at(sp));
            let (b2, sr) = load32(b1, at(sp + 4));
            goes_to(
                Machine { sr: sr & 0x3F3, bus: b2, ..set(m, 15, sp + 8) },
                performed(m, 0x002B),
                pc,
            )
        }),
{
    let sp = m.r[15] as int;
    let (b1, pc) = load32(m.bus, at(sp));
    let (b2, sr) = load32(b1, at(sp + 4));
    let from = Machine { sr: sr & 0x3F3, bus: b2, ..set(m, 15, sp + 8) };
    cut_to_32_bits(m.r[15], 4);
    cut_to_32_bits(m.r[15], 8);
    assert(branch_of(m, 0x002B) == Some((from, pc))) by {
        reveal(branch_of);
    }
    slot_is_carried_out(m, 0x002B, from, pc);
}

/// The register and the flags of a division step, with the sign bits taken for the top of the
/// numbers: the remainder is doubled, the next bit of the dividend comes in, and the divisor is
/// subtracted where the signs are the same and added where they differ.
#[verifier::spinoff_prover]
proof fn division_step(rn: u32, rm: u32, sr: u32)
    requires
        rm != 0,
        ({
            let r = rn - 0x1_0000_0000 * one_if(sr_has(sr, SR_Q));
            let d = rm - 0x1_0000_0000 * one_if(sr_has(sr, SR_M));
            let size = if d < 0 {
                -d
            } else {
                d
            };
            -size <= r < size
        }),
    ensures
        ({
            let q = sr_has(sr, SR_Q);
            let md = sr_has(sr, SR_M);
            let r = rn - 0x1_0000_0000 * one_if(q);
            let d = rm - 0x1_0000_0000 * one_if(md);
            let (rn1, sr1) = div_step(rn, rm, sr);
            let q1 = sr_has(sr1, SR_Q);
            let r1 = rn1 - 0x1_0000_0000 * one_if(q1);
            &&& r1 == 2 * r + one_if(sr_has(sr, SR_T)) + if q == md {
                -d
            } else {
                d
            }
            &&& sr_has(sr1, SR_M) == md
            &&& sr_has(sr1, SR_T) == (q1 == md)
        }),
{
    let shifted_q = rn >= 0x8000_0000;
    let sr1 = sr_with(sr, SR_Q, shifted_q);
    flags_are_independent(sr, shifted_q);
    let t = one_if(sr_has(sr, SR_T));
    let tmp = (rn.wrapping_mul(2) + t) as u32;
    assert(tmp == 2 * rn + t - 0x1_0000_0000 * one_if(shifted_q));
    let old_q = sr_has(sr, SR_Q);
    let md = sr_has(sr, SR_M);
    let r = if old_q == md {
        tmp.wrapping_sub(rm)
    } else {
        tmp.wrapping_add(rm)
    };
    cut_to_32_bits(tmp, rm);
    let carried = if old_q == md {
        r > tmp
    } else {
        r < tmp
    };
    let new_q = if shifted_q == md {
        carried
    } else {
        !carried
    };
    let sr2 = sr_with(sr1, SR_Q, new_q);
    flags_are_independent(sr1, new_q);
    flags_are_independent(sr2, new_q == md);
}


/// DIV1 takes one step of a division. With Q for the sign of the remainder in Rn and M for that of
/// the divisor in Rm, the remainder is doubled, T comes in as the next bit of the dividend, and
/// the divisor is subtracted where the signs are the same and added where they differ. The
/// remainder stays within the divisor, and T is the next bit of the quotient: set where the
/// signs are then the same.
#[verifier::spinoff_prover]
pub proof fn division_goes_bit_by_bit(m: Machine, n: int, k: int)
    requires
        m.r.len() == 16,
        is_reg(n),
        is_reg(k),
        m.r[k] != 0,
        n != k,
        ({
            let r = m.r[n] - 0x1_0000_0000 * one_if(sr_has(m.sr, SR_Q));
            let d = m.r[k] - 0x1_0000_0000 * one_if(sr_has(m.sr, SR_M));
            let size = if d < 0 {
                -d
            } else {
                d
            };
            -size <= r < size
        }),
    ensures
        ({
            let after = performed(m, op_nm(0x3004, n, k));
            let q = sr_has(m.sr, SR_Q);
            let md = sr_has(m.sr, SR_M);
            let q1 = sr_has(after.sr, SR_Q);
            let r = m.r[n] - 0x1_0000_0000 * one_if(q);
            let d = m.r[k] - 0x1_0000_0000 * one_if(md);
            let size = if d < 0 {
                -d
            } else {
                d
            };
            let r1 = after.r[n] - 0x1_0000_0000 * one_if(q1);
            &&& r1 == 2 * r + one_if(m.t()) + if q == md {
                -d
            } else {
                d
            }
            &&& -size <= r1 < size
            &&& sr_has(after.sr, SR_M) == md
            &&& after.t() == (q1 == md)
            &&& after == (Machine { sr: after.sr, r: m.r.update(n, after.r[n]), ..m })
        }),
{
    reveal(group3);
    fields_nm(3, n, k, 4);
    plain_of_group(m, op_nm(0x3004, n, k));
    division_step(m.r[n], m.r[k], m.sr);
}

/// A number below 2^63 in two registers.
#[verifier::spinoff_prover]
proof fn two_registers(i: int)
    ensures
        high32(i) * 0x1_0000_0000 + wrap32(i) == i % 0x1_0000_0000_0000_0000,
        wrap64(i) % 0x1_0000_0000_0000_0000 == i % 0x1_0000_0000_0000_0000,
        -0x8000_0000_0000_0000 <= i < 0x8000_0000_0000_0000 ==> wrap64(i) == i,
{
    let lo = i % 0x1_0000_0000;
    let hi = i / 0x1_0000_0000;
    assert(i == hi * 0x1_0000_0000 + lo);
    let a = hi % 0x1_0000_0000;
    let b = hi / 0x1_0000_0000;
    assert(hi == b * 0x1_0000_0000 + a);
    assert(i == b * 0x1_0000_0000_0000_0000 + a * 0x1_0000_0000 + lo);
}


/// Multiply-accumulate on long words: without the S flag the signed product is added to the 64
/// bits of MACH and MACL, which wrap around. With it the sum is kept within 48 bits, at the end
/// that the product leads to.
#[verifier::spinoff_prover]
pub proof fn long_words_accumulate(mach: u32, macl: u32, a: u32, b: u32)
    ensures
        ({
            let (h, l) = mac_long(mach, macl, a, b, false);
            h * 0x1_0000_0000 + l == (mach * 0x1_0000_0000 + macl + signed(a) * signed(b))
                % 0x1_0000_0000_0000_0000
        }),
        ({
            let (h, l) = mac_long(mach, macl, a, b, true);
            let sum = signed(mach) * 0x1_0000_0000 + macl + signed(a) * signed(b);
            let kept = signed(h) * 0x1_0000_0000 + l;
            -0x8000_0000_0000_0000 <= sum < 0x8000_0000_0000_0000 ==> kept == if
                -0x8000_0000_0000 <= sum <= 0x7FFF_FFFF_FFFF {
                sum
            } else if signed(a) * signed(b) < 0 {
                -0x8000_0000_0000
            } else {
                0x7FFF_FFFF_FFFF
            }
        }),
{
    let p = signed(a) * signed(b);
    let sum = signed(mach) * 0x1_0000_0000 + macl + p;
    two_registers(sum);
    two_registers(wrap64(sum));
    let kept = saturated(wrap64(sum), p, -0x8000_0000_0000, 0x7FFF_FFFF_FFFF);
    two_registers(kept);
    let plain = mach * 0x1_0000_0000 + macl + p;
    assert(plain == sum || plain == sum + 0x1_0000_0000_0000_0000);
    assert(plain % 0x1_0000_0000_0000_0000 == sum % 0x1_0000_0000_0000_0000);
    signed_halves(kept);
}

/// A number within 63 bits is what its two registers say.
#[verifier::spinoff_prover]
proof fn signed_halves(i: int)
    ensures
        -0x8000_0000_0000_0000 <= i < 0x8000_0000_0000_0000 ==> signed(high32(i)) * 0x1_0000_0000
            + wrap32(i) == i,
{
    let lo = i % 0x1_0000_0000;
    let hi = i / 0x1_0000_0000;
    assert(i == hi * 0x1_0000_0000 + lo);
}

/// A word as a signed number.
pub open spec fn signed_word(x: u16) -> int {
    if x < 0x8000 {
        x as int
    } else {
        x - 0x1_0000
    }
}

/// Multiply-accumulate on words: the signed product is added to MACL as a signed number. With the S
/// flag the sum is kept within 32 bits, at the end that the product leads to, and the lowest bit
/// of MACH says that it did not fit; without it the sum has its sign in MACH.
#[verifier::spinoff_prover]
pub proof fn words_accumulate(mach: u32, macl: u32, a: u16, b: u16)
    ensures
        ({
            let (h, l) = mac_word(mach, macl, a, b, false);
            signed(h) * 0x1_0000_0000 + l == signed(macl) + signed_word(a) * signed_word(b)
        }),
        ({
            let (h, l) = mac_word(mach, macl, a, b, true);
            let sum = signed(macl) + signed_word(a) * signed_word(b);
            if -0x8000_0000 <= sum <= 0x7FFF_FFFF {
                signed(l) == sum && h == mach
            } else {
                h == mach | 1 && signed(l) == if signed_word(a) * signed_word(b) < 0 {
                    -0x8000_0000
                } else {
                    0x7FFF_FFFF
                }
            }
        }),
{
    let p = signed_word(a) * signed_word(b);
    assert(-0x4000_8000 <= p <= 0x4000_0000) by (nonlinear_arith)
        requires
            p == signed_word(a) * signed_word(b),
            -0x8000 <= signed_word(a) < 0x8000,
            -0x8000 <= signed_word(b) < 0x8000,
    ;
    let sum = signed(macl) + p;
    assert(s16(a as u32) == signed_word(a) && s16(b as u32) == signed_word(b));
    signed_halves(sum);
    let kept = saturated(sum, p, -0x8000_0000, 0x7FFF_FFFF);
    assert(signed(wrap32(kept)) == kept);
}


/// MAC.L and MAC.W take their factors from where Rn and Rm point, in that order for long words and
/// in the other for words, and move both on.
#[verifier::spinoff_prover]
pub proof fn products_are_accumulated(m: Machine, n: int, k: int)
    requires
        m.r.len() == 16,
        is_reg(n),
        is_reg(k),
        n != k,
    ensures
        ({
            let (b1, x) = load32(m.bus, m.r[n]);
            let (b2, y) = load32(b1, m.r[k]);
            let (h, l) = mac_long(m.mach, m.macl, x, y, sr_has(m.sr, SR_S));
            performed(m, op_nm(0x000F, n, k)) == (Machine {
                mach: h,
                macl: l,
                bus: b2,
                ..set(set(m, n, m.r[n] + 4), k, m.r[k] + 4)
            })
        }),
        ({
            let (b1, x) = load16(m.bus, m.r[k]);
            let (b2, y) = load16(b1, m.r[n]);
            let (h, l) = mac_word(m.mach, m.macl, x, y, sr_has(m.sr, SR_S));
            performed(m, op_nm(0x400F, n, k)) == (Machine {
                mach: h,
                macl: l,
                bus: b2,
                ..set(set(m, k, m.r[k] + 2), n, m.r[n] + 2)
            })
        }),
{
    cut_to_32_bits(m.r[n], 4);
    cut_to_32_bits(m.r[k], 4);
    cut_to_32_bits(m.r[n], 2);
    cut_to_32_bits(m.r[k], 2);
    reveal(group0);
    reveal(group4_mem);
    reveal(mac_l);
    reveal(mac_w);
    fields_nm(0, n, k, 0xF);
    plain_of_group(m, op_nm(0x000F, n, k));
    fields_nm(4, n, k, 0xF);
    plain_of_group(m, op_nm(0x400F, n, k));
}

/// How many cycles an instruction takes: one, where nothing else is said. Branches take two, the
/// conditional ones without a slot three when they are taken and all of them one when not; long
/// multiplications two, and accumulating ones three; popping a control register or
/// changing a byte in place three, TAS and RTE four, and TRAPA eight.
#[verifier::spinoff_prover]
pub proof fn instructions_take_their_cycles(n: int, k: int, i: int, t: bool)
    requires
        is_reg(n),
        is_reg(k),
        0 <= i < 256,
    ensures
        base_cycles(op_nm(0x6003, n, k), t) == 1,
        base_cycles(op_nm(0x300C, n, k), t) == 1,
        base_cycles(op_nm(0x6002, n, k), t) == 1,
        base_cycles(op_nm(0x2002, n, k), t) == 1,
        base_cycles(op_ni(0xE000, n, i), t) == 1,
        base_cycles(op_ni(0x7000, n, i), t) == 1,
        base_cycles(op_nm(0x3004, n, k), t) == 1,
        base_cycles(op_ni(0x8900, 0, i), t) == 1 + 2 * one_if(t),
        base_cycles(op_ni(0x8B00, 0, i), t) == 3 - 2 * one_if(t),
        base_cycles(op_ni(0x8D00, 0, i), t) == 1 + one_if(t),
        base_cycles(op_ni(0x8F00, 0, i), t) == 2 - one_if(t),
        base_cycles(op_ni(0xA000, n, i), t) == 2,
        base_cycles(op_ni(0xB000, n, i), t) == 2,
        base_cycles(op_ni(0x402B, n, 0), t) == 2,
        base_cycles(op_ni(0x400B, n, 0), t) == 2,
        base_cycles(op_ni(0x0023, n, 0), t) == 2,
        base_cycles(op_ni(0x0003, n, 0), t) == 2,
        base_cycles(0x000B, t) == 2,
        base_cycles(op_nm(0x0007, n, k), t) == 2,
        base_cycles(op_nm(0x3005, n, k), t) == 2,
        base_cycles(op_nm(0x300D, n, k), t) == 2,
        base_cycles(op_nm(0x000F, n, k), t) == 3,
        base_cycles(op_ni(0x4007, n, 0), t) == 3,
        base_cycles(op_ni(0x4017, n, 0), t) == 3,
        base_cycles(op_ni(0x4027, n, 0), t) == 3,
        base_cycles(op_ni(0xCC00, 0, i), t) == 3,
        base_cycles(op_ni(0xCD00, 0, i), t) == 3,
        base_cycles(op_ni(0xCE00, 0, i), t) == 3,
        base_cycles(op_ni(0xCF00, 0, i), t) == 3,
        base_cycles(0x001B, t) == 3,
        base_cycles(op_ni(0x401B, n, 0), t) == 4,
        base_cycles(0x002B, t) == 4,
        base_cycles(op_ni(0xC300, 0, i), t) == 8,
{
    reveal(op_nm);
    reveal(op_ni);
}


} // verus!
