//! What the instructions compute, as arithmetic on the numbers in the registers.

use crate::arith::{s32, wrap32};
use crate::sh2::alu::{
    add_carry, flags_are_independent, overflows32, sext8, sr_has, sr_with, sub_borrow, SR_M, SR_Q,
};
use crate::sh2::exec::{
    group0, group2, group3, group4_mem, group4_regs, group6, group8, group_c, is_group4_regs,
    op_d4, op_d8, op_m, op_n, plain_executed,
};
use crate::sh2::step::{branch_of, executed, performed};
use crate::sh2::store::NESTING_LIMIT;
use crate::sh2::Machine;
use vstd::prelude::*;

verus! {

/// An opcode with two register fields.
#[verifier::opaque]
pub open spec fn op_nm(base: int, n: int, k: int) -> u16 {
    (base + n * 0x100 + k * 0x10) as u16
}

/// An opcode with one register field and eight more bits.
#[verifier::opaque]
pub open spec fn op_ni(base: int, n: int, i: int) -> u16 {
    (base + n * 0x100 + i) as u16
}

/// Whether a number names a register.
pub open spec fn is_reg(n: int) -> bool {
    0 <= n < 16
}

/// A register as a signed number.
pub open spec fn signed(x: u32) -> int {
    if x < 0x8000_0000 {
        x as int
    } else {
        x - 0x1_0000_0000
    }
}

/// The lowest `size` values of a register as a signed number: bytes and words.
pub open spec fn signed_low(x: u32, size: int) -> int {
    let low = x as int % size;
    if low < size / 2 {
        low
    } else {
        low - size
    }
}

/// An immediate byte as a signed number.
pub open spec fn signed_byte(i: int) -> int {
    if i < 128 {
        i
    } else {
        i - 256
    }
}

/// A truth value as a number.
pub open spec fn one_if(b: bool) -> int {
    if b {
        1
    } else {
        0
    }
}

/// The `j`th byte of a register, from the right.
pub open spec fn byte_of(x: u32, j: int) -> int {
    if j == 0 {
        x as int % 0x100
    } else if j == 1 {
        x as int / 0x100 % 0x100
    } else if j == 2 {
        x as int / 0x1_0000 % 0x100
    } else {
        x as int / 0x100_0000
    }
}

/// The fields of an opcode with two register fields.
pub(crate) proof fn fields_nm(t: int, n: int, k: int, d: int)
    requires
        is_reg(t),
        is_reg(n),
        is_reg(k),
        is_reg(d),
    ensures
        ({
            let op = op_nm(t * 0x1000 + d, n, k);
            &&& op / 0x1000 == t
            &&& op_n(op) == n
            &&& op_m(op) == k
            &&& op_d4(op) == d
            &&& op_d8(op) == k * 0x10 + d
        }),
{
    reveal(op_nm);
    let v = t * 0x1000 + d + n * 0x100 + k * 0x10;
    assert(v / 0x10 == t * 0x100 + n * 0x10 + k && v % 0x10 == d);
    assert(v / 0x100 == t * 0x10 + n && v % 0x100 == k * 0x10 + d);
    assert(v / 0x1000 == t);
}

/// The fields of an opcode with one register field; its low byte may be an immediate value.
pub(crate) proof fn fields_ni(t: int, n: int, d: int, i: int)
    requires
        is_reg(t),
        is_reg(n),
        0 <= d,
        0 <= i,
        d + i < 256,
    ensures
        ({
            let op = op_ni(t * 0x1000 + d, n, i);
            &&& op / 0x1000 == t
            &&& op_n(op) == n
            &&& op_m(op) == (d + i) / 16
            &&& op_d4(op) == (d + i) % 16
            &&& op_d8(op) == d + i
        }),
{
    reveal(op_ni);
}

/// The fields of an opcode with an immediate value only.
pub(crate) proof fn fields_i(t: int, s: int, i: int)
    requires
        is_reg(t),
        is_reg(s),
        0 <= i < 256,
    ensures
        ({
            let op = op_ni(t * 0x1000 + s * 0x100, 0, i);
            &&& op / 0x1000 == t
            &&& op_n(op) == s
            &&& op_m(op) == i / 16
            &&& op_d4(op) == i % 16
            &&& op_d8(op) == i
        }),
{
    reveal(op_ni);
}

/// Sums, differences and multiples are cut to 32 bits.
#[verifier::spinoff_prover]
pub(crate) proof fn cut_to_32_bits(a: u32, b: u32)
    ensures
        a.wrapping_add(b) == (a + b) % 0x1_0000_0000,
        a.wrapping_sub(b) == (a - b) % 0x1_0000_0000,
{
}

/// So are multiples.
#[verifier::spinoff_prover]
proof fn multiples_are_cut(a: u32)
    ensures
        a.wrapping_mul(2) == 2 * a % 0x1_0000_0000,
        a.wrapping_mul(4) == a * 4 % 0x1_0000_0000,
        a.wrapping_mul(0x100) == a * 0x100 % 0x1_0000_0000,
        a.wrapping_mul(0x1_0000) == a * 0x1_0000 % 0x1_0000_0000,
{
}

/// Sum and carry, difference and borrow.
#[verifier::spinoff_prover]
proof fn carries(a: u32, b: u32, c: bool)
    ensures
        add_carry(a, b, c).0 + 0x1_0000_0000 * one_if(add_carry(a, b, c).1) == a + b + one_if(c),
        sub_borrow(a, b, c).0 - 0x1_0000_0000 * one_if(sub_borrow(a, b, c).1) == a - b - one_if(c),
{
}

/// Signed sums and differences, and whether they fit.
#[verifier::spinoff_prover]
proof fn signed_results(a: u32, b: u32)
    ensures
        wrap32(s32(a) + s32(b)) == (a + b) % 0x1_0000_0000,
        wrap32(s32(a) - s32(b)) == (a - b) % 0x1_0000_0000,
        overflows32(s32(a) + s32(b)) <==> signed(wrap32(s32(a) + s32(b))) != signed(a) + signed(b),
        overflows32(s32(a) - s32(b)) <==> signed(wrap32(s32(a) - s32(b))) != signed(a) - signed(b),
{
}

/// Half of a signed number.
#[verifier::spinoff_prover]
proof fn halves(a: u32)
    ensures
        2 * signed(wrap32(s32(a) / 2)) + one_if(a % 2 == 1) == signed(a),
{
}

/// The bytes of a register taken apart and put together.
#[verifier::spinoff_prover]
pub(crate) proof fn bytes_put_together(x: u32)
    ensures
        x == byte_of(x, 3) * 0x100_0000 + byte_of(x, 2) * 0x1_0000 + byte_of(x, 1) * 0x100
            + byte_of(x, 0),
        x / 0x1_0000 == byte_of(x, 3) * 0x100 + byte_of(x, 2),
        x % 0x1_0000 == byte_of(x, 1) * 0x100 + byte_of(x, 0),
        0 <= byte_of(x, 0) < 256,
        0 <= byte_of(x, 1) < 256,
        0 <= byte_of(x, 2) < 256,
        0 <= byte_of(x, 3) < 256,
{
}

/// A number made of bytes has these bytes.
#[verifier::spinoff_prover]
pub(crate) proof fn bytes_taken_apart(x: u32, b3: int, b2: int, b1: int, b0: int)
    requires
        0 <= b0 < 256,
        0 <= b1 < 256,
        0 <= b2 < 256,
        0 <= b3 < 256,
        x == b3 * 0x100_0000 + b2 * 0x1_0000 + b1 * 0x100 + b0,
    ensures
        byte_of(x, 0) == b0,
        byte_of(x, 1) == b1,
        byte_of(x, 2) == b2,
        byte_of(x, 3) == b3,
{
    assert(x / 0x100 == b3 * 0x1_0000 + b2 * 0x100 + b1);
    assert(x / 0x1_0000 == b3 * 0x100 + b2);
    assert(x / 0x100_0000 == b3);
}

/// Whether an opcode may branch with a delay slot.
pub open spec fn may_branch(op: u16) -> bool {
    let t = op / 0x1000;
    let d8 = op_d8(op);
    ||| t == 0x0 && (d8 == 0x0B || d8 == 0x23 || d8 == 0x03 || d8 == 0x2B)
    ||| t == 0x4 && (d8 == 0x0B || d8 == 0x2B)
    ||| t == 0xA
    ||| t == 0xB
    ||| t == 0x8 && (op_n(op) == 0xD || op_n(op) == 0xF)
}

/// An opcode that does not branch with a delay slot does what its group does.
#[verifier::spinoff_prover]
pub(crate) proof fn plain_of_group(m: Machine, op: u16)
    requires
        !may_branch(op),
    ensures
        performed(m, op) == plain_executed(m, op),
        op / 0x1000 == 0x0 ==> performed(m, op) == group0(m, op),
        op / 0x1000 == 0x2 ==> performed(m, op) == group2(m, op),
        op / 0x1000 == 0x3 ==> performed(m, op) == group3(m, op),
        op / 0x1000 == 0x4 && is_group4_regs(op_d8(op)) ==> performed(m, op) == group4_regs(m, op),
        op / 0x1000 == 0x4 && !is_group4_regs(op_d8(op)) ==> performed(m, op) == group4_mem(m, op),
        op / 0x1000 == 0x6 ==> performed(m, op) == group6(m, op),
        op / 0x1000 == 0x7 ==> performed(m, op) == m.with_r(
            op_n(op),
            m.r[op_n(op)].wrapping_add(sext8(op_d8(op) as u8)),
        ),
        op / 0x1000 == 0x8 ==> performed(m, op) == group8(m, op),
        op / 0x1000 == 0xC ==> performed(m, op) == group_c(m, op),
        op / 0x1000 == 0xE ==> performed(m, op) == m.with_r(
            op_n(op),
            sext8(op_d8(op) as u8),
        ),
{
    reveal(performed);
    reveal(branch_of);
    reveal(plain_executed);
    assert(op / 0x100 == 0x8D ==> op / 0x1000 == 8 && op_n(op) == 0xD);
    assert(op / 0x100 == 0x8F ==> op / 0x1000 == 8 && op_n(op) == 0xF);
    assert(branch_of(m, op) is None);
    assert(executed(m, op, NESTING_LIMIT as nat) == plain_executed(m, op));
}

/// MOV Rm,Rn copies a register.
#[verifier::spinoff_prover]
pub proof fn moves_copy(m: Machine, n: int, k: int)
    requires
        m.r.len() == 16,
        is_reg(n),
        is_reg(k),
    ensures
        ({
            let after = performed(m, op_nm(0x6003, n, k));
            &&& after == m.with_r(n, m.r[k])
        }),
{
    reveal(group6);
    fields_nm(6, n, k, 3);
    plain_of_group(m, op_nm(0x6003, n, k));
}

/// MOV #imm,Rn puts a signed byte in the register, and ADD #imm,Rn adds one.
#[verifier::spinoff_prover]
pub proof fn immediate_is_signed(m: Machine, n: int, i: int)
    requires
        m.r.len() == 16,
        is_reg(n),
        0 <= i < 256,
    ensures
        ({
            let after = performed(m, op_ni(0xE000, n, i));
            &&& after == m.with_r(n, after.r[n])
            &&& signed(after.r[n]) == signed_byte(i)
        }),
        ({
            let after = performed(m, op_ni(0x7000, n, i));
            &&& after == m.with_r(n, after.r[n])
            &&& after.r[n] == (m.r[n] + signed_byte(i)) % 0x1_0000_0000
        }),
{
    fields_ni(14, n, 0, i);
    plain_of_group(m, op_ni(0xE000, n, i));
    fields_ni(7, n, 0, i);
    plain_of_group(m, op_ni(0x7000, n, i));
}

/// MOVT gives the T flag as a number.
#[verifier::spinoff_prover]
pub proof fn movt_gives_the_flag(m: Machine, n: int)
    requires
        m.r.len() == 16,
        is_reg(n),
    ensures
        ({
            let after = performed(m, op_ni(0x0029, n, 0));
            &&& after == m.with_r(n, after.r[n])
            &&& after.r[n] == one_if(m.t())
        }),
{
    reveal(group0);
    fields_ni(0, n, 41, 0);
    plain_of_group(m, op_ni(0x0029, n, 0));
}

/// ADD and SUB work on 32 bits, and what does not fit is cut off.
#[verifier::spinoff_prover]
pub proof fn add_and_subtract(m: Machine, n: int, k: int)
    requires
        m.r.len() == 16,
        is_reg(n),
        is_reg(k),
    ensures
        ({
            let after = performed(m, op_nm(0x300C, n, k));
            &&& after == m.with_r(n, after.r[n])
            &&& after.r[n] == (m.r[n] + m.r[k]) % 0x1_0000_0000
        }),
        ({
            let after = performed(m, op_nm(0x3008, n, k));
            &&& after == m.with_r(n, after.r[n])
            &&& after.r[n] == (m.r[n] - m.r[k]) % 0x1_0000_0000
        }),
{
    reveal(group3);
    fields_nm(3, n, k, 12);
    plain_of_group(m, op_nm(0x300C, n, k));
    fields_nm(3, n, k, 8);
    plain_of_group(m, op_nm(0x3008, n, k));
    cut_to_32_bits(m.r[n], m.r[k]);
}

/// ADDC and SUBC chain: sum and carry together are the exact sum of both operands and the
/// carry before, and difference and borrow the exact difference.
#[verifier::spinoff_prover]
pub proof fn add_and_subtract_with_carry(m: Machine, n: int, k: int)
    requires
        m.r.len() == 16,
        is_reg(n),
        is_reg(k),
    ensures
        ({
            let after = performed(m, op_nm(0x300E, n, k));
            &&& after == m.with_r(n, after.r[n]).with_t(after.t())
            &&& after.r[n] + 0x1_0000_0000 * one_if(after.t()) == m.r[n] + m.r[k] + one_if(m.t())
        }),
        ({
            let after = performed(m, op_nm(0x300A, n, k));
            &&& after == m.with_r(n, after.r[n]).with_t(after.t())
            &&& after.r[n] - 0x1_0000_0000 * one_if(after.t()) == m.r[n] - m.r[k] - one_if(m.t())
        }),
{
    reveal(group3);
    fields_nm(3, n, k, 14);
    plain_of_group(m, op_nm(0x300E, n, k));
    fields_nm(3, n, k, 10);
    plain_of_group(m, op_nm(0x300A, n, k));
    flags_are_independent(m.sr, true);
    flags_are_independent(m.sr, false);
    carries(m.r[n], m.r[k], m.t());
}

/// ADDV and SUBV compute like ADD and SUB, and T tells whether the signed result does not fit.
#[verifier::spinoff_prover]
pub proof fn add_and_subtract_note_overflow(m: Machine, n: int, k: int)
    requires
        m.r.len() == 16,
        is_reg(n),
        is_reg(k),
    ensures
        ({
            let after = performed(m, op_nm(0x300F, n, k));
            &&& after == m.with_r(n, after.r[n]).with_t(after.t())
            &&& after.r[n] == (m.r[n] + m.r[k]) % 0x1_0000_0000
            &&& after.t() <==> signed(after.r[n]) != signed(m.r[n]) + signed(m.r[k])
        }),
        ({
            let after = performed(m, op_nm(0x300B, n, k));
            &&& after == m.with_r(n, after.r[n]).with_t(after.t())
            &&& after.r[n] == (m.r[n] - m.r[k]) % 0x1_0000_0000
            &&& after.t() <==> signed(after.r[n]) != signed(m.r[n]) - signed(m.r[k])
        }),
{
    reveal(group3);
    fields_nm(3, n, k, 15);
    plain_of_group(m, op_nm(0x300F, n, k));
    fields_nm(3, n, k, 11);
    plain_of_group(m, op_nm(0x300B, n, k));
    flags_are_independent(m.sr, true);
    flags_are_independent(m.sr, false);
    signed_results(m.r[n], m.r[k]);
}

/// NEG gives what adds up to zero with the operand; NEGC takes the borrow along.
#[verifier::spinoff_prover]
pub proof fn negation(m: Machine, n: int, k: int)
    requires
        m.r.len() == 16,
        is_reg(n),
        is_reg(k),
    ensures
        ({
            let after = performed(m, op_nm(0x600B, n, k));
            &&& after == m.with_r(n, after.r[n])
            &&& (after.r[n] + m.r[k]) % 0x1_0000_0000 == 0
        }),
        ({
            let after = performed(m, op_nm(0x600A, n, k));
            &&& after == m.with_r(n, after.r[n]).with_t(after.t())
            &&& after.r[n] - 0x1_0000_0000 * one_if(after.t()) == 0 - m.r[k] - one_if(m.t())
        }),
{
    reveal(group6);
    fields_nm(6, n, k, 11);
    plain_of_group(m, op_nm(0x600B, n, k));
    fields_nm(6, n, k, 10);
    plain_of_group(m, op_nm(0x600A, n, k));
    flags_are_independent(m.sr, true);
    flags_are_independent(m.sr, false);
    cut_to_32_bits(0, m.r[k]);
}

/// The comparisons of two registers: equal, unsigned and signed.
#[verifier::spinoff_prover]
pub proof fn comparisons(m: Machine, n: int, k: int)
    requires
        m.r.len() == 16,
        is_reg(n),
        is_reg(k),
    ensures
        ({
            let after = performed(m, op_nm(0x3000, n, k));
            &&& after == m.with_t(m.r[n] == m.r[k])
        }),
        ({
            let after = performed(m, op_nm(0x3002, n, k));
            &&& after == m.with_t(m.r[n] >= m.r[k])
        }),
        ({
            let after = performed(m, op_nm(0x3003, n, k));
            &&& after == m.with_t(signed(m.r[n]) >= signed(m.r[k]))
        }),
        ({
            let after = performed(m, op_nm(0x3006, n, k));
            &&& after == m.with_t(m.r[n] > m.r[k])
        }),
        ({
            let after = performed(m, op_nm(0x3007, n, k));
            &&& after == m.with_t(signed(m.r[n]) > signed(m.r[k]))
        }),
{
    reveal(group3);
    fields_nm(3, n, k, 0);
    plain_of_group(m, op_nm(0x3000, n, k));
    fields_nm(3, n, k, 2);
    plain_of_group(m, op_nm(0x3002, n, k));
    fields_nm(3, n, k, 3);
    plain_of_group(m, op_nm(0x3003, n, k));
    fields_nm(3, n, k, 6);
    plain_of_group(m, op_nm(0x3006, n, k));
    fields_nm(3, n, k, 7);
    plain_of_group(m, op_nm(0x3007, n, k));
}

/// CMP/PZ and CMP/PL look at the sign; DT counts down and tells when it reaches zero.
#[verifier::spinoff_prover]
pub proof fn comparisons_with_zero(m: Machine, n: int)
    requires
        m.r.len() == 16,
        is_reg(n),
    ensures
        ({
            let after = performed(m, op_ni(0x4011, n, 0));
            &&& after == m.with_t(signed(m.r[n]) >= 0)
        }),
        ({
            let after = performed(m, op_ni(0x4015, n, 0));
            &&& after == m.with_t(signed(m.r[n]) > 0)
        }),
        ({
            let after = performed(m, op_ni(0x4010, n, 0));
            &&& after == m.with_r(n, after.r[n]).with_t(after.t())
            &&& after.r[n] == (m.r[n] - 1) % 0x1_0000_0000
            &&& after.t() <==> m.r[n] == 1
        }),
{
    reveal(group4_regs);
    fields_ni(4, n, 17, 0);
    plain_of_group(m, op_ni(0x4011, n, 0));
    fields_ni(4, n, 21, 0);
    plain_of_group(m, op_ni(0x4015, n, 0));
    fields_ni(4, n, 16, 0);
    plain_of_group(m, op_ni(0x4010, n, 0));
    flags_are_independent(m.sr, true);
    flags_are_independent(m.sr, false);
    cut_to_32_bits(m.r[n], 1);
}

/// CMP/EQ #imm,R0 compares with a signed byte.
#[verifier::spinoff_prover]
pub proof fn comparison_with_a_byte(m: Machine, i: int)
    requires
        m.r.len() == 16,
        0 <= i < 256,
    ensures
        ({
            let after = performed(m, op_ni(0x8800, 0, i));
            &&& after == m.with_t(signed(m.r[0]) == signed_byte(i))
        }),
{
    reveal(group8);
    fields_i(8, 8, i);
    plain_of_group(m, op_ni(0x8800, 0, i));
}

/// CMP/STR tells whether the registers agree in one of their four bytes.
#[verifier::spinoff_prover]
pub proof fn comparison_of_bytes(m: Machine, n: int, k: int)
    requires
        m.r.len() == 16,
        is_reg(n),
        is_reg(k),
    ensures
        ({
            let after = performed(m, op_nm(0x200C, n, k));
            &&& after == m.with_t(exists|j: int| 0 <= j < 4 && #[trigger] byte_of(m.r[n], j) == byte_of(m.r[k], j))
        }),
{
    reveal(group2);
    fields_nm(2, n, k, 12);
    plain_of_group(m, op_nm(0x200C, n, k));
    let a = m.r[n];
    let b = m.r[k];
    assert(byte_of(a, 0) == a % 0x100 && byte_of(b, 0) == b % 0x100);
    assert(byte_of(a, 1) == a / 0x100 % 0x100 && byte_of(b, 1) == b / 0x100 % 0x100);
    assert(byte_of(a, 2) == a / 0x1_0000 % 0x100 && byte_of(b, 2) == b / 0x1_0000 % 0x100);
    assert(byte_of(a, 3) == a / 0x100_0000 && byte_of(b, 3) == b / 0x100_0000);
}

/// EXTU keeps the low byte or word as it is, EXTS as a signed number.
#[verifier::spinoff_prover]
pub proof fn extensions(m: Machine, n: int, k: int)
    requires
        m.r.len() == 16,
        is_reg(n),
        is_reg(k),
    ensures
        ({
            let after = performed(m, op_nm(0x600C, n, k));
            &&& after == m.with_r(n, after.r[n])
            &&& after.r[n] == m.r[k] % 0x100
        }),
        ({
            let after = performed(m, op_nm(0x600D, n, k));
            &&& after == m.with_r(n, after.r[n])
            &&& after.r[n] == m.r[k] % 0x1_0000
        }),
        ({
            let after = performed(m, op_nm(0x600E, n, k));
            &&& after == m.with_r(n, after.r[n])
            &&& signed(after.r[n]) == signed_low(m.r[k], 0x100)
        }),
        ({
            let after = performed(m, op_nm(0x600F, n, k));
            &&& after == m.with_r(n, after.r[n])
            &&& signed(after.r[n]) == signed_low(m.r[k], 0x1_0000)
        }),
{
    reveal(group6);
    fields_nm(6, n, k, 12);
    plain_of_group(m, op_nm(0x600C, n, k));
    fields_nm(6, n, k, 13);
    plain_of_group(m, op_nm(0x600D, n, k));
    fields_nm(6, n, k, 14);
    plain_of_group(m, op_nm(0x600E, n, k));
    fields_nm(6, n, k, 15);
    plain_of_group(m, op_nm(0x600F, n, k));
}

/// SWAP.B exchanges the two low bytes.
#[verifier::spinoff_prover]
pub proof fn swap_b_exchanges(m: Machine, n: int, k: int)
    requires
        m.r.len() == 16,
        is_reg(n),
        is_reg(k),
    ensures
        ({
            let after = performed(m, op_nm(0x6008, n, k));
            &&& after == m.with_r(n, after.r[n])
            &&& byte_of(after.r[n], 0) == byte_of(m.r[k], 1)
            &&& byte_of(after.r[n], 1) == byte_of(m.r[k], 0)
            &&& byte_of(after.r[n], 2) == byte_of(m.r[k], 2)
            &&& byte_of(after.r[n], 3) == byte_of(m.r[k], 3)
        }),
{
    reveal(group6);
    fields_nm(6, n, k, 8);
    plain_of_group(m, op_nm(0x6008, n, k));
    let x = m.r[k];
    bytes_put_together(x);
    let y = performed(m, op_nm(0x6008, n, k)).r[n];
    assert(y == (x / 0x1_0000 * 0x1_0000 + x % 0x100 * 0x100 + x / 0x100 % 0x100) as u32);
    bytes_taken_apart(y, byte_of(x, 3), byte_of(x, 2), byte_of(x, 0), byte_of(x, 1));
}

/// SWAP.W exchanges the two words.
#[verifier::spinoff_prover]
pub proof fn swap_w_exchanges(m: Machine, n: int, k: int)
    requires
        m.r.len() == 16,
        is_reg(n),
        is_reg(k),
    ensures
        ({
            let after = performed(m, op_nm(0x6009, n, k));
            &&& after == m.with_r(n, after.r[n])
            &&& byte_of(after.r[n], 0) == byte_of(m.r[k], 2)
            &&& byte_of(after.r[n], 1) == byte_of(m.r[k], 3)
            &&& byte_of(after.r[n], 2) == byte_of(m.r[k], 0)
            &&& byte_of(after.r[n], 3) == byte_of(m.r[k], 1)
        }),
{
    reveal(group6);
    fields_nm(6, n, k, 9);
    plain_of_group(m, op_nm(0x6009, n, k));
    let x = m.r[k];
    bytes_put_together(x);
    let y = performed(m, op_nm(0x6009, n, k)).r[n];
    assert(y == (x % 0x1_0000 * 0x1_0000 + x / 0x1_0000) as u32);
    bytes_taken_apart(y, byte_of(x, 1), byte_of(x, 0), byte_of(x, 3), byte_of(x, 2));
}

/// XTRCT takes the low word of one register and the high word of the other.
#[verifier::spinoff_prover]
pub proof fn xtrct_takes_the_middle(m: Machine, n: int, k: int)
    requires
        m.r.len() == 16,
        is_reg(n),
        is_reg(k),
    ensures
        ({
            let after = performed(m, op_nm(0x200D, n, k));
            &&& after == m.with_r(n, after.r[n])
            &&& byte_of(after.r[n], 0) == byte_of(m.r[n], 2)
            &&& byte_of(after.r[n], 1) == byte_of(m.r[n], 3)
            &&& byte_of(after.r[n], 2) == byte_of(m.r[k], 0)
            &&& byte_of(after.r[n], 3) == byte_of(m.r[k], 1)
        }),
{
    reveal(group2);
    fields_nm(2, n, k, 13);
    plain_of_group(m, op_nm(0x200D, n, k));
    let x = m.r[k];
    let z = m.r[n];
    bytes_put_together(x);
    bytes_put_together(z);
    let y = performed(m, op_nm(0x200D, n, k)).r[n];
    assert(y == (z / 0x1_0000 + x % 0x1_0000 * 0x1_0000) as u32);
    bytes_taken_apart(y, byte_of(x, 1), byte_of(x, 0), byte_of(z, 3), byte_of(z, 2));
}

/// AND, OR, XOR and NOT work bit by bit, and TST tells whether no bit is set in both.
#[verifier::spinoff_prover]
pub proof fn logic(m: Machine, n: int, k: int)
    requires
        m.r.len() == 16,
        is_reg(n),
        is_reg(k),
    ensures
        ({
            let after = performed(m, op_nm(0x2009, n, k));
            &&& after == m.with_r(n, m.r[n] & m.r[k])
        }),
        ({
            let after = performed(m, op_nm(0x200B, n, k));
            &&& after == m.with_r(n, m.r[n] | m.r[k])
        }),
        ({
            let after = performed(m, op_nm(0x200A, n, k));
            &&& after == m.with_r(n, m.r[n] ^ m.r[k])
        }),
        ({
            let after = performed(m, op_nm(0x6007, n, k));
            &&& after == m.with_r(n, after.r[n])
            &&& after.r[n] + m.r[k] == 0xFFFF_FFFF
        }),
        ({
            let after = performed(m, op_nm(0x2008, n, k));
            &&& after == m.with_t(m.r[n] & m.r[k] == 0)
        }),
{
    reveal(group2);
    reveal(group6);
    fields_nm(2, n, k, 9);
    plain_of_group(m, op_nm(0x2009, n, k));
    fields_nm(2, n, k, 11);
    plain_of_group(m, op_nm(0x200B, n, k));
    fields_nm(2, n, k, 10);
    plain_of_group(m, op_nm(0x200A, n, k));
    fields_nm(6, n, k, 7);
    plain_of_group(m, op_nm(0x6007, n, k));
    fields_nm(2, n, k, 8);
    plain_of_group(m, op_nm(0x2008, n, k));
    let b = m.r[k];
    assert(!b + b == 0xFFFF_FFFF) by (bit_vector);
}

/// The same with R0 and an unsigned byte.
#[verifier::spinoff_prover]
pub proof fn logic_with_a_byte(m: Machine, i: int)
    requires
        m.r.len() == 16,
        0 <= i < 256,
    ensures
        ({
            let after = performed(m, op_ni(0xC900, 0, i));
            &&& after == m.with_r(0, m.r[0] & (i as u32))
        }),
        ({
            let after = performed(m, op_ni(0xCB00, 0, i));
            &&& after == m.with_r(0, m.r[0] | (i as u32))
        }),
        ({
            let after = performed(m, op_ni(0xCA00, 0, i));
            &&& after == m.with_r(0, m.r[0] ^ (i as u32))
        }),
        ({
            let after = performed(m, op_ni(0xC800, 0, i));
            &&& after == m.with_t(m.r[0] & (i as u32) == 0)
        }),
{
    reveal(group_c);
    fields_i(12, 9, i);
    plain_of_group(m, op_ni(0xC900, 0, i));
    fields_i(12, 11, i);
    plain_of_group(m, op_ni(0xCB00, 0, i));
    fields_i(12, 10, i);
    plain_of_group(m, op_ni(0xCA00, 0, i));
    fields_i(12, 8, i);
    plain_of_group(m, op_ni(0xC800, 0, i));
}

/// SHLL and SHAL double, SHLR halves, SHAR halves a signed number; the bit that falls out is
/// in T, so that nothing is lost.
#[verifier::spinoff_prover]
pub proof fn single_shifts(m: Machine, n: int)
    requires
        m.r.len() == 16,
        is_reg(n),
    ensures
        ({
            let after = performed(m, op_ni(0x4000, n, 0));
            &&& after == m.with_r(n, after.r[n]).with_t(after.t())
            &&& after.r[n] + 0x1_0000_0000 * one_if(after.t()) == 2 * m.r[n]
        }),
        ({
            let after = performed(m, op_ni(0x4020, n, 0));
            &&& after == m.with_r(n, after.r[n]).with_t(after.t())
            &&& after.r[n] + 0x1_0000_0000 * one_if(after.t()) == 2 * m.r[n]
        }),
        ({
            let after = performed(m, op_ni(0x4001, n, 0));
            &&& after == m.with_r(n, after.r[n]).with_t(after.t())
            &&& 2 * after.r[n] + one_if(after.t()) == m.r[n]
        }),
        ({
            let after = performed(m, op_ni(0x4021, n, 0));
            &&& after == m.with_r(n, after.r[n]).with_t(after.t())
            &&& 2 * signed(after.r[n]) + one_if(after.t()) == signed(m.r[n])
        }),
{
    reveal(group4_regs);
    fields_ni(4, n, 0, 0);
    plain_of_group(m, op_ni(0x4000, n, 0));
    fields_ni(4, n, 32, 0);
    plain_of_group(m, op_ni(0x4020, n, 0));
    fields_ni(4, n, 1, 0);
    plain_of_group(m, op_ni(0x4001, n, 0));
    fields_ni(4, n, 33, 0);
    plain_of_group(m, op_ni(0x4021, n, 0));
    flags_are_independent(m.sr, true);
    flags_are_independent(m.sr, false);
    multiples_are_cut(m.r[n]);
    halves(m.r[n]);
}

/// The bit that a rotation pushes out comes in at the other end; through T it comes in one
/// rotation later.
#[verifier::spinoff_prover]
pub proof fn rotations(m: Machine, n: int)
    requires
        m.r.len() == 16,
        is_reg(n),
    ensures
        ({
            let after = performed(m, op_ni(0x4004, n, 0));
            &&& after == m.with_r(n, after.r[n]).with_t(after.t())
            &&& after.r[n] + 0xFFFF_FFFF * one_if(after.t()) == 2 * m.r[n]
            &&& after.t() <==> m.r[n] >= 0x8000_0000
        }),
        ({
            let after = performed(m, op_ni(0x4005, n, 0));
            &&& after == m.with_r(n, after.r[n]).with_t(after.t())
            &&& 2 * after.r[n] == m.r[n] + 0xFFFF_FFFF * one_if(after.t())
            &&& after.t() <==> m.r[n] % 2 == 1
        }),
        ({
            let after = performed(m, op_ni(0x4024, n, 0));
            &&& after == m.with_r(n, after.r[n]).with_t(after.t())
            &&& after.r[n] + 0x1_0000_0000 * one_if(after.t()) == 2 * m.r[n] + one_if(m.t())
        }),
        ({
            let after = performed(m, op_ni(0x4025, n, 0));
            &&& after == m.with_r(n, after.r[n]).with_t(after.t())
            &&& 2 * after.r[n] + one_if(after.t()) == m.r[n] + 0x1_0000_0000 * one_if(m.t())
        }),
{
    reveal(group4_regs);
    fields_ni(4, n, 4, 0);
    plain_of_group(m, op_ni(0x4004, n, 0));
    fields_ni(4, n, 5, 0);
    plain_of_group(m, op_ni(0x4005, n, 0));
    fields_ni(4, n, 36, 0);
    plain_of_group(m, op_ni(0x4024, n, 0));
    fields_ni(4, n, 37, 0);
    plain_of_group(m, op_ni(0x4025, n, 0));
    flags_are_independent(m.sr, true);
    flags_are_independent(m.sr, false);
    multiples_are_cut(m.r[n]);
}

/// Shifts by 2, 8 and 16 multiply and divide by powers of two.
#[verifier::spinoff_prover]
pub proof fn wide_shifts(m: Machine, n: int)
    requires
        m.r.len() == 16,
        is_reg(n),
    ensures
        ({
            let after = performed(m, op_ni(0x4008, n, 0));
            &&& after == m.with_r(n, after.r[n])
            &&& after.r[n] == m.r[n] * 4 % 0x1_0000_0000
        }),
        ({
            let after = performed(m, op_ni(0x4018, n, 0));
            &&& after == m.with_r(n, after.r[n])
            &&& after.r[n] == m.r[n] * 0x100 % 0x1_0000_0000
        }),
        ({
            let after = performed(m, op_ni(0x4028, n, 0));
            &&& after == m.with_r(n, after.r[n])
            &&& after.r[n] == m.r[n] * 0x1_0000 % 0x1_0000_0000
        }),
        ({
            let after = performed(m, op_ni(0x4009, n, 0));
            &&& after == m.with_r(n, after.r[n])
            &&& after.r[n] == m.r[n] / 4
        }),
        ({
            let after = performed(m, op_ni(0x4019, n, 0));
            &&& after == m.with_r(n, after.r[n])
            &&& after.r[n] == m.r[n] / 0x100
        }),
        ({
            let after = performed(m, op_ni(0x4029, n, 0));
            &&& after == m.with_r(n, after.r[n])
            &&& after.r[n] == m.r[n] / 0x1_0000
        }),
{
    reveal(group4_regs);
    fields_ni(4, n, 8, 0);
    plain_of_group(m, op_ni(0x4008, n, 0));
    fields_ni(4, n, 24, 0);
    plain_of_group(m, op_ni(0x4018, n, 0));
    fields_ni(4, n, 40, 0);
    plain_of_group(m, op_ni(0x4028, n, 0));
    fields_ni(4, n, 9, 0);
    plain_of_group(m, op_ni(0x4009, n, 0));
    fields_ni(4, n, 25, 0);
    plain_of_group(m, op_ni(0x4019, n, 0));
    fields_ni(4, n, 41, 0);
    plain_of_group(m, op_ni(0x4029, n, 0));
    multiples_are_cut(m.r[n]);
}

/// MULU.W and MULS.W multiply the low words, without and with sign, into MACL.
#[verifier::spinoff_prover]
pub proof fn word_multiplications(m: Machine, n: int, k: int)
    requires
        m.r.len() == 16,
        is_reg(n),
        is_reg(k),
    ensures
        ({
            let after = performed(m, op_nm(0x200E, n, k));
            &&& after == Machine { macl: after.macl, ..m }
            &&& after.macl == (m.r[n] % 0x1_0000) * (m.r[k] % 0x1_0000)
        }),
        ({
            let after = performed(m, op_nm(0x200F, n, k));
            &&& after == Machine { macl: after.macl, ..m }
            &&& signed(after.macl) == signed_low(m.r[n], 0x1_0000) * signed_low(m.r[k], 0x1_0000)
        }),
{
    reveal(group2);
    fields_nm(2, n, k, 14);
    plain_of_group(m, op_nm(0x200E, n, k));
    fields_nm(2, n, k, 15);
    plain_of_group(m, op_nm(0x200F, n, k));
    let a = (m.r[n] % 0x1_0000) as int;
    let b = (m.r[k] % 0x1_0000) as int;
    assert(0 <= a * b <= 0xFFFE_0001) by (nonlinear_arith)
        requires
            0 <= a <= 0xFFFF,
            0 <= b <= 0xFFFF,
    ;
    let c = signed_low(m.r[n], 0x1_0000);
    let d = signed_low(m.r[k], 0x1_0000);
    assert(-0x4000_0000 <= c * d <= 0x4000_0000) by (nonlinear_arith)
        requires
            -0x8000 <= c < 0x8000,
            -0x8000 <= d < 0x8000,
    ;
}

/// DMULU.L and DMULS.L leave the whole product in MACH and MACL, without and with sign.
#[verifier::spinoff_prover]
pub proof fn long_multiplications(m: Machine, n: int, k: int)
    requires
        m.r.len() == 16,
        is_reg(n),
        is_reg(k),
    ensures
        ({
            let after = performed(m, op_nm(0x3005, n, k));
            &&& after == Machine { mach: after.mach, macl: after.macl, ..m }
            &&& after.mach * 0x1_0000_0000 + after.macl == m.r[n] * m.r[k]
        }),
        ({
            let after = performed(m, op_nm(0x300D, n, k));
            &&& after == Machine { mach: after.mach, macl: after.macl, ..m }
            &&& signed(after.mach) * 0x1_0000_0000 + after.macl == signed(m.r[n]) * signed(m.r[k])
        }),
{
    reveal(group3);
    fields_nm(3, n, k, 5);
    plain_of_group(m, op_nm(0x3005, n, k));
    fields_nm(3, n, k, 13);
    plain_of_group(m, op_nm(0x300D, n, k));
    let a = m.r[n] as int;
    let b = m.r[k] as int;
    assert(0 <= a * b <= 0xFFFF_FFFE_0000_0001) by (nonlinear_arith)
        requires
            0 <= a <= 0xFFFF_FFFF,
            0 <= b <= 0xFFFF_FFFF,
    ;
    let c = signed(m.r[n]);
    let d = signed(m.r[k]);
    assert(-0x4000_0000_0000_0000 <= c * d <= 0x4000_0000_0000_0000) by (nonlinear_arith)
        requires
            -0x8000_0000 <= c < 0x8000_0000,
            -0x8000_0000 <= d < 0x8000_0000,
    ;
}

/// SETT and CLRT set and clear T, CLRMAC clears the accumulator, NOP does nothing, SLEEP stays
/// where it is, and DIV0U clears all three flags of a division.
#[verifier::spinoff_prover]
pub proof fn flag_instructions(m: Machine)
    requires
        m.r.len() == 16,
    ensures
        ({
            let after = performed(m, op_ni(0x0018, 0, 0));
            &&& after == m.with_t(true)
        }),
        ({
            let after = performed(m, op_ni(0x0008, 0, 0));
            &&& after == m.with_t(false)
        }),
        ({
            let after = performed(m, op_ni(0x0028, 0, 0));
            &&& after == Machine { mach: 0, macl: 0, ..m }
        }),
        ({
            let after = performed(m, op_ni(0x0009, 0, 0));
            &&& after == m
        }),
        ({
            let after = performed(m, op_ni(0x001B, 0, 0));
            &&& after == Machine { pc: after.pc, ..m }
            &&& (after.pc + 2) % 0x1_0000_0000 == m.pc
        }),
        ({
            let after = performed(m, op_ni(0x0019, 0, 0));
            &&& after == Machine { sr: after.sr, ..m }
            &&& after.sr & 0x301 == 0
            &&& after.sr & 0xFFFF_FCFE == m.sr & 0xFFFF_FCFE
        }),
{
    reveal(group0);
    fields_ni(0, 0, 24, 0);
    plain_of_group(m, op_ni(0x0018, 0, 0));
    fields_ni(0, 0, 8, 0);
    plain_of_group(m, op_ni(0x0008, 0, 0));
    fields_ni(0, 0, 40, 0);
    plain_of_group(m, op_ni(0x0028, 0, 0));
    fields_ni(0, 0, 9, 0);
    plain_of_group(m, op_ni(0x0009, 0, 0));
    fields_ni(0, 0, 27, 0);
    plain_of_group(m, op_ni(0x001B, 0, 0));
    fields_ni(0, 0, 25, 0);
    plain_of_group(m, op_ni(0x0019, 0, 0));
    let sr = m.sr;
    assert((sr & !(0x001u32 | 0x100u32 | 0x200u32)) & 0x301 == 0 && (sr & !(0x001u32 | 0x100u32
        | 0x200u32)) & 0xFFFF_FCFE == sr & 0xFFFF_FCFE) by (bit_vector);
}

/// DIV0S notes both signs, and T whether they differ.
#[verifier::spinoff_prover]
pub proof fn signed_division_begins(m: Machine, n: int, k: int)
    requires
        m.r.len() == 16,
        is_reg(n),
        is_reg(k),
    ensures
        ({
            let after = performed(m, op_nm(0x2007, n, k));
            &&& after == Machine { sr: after.sr, ..m }
            &&& sr_has(after.sr, SR_Q) <==> signed(m.r[n]) < 0
            &&& sr_has(after.sr, SR_M) <==> signed(m.r[k]) < 0
            &&& after.t() <==> (signed(m.r[n]) < 0) != (signed(m.r[k]) < 0)
        }),
{
    reveal(group2);
    fields_nm(2, n, k, 7);
    plain_of_group(m, op_nm(0x2007, n, k));
    let q = m.r[n] >= 0x8000_0000;
    let d = m.r[k] >= 0x8000_0000;
    let s1 = sr_with(m.sr, SR_Q, q);
    let s2 = sr_with(s1, SR_M, d);
    flags_are_independent(m.sr, q);
    flags_are_independent(s1, d);
    flags_are_independent(s2, q != d);
}

/// STC and STS read the special registers.
#[verifier::spinoff_prover]
pub proof fn registers_are_read_out(m: Machine, n: int)
    requires
        m.r.len() == 16,
        is_reg(n),
    ensures
        ({
            let after = performed(m, op_ni(0x0002, n, 0));
            &&& after == m.with_r(n, m.sr)
        }),
        ({
            let after = performed(m, op_ni(0x0012, n, 0));
            &&& after == m.with_r(n, m.gbr)
        }),
        ({
            let after = performed(m, op_ni(0x0022, n, 0));
            &&& after == m.with_r(n, m.vbr)
        }),
        ({
            let after = performed(m, op_ni(0x000A, n, 0));
            &&& after == m.with_r(n, m.mach)
        }),
        ({
            let after = performed(m, op_ni(0x001A, n, 0));
            &&& after == m.with_r(n, m.macl)
        }),
        ({
            let after = performed(m, op_ni(0x002A, n, 0));
            &&& after == m.with_r(n, m.pr)
        }),
{
    reveal(group0);
    fields_ni(0, n, 2, 0);
    plain_of_group(m, op_ni(0x0002, n, 0));
    fields_ni(0, n, 18, 0);
    plain_of_group(m, op_ni(0x0012, n, 0));
    fields_ni(0, n, 34, 0);
    plain_of_group(m, op_ni(0x0022, n, 0));
    fields_ni(0, n, 10, 0);
    plain_of_group(m, op_ni(0x000A, n, 0));
    fields_ni(0, n, 26, 0);
    plain_of_group(m, op_ni(0x001A, n, 0));
    fields_ni(0, n, 42, 0);
    plain_of_group(m, op_ni(0x002A, n, 0));
}

/// LDC and LDS set them.
#[verifier::spinoff_prover]
pub proof fn registers_are_set(m: Machine, n: int)
    requires
        m.r.len() == 16,
        is_reg(n),
    ensures
        ({
            let after = performed(m, op_ni(0x400E, n, 0));
            &&& after == Machine { sr: after.sr, ..m }
            &&& after.sr == m.r[n] & 0x3F3
        }),
        ({
            let after = performed(m, op_ni(0x401E, n, 0));
            &&& after == Machine { gbr: m.r[n], ..m }
        }),
        ({
            let after = performed(m, op_ni(0x402E, n, 0));
            &&& after == Machine { vbr: m.r[n], ..m }
        }),
        ({
            let after = performed(m, op_ni(0x400A, n, 0));
            &&& after == Machine { mach: m.r[n], ..m }
        }),
        ({
            let after = performed(m, op_ni(0x401A, n, 0));
            &&& after == Machine { macl: m.r[n], ..m }
        }),
        ({
            let after = performed(m, op_ni(0x402A, n, 0));
            &&& after == Machine { pr: m.r[n], ..m }
        }),
{
    reveal(group4_regs);
    fields_ni(4, n, 14, 0);
    plain_of_group(m, op_ni(0x400E, n, 0));
    fields_ni(4, n, 30, 0);
    plain_of_group(m, op_ni(0x401E, n, 0));
    fields_ni(4, n, 46, 0);
    plain_of_group(m, op_ni(0x402E, n, 0));
    fields_ni(4, n, 10, 0);
    plain_of_group(m, op_ni(0x400A, n, 0));
    fields_ni(4, n, 26, 0);
    plain_of_group(m, op_ni(0x401A, n, 0));
    fields_ni(4, n, 42, 0);
    plain_of_group(m, op_ni(0x402A, n, 0));
}

/// MUL.L Rm,Rn leaves the product, cut to 32 bits, in MACL, and changes nothing else.
#[verifier::spinoff_prover]
pub proof fn mul_l_multiplies(m: Machine, n: int, k: int)
    requires
        m.r.len() == 16,
        is_reg(n),
        is_reg(k),
    ensures
        ({
            let after = performed(m, op_nm(0x0007, n, k));
            &&& after == Machine { macl: after.macl, ..m }
            &&& after.macl == (m.r[n] * m.r[k]) % 0x1_0000_0000
        }),
{
    reveal(group0);
    fields_nm(0, n, k, 7);
    plain_of_group(m, op_nm(0x0007, n, k));
    let a = m.r[n];
    let b = m.r[k];
    assert(a.wrapping_mul(b) == (a * b) % 0x1_0000_0000);
}

} // verus!
