//! The arithmetic of the SH-2's instructions.

use crate::arith::{s32, to_pattern, to_signed, wrap32};
use vstd::prelude::*;

verus! {

/// Status register bits: true/false, saturation, and the division flags.
pub const SR_T: u32 = 0x001;
pub const SR_S: u32 = 0x002;
pub const SR_M: u32 = 0x100;
pub const SR_Q: u32 = 0x200;
/// The bits of the status register that exist.
pub const SR_WRITE_MASK: u32 = 0x0000_03F3;

/// A status register with a bit set or cleared.
pub open spec fn sr_with(sr: u32, bit: u32, on: bool) -> u32 {
    if on {
        sr | bit
    } else {
        sr & !bit
    }
}

/// Whether a bit of a status register is set.
pub open spec fn sr_has(sr: u32, bit: u32) -> bool {
    sr & bit != 0
}

/// Set or clear a bit of a status register.
pub fn set_sr_bit(sr: u32, bit: u32, on: bool) -> (r: u32)
    ensures
        r == sr_with(sr, bit, on),
{
    if on {
        sr | bit
    } else {
        sr & !bit
    }
}

/// A flag that was set or cleared reads so, and the other flags are as before.
pub proof fn flags_are_independent(sr: u32, on: bool)
    ensures
        sr_has(sr_with(sr, SR_T, on), SR_T) == on,
        sr_has(sr_with(sr, SR_S, on), SR_S) == on,
        sr_has(sr_with(sr, SR_M, on), SR_M) == on,
        sr_has(sr_with(sr, SR_Q, on), SR_Q) == on,
        sr_has(sr_with(sr, SR_T, on), SR_Q) == sr_has(sr, SR_Q),
        sr_has(sr_with(sr, SR_T, on), SR_M) == sr_has(sr, SR_M),
        sr_has(sr_with(sr, SR_Q, on), SR_T) == sr_has(sr, SR_T),
        sr_has(sr_with(sr, SR_Q, on), SR_M) == sr_has(sr, SR_M),
        sr_has(sr_with(sr, SR_M, on), SR_T) == sr_has(sr, SR_T),
        sr_has(sr_with(sr, SR_M, on), SR_Q) == sr_has(sr, SR_Q),
{
    assert((sr | 1) & 1 != 0 && (sr & !1u32) & 1 == 0 && (sr | 2) & 2 != 0 && (sr & !2u32) & 2
        == 0 && (sr | 0x100) & 0x100 != 0 && (sr & !0x100u32) & 0x100 == 0 && (sr | 0x200) & 0x200
        != 0 && (sr & !0x200u32) & 0x200 == 0) by (bit_vector);
    assert((sr | 1) & 0x200 == sr & 0x200 && (sr & !1u32) & 0x200 == sr & 0x200 && (sr | 1) & 0x100
        == sr & 0x100 && (sr & !1u32) & 0x100 == sr & 0x100 && (sr | 0x200) & 1 == sr & 1 && (sr
        & !0x200u32) & 1 == sr & 1 && (sr | 0x200) & 0x100 == sr & 0x100 && (sr & !0x200u32) & 0x100
        == sr & 0x100 && (sr | 0x100) & 1 == sr & 1 && (sr & !0x100u32) & 1 == sr & 1 && (sr
        | 0x100) & 0x200 == sr & 0x200 && (sr & !0x100u32) & 0x200 == sr & 0x200) by (bit_vector);
}

/// A byte extended by its sign.
pub open spec fn sext8(v: u8) -> u32 {
    if v < 0x80 {
        v as u32
    } else {
        (0xFFFF_FF00 + v) as u32
    }
}

/// A word extended by its sign.
pub open spec fn sext16(v: u16) -> u32 {
    if v < 0x8000 {
        v as u32
    } else {
        (0xFFFF_0000 + v) as u32
    }
}

/// Extend a byte by its sign.
pub fn extend_byte(v: u8) -> (r: u32)
    ensures
        r == sext8(v),
{
    if v < 0x80 {
        v as u32
    } else {
        0xFFFF_FF00 + (v as u32)
    }
}

/// Extend a word by its sign.
pub fn extend_word(v: u16) -> (r: u32)
    ensures
        r == sext16(v),
{
    if v < 0x8000 {
        v as u32
    } else {
        0xFFFF_0000 + (v as u32)
    }
}

/// A displacement of `bits` bits as a signed number.
pub open spec fn signed_disp(d: int, half: int) -> int {
    if d < half {
        d
    } else {
        d - 2 * half
    }
}

/// The low byte as a signed number.
pub fn sign_extend8(d: u32) -> (r: i32)
    ensures
        r == signed_disp(d as int % 0x100, 0x80),
{
    let low: u32 = d % 0x100;
    if low < 0x80 {
        low as i32
    } else {
        low as i32 - 0x100
    }
}

/// A 12-bit displacement as a signed number.
pub fn sign_extend12(d: u32) -> (r: i32)
    requires
        d < 0x1000,
    ensures
        r == signed_disp(d as int, 0x800),
{
    if d < 0x800 {
        d as i32
    } else {
        d as i32 - 0x1000
    }
}

/// Where a branch goes whose following instruction is at `pc`.
pub open spec fn branch_target(pc: u32, disp: int) -> u32 {
    wrap32(pc + 2 + disp * 2)
}

/// Where a branch goes.
pub fn target_of(pc: u32, disp: i32) -> (r: u32)
    requires
        -0x1000 <= disp < 0x1000,
    ensures
        r == branch_target(pc, disp as int),
{
    to_pattern(pc as i64 + 2 + (disp as i64) * 2)
}

/// Addition with carry: the sum and the new carry.
pub open spec fn add_carry(a: u32, b: u32, carry: bool) -> (u32, bool) {
    let s = a + b + if carry {
        1int
    } else {
        0
    };
    (wrap32(s), s > u32::MAX)
}

/// Subtraction with borrow: the difference and the new borrow.
pub open spec fn sub_borrow(a: u32, b: u32, borrow: bool) -> (u32, bool) {
    let s = a - b - if borrow {
        1int
    } else {
        0
    };
    (wrap32(s), s < 0)
}

/// Add with carry.
pub fn addc(a: u32, b: u32, carry: bool) -> (r: (u32, bool))
    ensures
        r == add_carry(a, b, carry),
{
    let s: u64 = a as u64 + b as u64 + if carry {
        1
    } else {
        0
    };
    ((s % 0x1_0000_0000) as u32, s > 0xFFFF_FFFF)
}

/// Subtract with borrow.
pub fn subc(a: u32, b: u32, borrow: bool) -> (r: (u32, bool))
    ensures
        r == sub_borrow(a, b, borrow),
{
    let s: i64 = a as i64 - b as i64 - if borrow {
        1
    } else {
        0
    };
    (to_pattern(s), s < 0)
}

/// Whether a number does not fit into 32 signed bits.
pub open spec fn overflows32(i: int) -> bool {
    i < -0x8000_0000 || i > 0x7FFF_FFFF
}

/// Add, noting signed overflow.
pub fn addv(a: u32, b: u32) -> (r: (u32, bool))
    ensures
        r.0 == wrap32(s32(a) + s32(b)),
        r.1 == overflows32(s32(a) + s32(b)),
{
    let s: i64 = to_signed(a) + to_signed(b);
    (to_pattern(s), s < -0x8000_0000 || s > 0x7FFF_FFFF)
}

/// Subtract, noting signed overflow.
pub fn subv(a: u32, b: u32) -> (r: (u32, bool))
    ensures
        r.0 == wrap32(s32(a) - s32(b)),
        r.1 == overflows32(s32(a) - s32(b)),
{
    let s: i64 = to_signed(a) - to_signed(b);
    (to_pattern(s), s < -0x8000_0000 || s > 0x7FFF_FFFF)
}

/// The upper 32 bits of a 64-bit result.
pub open spec fn high32(i: int) -> u32 {
    wrap32(i / 0x1_0000_0000)
}

/// The upper 32 bits.
pub fn high_pattern(i: i64) -> (r: u32)
    ensures
        r == high32(i as int),
{
    if i >= 0 {
        (i as u64 / 0x1_0000_0000) as u32
    } else {
        let k: u64 = (-(i + 1)) as u64 / 0x1_0000_0000;
        assert(i as int / 0x1_0000_0000 == -(k as int) - 1);
        (0xFFFF_FFFF - k) as u32
    }
}

/// Signed 32 by 32 multiplication.
pub fn multiply_signed(a: u32, b: u32) -> (r: (u32, u32))
    ensures
        r.0 == high32(s32(a) * s32(b)),
        r.1 == wrap32(s32(a) * s32(b)),
{
    let x: i64 = to_signed(a);
    let y: i64 = to_signed(b);
    proof {
        product_fits(x as int, y as int);
    }
    let p: i64 = x * y;
    (high_pattern(p), to_pattern(p))
}

/// The product of two signed 32-bit numbers fits into 64 bits.
proof fn product_fits(x: int, y: int)
    requires
        -0x8000_0000 <= x < 0x8000_0000,
        -0x8000_0000 <= y < 0x8000_0000,
    ensures
        -0x4000_0000_0000_0000 <= x * y <= 0x4000_0000_0000_0000,
{
    assert(-0x4000_0000_0000_0000 <= x * y <= 0x4000_0000_0000_0000) by (nonlinear_arith)
        requires
            -0x8000_0000 <= x < 0x8000_0000,
            -0x8000_0000 <= y < 0x8000_0000,
    ;
}

/// Unsigned 32 by 32 multiplication.
pub fn multiply_unsigned(a: u32, b: u32) -> (r: (u32, u32))
    ensures
        r.0 == high32(a * b),
        r.1 == wrap32(a * b),
{
    assert(0 <= a * b <= 0xFFFF_FFFE_0000_0001) by (nonlinear_arith)
        requires
            0 <= a <= 0xFFFF_FFFF,
            0 <= b <= 0xFFFF_FFFF,
    ;
    let p: u64 = (a as u64) * (b as u64);
    ((p / 0x1_0000_0000) as u32, (p % 0x1_0000_0000) as u32)
}

/// The low half of a register as a signed number.
pub open spec fn s16(x: u32) -> int {
    if x % 0x1_0000 < 0x8000 {
        (x % 0x1_0000) as int
    } else {
        x % 0x1_0000 - 0x1_0000
    }
}

/// The low half of a register as a signed number.
pub fn low_signed(x: u32) -> (r: i64)
    ensures
        r == s16(x),
        -0x8000 <= r < 0x8000,
{
    let v: u32 = x % 0x1_0000;
    if v < 0x8000 {
        v as i64
    } else {
        v as i64 - 0x1_0000
    }
}

/// The product of two signed 16-bit numbers fits easily.
proof fn small_product_fits(x: int, y: int)
    requires
        -0x8000 <= x < 0x8000,
        -0x8000 <= y < 0x8000,
    ensures
        -0x4000_0000 <= x * y <= 0x4000_0000,
{
    assert(-0x4000_0000 <= x * y <= 0x4000_0000) by (nonlinear_arith)
        requires
            -0x8000 <= x < 0x8000,
            -0x8000 <= y < 0x8000,
    ;
}

/// Signed 16 by 16 multiplication.
pub fn multiply_words(a: u32, b: u32) -> (r: u32)
    ensures
        r == wrap32(s16(a) * s16(b)),
{
    let x: i64 = low_signed(a);
    let y: i64 = low_signed(b);
    proof {
        small_product_fits(x as int, y as int);
    }
    to_pattern(x * y)
}

/// Unsigned 16 by 16 multiplication.
pub fn multiply_words_unsigned(a: u32, b: u32) -> (r: u32)
    ensures
        r == wrap32((a % 0x1_0000) * (b % 0x1_0000)),
{
    let x: u32 = a % 0x1_0000;
    let y: u32 = b % 0x1_0000;
    assert(0 <= x * y <= 0xFFFE_0001) by (nonlinear_arith)
        requires
            0 <= x <= 0xFFFF,
            0 <= y <= 0xFFFF,
    ;
    x * y
}

/// A number brought back into 64 signed bits.
pub open spec fn wrap64(i: int) -> int {
    let m = i % 0x1_0000_0000_0000_0000;
    if m < 0x8000_0000_0000_0000 {
        m
    } else {
        m - 0x1_0000_0000_0000_0000
    }
}

/// A number kept within two bounds. Where it is outside, the sign of the last
/// product decides the bound.
pub open spec fn saturated(sum: int, product: int, low: int, high: int) -> int {
    if low <= sum <= high {
        sum
    } else if product < 0 {
        low
    } else {
        high
    }
}

/// MACH and MACL after a long word multiply-accumulate. With saturation on, the
/// sum keeps to 48 bits.
pub open spec fn mac_long(mach: u32, macl: u32, a: u32, b: u32, saturate: bool) -> (u32, u32) {
    let product = s32(a) * s32(b);
    let sum = wrap64(s32(mach) * 0x1_0000_0000 + macl + product);
    let kept = if saturate {
        saturated(sum, product, -0x8000_0000_0000, 0x7FFF_FFFF_FFFF)
    } else {
        sum
    };
    (high32(kept), wrap32(kept))
}

/// Multiply-accumulate long words.
pub fn accumulate_long(mach: u32, macl: u32, a: u32, b: u32, saturate: bool) -> (r: (u32, u32))
    ensures
        r == mac_long(mach, macl, a, b, saturate),
{
    let x: i64 = to_signed(a);
    let y: i64 = to_signed(b);
    proof {
        product_fits(x as int, y as int);
    }
    let product: i64 = x * y;
    let mac: i64 = to_signed(mach) * 0x1_0000_0000 + macl as i64;
    let sum: i64 = mac.wrapping_add(product);
    assert(sum == wrap64(mac + product));
    let kept: i64 = if !saturate {
        sum
    } else if -0x8000_0000_0000 <= sum && sum <= 0x7FFF_FFFF_FFFF {
        sum
    } else if product < 0 {
        -0x8000_0000_0000
    } else {
        0x7FFF_FFFF_FFFF
    };
    (high_pattern(kept), to_pattern(kept))
}

/// MACH and MACL after a word multiply-accumulate. With saturation on, the sum
/// keeps to 32 bits and MACH notes an overflow.
pub open spec fn mac_word(mach: u32, macl: u32, a: u16, b: u16, saturate: bool) -> (u32, u32) {
    let product = s16(a as u32) * s16(b as u32);
    let sum = s32(macl) + product;
    if saturate {
        (
            if overflows32(sum) {
                mach | 1
            } else {
                mach
            },
            wrap32(saturated(sum, product, -0x8000_0000, 0x7FFF_FFFF)),
        )
    } else {
        (high32(sum), wrap32(sum))
    }
}

/// Multiply-accumulate words.
pub fn accumulate_word(mach: u32, macl: u32, a: u16, b: u16, saturate: bool) -> (r: (u32, u32))
    ensures
        r == mac_word(mach, macl, a, b, saturate),
{
    let x: i64 = low_signed(a as u32);
    let y: i64 = low_signed(b as u32);
    proof {
        small_product_fits(x as int, y as int);
    }
    let product: i64 = x * y;
    let sum: i64 = to_signed(macl) + product;
    if !saturate {
        (high_pattern(sum), to_pattern(sum))
    } else if -0x8000_0000 <= sum && sum <= 0x7FFF_FFFF {
        (mach, to_pattern(sum))
    } else if product < 0 {
        (mach | 1, to_pattern(-0x8000_0000))
    } else {
        (mach | 1, to_pattern(0x7FFF_FFFF))
    }
}

/// One step of a division: the register and the status register after it.
pub open spec fn div_step(rn: u32, rm: u32, sr: u32) -> (u32, u32) {
    let old_q = sr_has(sr, SR_Q);
    let shifted_q = rn >= 0x8000_0000;
    let sr1 = sr_with(sr, SR_Q, shifted_q);
    let tmp = (rn.wrapping_mul(2) + if sr_has(sr1, SR_T) {
        1int
    } else {
        0
    }) as u32;
    let m_flag = sr_has(sr1, SR_M);
    let r = if old_q == m_flag {
        tmp.wrapping_sub(rm)
    } else {
        tmp.wrapping_add(rm)
    };
    let carried = if old_q == m_flag {
        r > tmp
    } else {
        r < tmp
    };
    // Subtraction feeds the borrow back, addition the carry, each turned round by
    // the bit that was shifted out and by M.
    let new_q = if shifted_q == m_flag {
        carried
    } else {
        !carried
    };
    let sr2 = sr_with(sr1, SR_Q, new_q);
    (r, sr_with(sr2, SR_T, sr_has(sr2, SR_Q) == sr_has(sr2, SR_M)))
}

/// Do one step of a division.
pub fn divide_step(rn: u32, rm: u32, sr: u32) -> (r: (u32, u32))
    ensures
        r == div_step(rn, rm, sr),
{
    let old_q: bool = sr & SR_Q != 0;
    let shifted_q: bool = rn >= 0x8000_0000;
    let sr1: u32 = set_sr_bit(sr, SR_Q, shifted_q);
    let doubled: u32 = rn.wrapping_mul(2);
    assert(doubled <= 0xFFFF_FFFE) by {
        doubled_is_even(rn);
    }
    let tmp: u32 = doubled + if sr1 & SR_T != 0 {
        1
    } else {
        0
    };
    let m_flag: bool = sr1 & SR_M != 0;
    let result: u32 = if old_q == m_flag {
        tmp.wrapping_sub(rm)
    } else {
        tmp.wrapping_add(rm)
    };
    let carried: bool = if old_q == m_flag {
        result > tmp
    } else {
        result < tmp
    };
    let new_q: bool = if shifted_q == m_flag {
        carried
    } else {
        !carried
    };
    let sr2: u32 = set_sr_bit(sr1, SR_Q, new_q);
    let q: bool = sr2 & SR_Q != 0;
    let m: bool = sr2 & SR_M != 0;
    (result, set_sr_bit(sr2, SR_T, q == m))
}

/// Twice a number, cut to 32 bits, leaves room for one more bit.
pub proof fn doubled_is_even(x: u32)
    ensures
        x.wrapping_mul(2) <= 0xFFFF_FFFE,
        x.wrapping_mul(2) == (if x < 0x8000_0000 { 2 * x } else { 2 * x - 0x1_0000_0000 }),
{
}

} // verus!
