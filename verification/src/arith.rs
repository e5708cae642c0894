//! Fixed-width and truncating integer arithmetic.

use vstd::prelude::*;

verus! {

/// The value of a 32-bit pattern as a signed number.
pub open spec fn s32(x: u32) -> int {
    if x < 0x8000_0000 {
        x as int
    } else {
        x - 0x1_0000_0000
    }
}

/// The 32-bit pattern of a number, whatever does not fit cut off.
pub open spec fn wrap32(i: int) -> u32 {
    (i % 0x1_0000_0000) as u32
}

/// Division that rounds towards zero.
pub open spec fn trunc_div(a: int, b: int) -> int {
    if a >= 0 && b > 0 {
        a / b
    } else if a >= 0 {
        -(a / (-b))
    } else if b > 0 {
        -((-a) / b)
    } else {
        (-a) / (-b)
    }
}

/// The remainder that goes with it; it has the sign of the dividend.
pub open spec fn trunc_rem(a: int, b: int) -> int {
    a - b * trunc_div(a, b)
}

/// The value of a 32-bit pattern as a signed number.
pub fn to_signed(x: u32) -> (r: i64)
    ensures
        r == s32(x),
        -0x8000_0000 <= r < 0x8000_0000,
{
    if x < 0x8000_0000 {
        x as i64
    } else {
        x as i64 - 0x1_0000_0000
    }
}

/// The low 32 bits of a number.
pub fn to_pattern(i: i64) -> (r: u32)
    ensures
        r == wrap32(i as int),
{
    if i >= 0 {
        (i as u64 % 0x1_0000_0000) as u32
    } else {
        let m: u64 = ((-(i + 1)) as u64) % 0x1_0000_0000;
        proof {
            let k = -(i + 1);
            assert(i as int % 0x1_0000_0000 == 0xFFFF_FFFF - k % 0x1_0000_0000);
        }
        (0xFFFF_FFFF - m) as u32
    }
}

/// Quotient and remainder, rounded towards zero. The one quotient that does not
/// fit wraps around.
pub open spec fn quotient64(a: int, b: int) -> int {
    if a == -0x8000_0000_0000_0000 && b == -1 {
        a
    } else {
        trunc_div(a, b)
    }
}

/// Divide two signed numbers.
pub fn divide(a: i64, b: i64) -> (r: (i64, i64))
    requires
        b != 0,
    ensures
        r.0 == quotient64(a as int, b as int),
        r.1 == trunc_rem(a as int, b as int),
{
    if a == i64::MIN && b == -1 {
        proof {
            vstd::arithmetic::div_mod::lemma_div_basics(0x8000_0000_0000_0000);
            assert(trunc_div(a as int, b as int) == 0x8000_0000_0000_0000);
        }
        return (i64::MIN, 0);
    }
    let ua: u64 = magnitude(a);
    let ub: u64 = magnitude(b);
    let uq: u64 = ua / ub;
    let ur: u64 = ua % ub;
    proof {
        let (ai, bi) = (a as int, b as int);
        vstd::arithmetic::div_mod::lemma_fundamental_div_mod(ua as int, ub as int);
        assert(uq <= ua && (ub > 1 && ua > 0 ==> uq < ua)) by (nonlinear_arith)
            requires
                ub >= 1,
                uq == ua as int / ub as int,
        ;
        assert(trunc_div(ai, bi) == if (ai >= 0) == (bi > 0) {
            uq as int
        } else {
            -(uq as int)
        });
        assert(bi * trunc_div(ai, bi) == if ai >= 0 {
            ub * uq
        } else {
            -(ub * uq)
        }) by (nonlinear_arith)
            requires
                bi != 0,
                ub == (if bi >= 0 { bi } else { -bi }),
                trunc_div(ai, bi) == (if (ai >= 0) == (bi > 0) { uq as int } else { -(uq as int) }),
        ;
    }
    let q: i64 = if (a >= 0) == (b > 0) {
        uq as i64
    } else {
        negated(uq)
    };
    let r: i64 = if a >= 0 {
        ur as i64
    } else {
        negated(ur)
    };
    (q, r)
}

/// The distance of a number from zero.
fn magnitude(x: i64) -> (r: u64)
    ensures
        r == (if x >= 0 { x as int } else { -x }),
{
    if x >= 0 {
        x as u64
    } else {
        (-(x + 1)) as u64 + 1
    }
}

/// The negative of a number.
fn negated(x: u64) -> (r: i64)
    requires
        x <= 0x8000_0000_0000_0000,
    ensures
        r == -x,
{
    if x == 0 {
        0
    } else {
        -((x - 1) as i64) - 1
    }
}

/// A number brought into 16 signed bits.
pub open spec fn wrap_s16(x: int) -> int {
    (x + 0x8000) % 0x1_0000 - 0x8000
}

/// A number brought into 32 signed bits.
pub open spec fn wrap_s32(x: int) -> int {
    (x + 0x8000_0000) % 0x1_0000_0000 - 0x8000_0000
}

/// Bring a number into 16 signed bits.
pub fn low16(x: i64) -> (r: i64)
    ensures
        r == wrap_s16(x as int),
        -0x8000 <= r < 0x8000,
{
    let m: u32 = to_pattern(x) % 0x1_0000;
    assert(m == x as int % 0x1_0000);
    if m < 0x8000 {
        m as i64
    } else {
        m as i64 - 0x1_0000
    }
}

/// Bring a number into 32 signed bits.
pub fn low32(x: i64) -> (r: i64)
    ensures
        r == wrap_s32(x as int),
        -0x8000_0000 <= r < 0x8000_0000,
{
    let m: u32 = to_pattern(x);
    if m < 0x8000_0000 {
        m as i64
    } else {
        m as i64 - 0x1_0000_0000
    }
}

/// Divide, rounding down.
pub fn floor_div(x: i64, d: i64) -> (r: i64)
    requires
        d > 0,
    ensures
        r == x as int / d as int,
{
    if x >= 0 {
        x / d
    } else {
        let k: i64 = -(x + 1);
        let q: i64 = k / d;
        proof {
            let (xi, di, ki) = (x as int, d as int, k as int);
            vstd::arithmetic::div_mod::lemma_fundamental_div_mod(ki, di);
            let rem = ki % di;
            assert(xi == di * (-(ki / di) - 1) + (di - 1 - rem)) by (nonlinear_arith)
                requires
                    xi == -ki - 1,
                    ki == di * (ki / di) + rem,
            ;
            vstd::arithmetic::div_mod::lemma_fundamental_div_mod_converse(
                xi,
                di,
                -(ki / di) - 1,
                di - 1 - rem,
            );
            assert(q <= k) by (nonlinear_arith)
                requires
                    q == ki / di,
                    ki >= 0,
                    di >= 1,
                    k == ki,
            ;
        }
        -q - 1
    }
}

} // verus!
