//! What holds of the division unit and of the timer.

use crate::arith::{quotient64, s32, trunc_div, trunc_rem, wrap32};
use crate::sh2::bus::{timer_run, BusView};
use crate::sh2::onchip::frt_unit;
use crate::sh2::onchip_write::{dividend64, divided32, divided64};
use crate::sh2_onchip::Sh2OnChip;
use vstd::prelude::*;

verus! {

/// The magnitude of a number.
pub open spec fn magnitude_of(x: int) -> int {
    if x >= 0 {
        x
    } else {
        -x
    }
}

/// Rounding towards zero: the remainder is smaller than the divisor and has the sign of
/// the dividend.
pub proof fn remainder_is_small(a: int, b: int)
    requires
        b != 0,
    ensures
        a == b * trunc_div(a, b) + trunc_rem(a, b),
        magnitude_of(trunc_rem(a, b)) < magnitude_of(b),
        a >= 0 ==> trunc_rem(a, b) >= 0,
        a <= 0 ==> trunc_rem(a, b) <= 0,
        magnitude_of(trunc_div(a, b)) <= magnitude_of(a),
{
    let ua = magnitude_of(a);
    let ub = magnitude_of(b);
    let q = ua / ub;
    vstd::arithmetic::div_mod::lemma_fundamental_div_mod(ua, ub);
    vstd::arithmetic::div_mod::lemma_mod_bound(ua, ub);
    assert(0 <= q <= ua) by (nonlinear_arith)
        requires
            q == ua / ub,
            ua >= 0,
            ub >= 1,
    ;
    assert(b * trunc_div(a, b) == if a >= 0 {
        ub * q
    } else {
        -(ub * q)
    }) by (nonlinear_arith)
        requires
            b != 0,
            ub == (if b >= 0 {
                b
            } else {
                -b
            }),
            trunc_div(a, b) == (if (a >= 0) == (b > 0) {
                q
            } else {
                -q
            }),
    ;
}

/// A number that fits in 32 bits survives being stored in a register.
proof fn register_keeps(i: int)
    requires
        -0x8000_0000 <= i < 0x8000_0000,
    ensures
        s32(wrap32(i)) == i,
{
}

/// The division of 32 by 32 bits: quotient times divisor plus remainder is the dividend,
/// and the remainder is smaller than the divisor. The one quotient that does not fit is
/// left out.
pub proof fn division_is_exact(o: Sh2OnChip, val: u32)
    requires
        o.dvsr != 0,
        !(val == 0x8000_0000 && o.dvsr == 0xFFFF_FFFF),
    ensures
        !divided32(o, val).1,
        s32(val) == s32(o.dvsr) * s32(divided32(o, val).0.dvdntl) + s32(
            divided32(o, val).0.dvdnth,
        ),
        magnitude_of(s32(divided32(o, val).0.dvdnth)) < magnitude_of(s32(o.dvsr)),
{
    reveal(divided32);
    let a = s32(val);
    let b = s32(o.dvsr);
    remainder_is_small(a, b);
    let q = trunc_div(a, b);
    if q == 0x8000_0000 {
        assert(a == -0x8000_0000);
        assert(b == -1) by (nonlinear_arith)
            requires
                a == b * q + trunc_rem(a, b),
                a == -0x8000_0000,
                q == 0x8000_0000,
                trunc_rem(a, b) <= 0,
                -0x8000_0000 <= b,
                trunc_rem(a, b) > -0x8000_0000,
        ;
    }
    register_keeps(q);
    register_keeps(trunc_rem(a, b));
}

/// The division of 64 by 32 bits: quotient times divisor plus remainder is the dividend,
/// wherever the quotient fits in 32 bits.
pub proof fn long_division_is_exact(o: Sh2OnChip, val: u32)
    requires
        o.dvsr != 0,
        -0x8000_0000 <= trunc_div(dividend64(o.dvdnth, val), s32(o.dvsr)) < 0x8000_0000,
    ensures
        !divided64(o, val).1,
        dividend64(o.dvdnth, val) == s32(o.dvsr) * s32(divided64(o, val).0.dvdntl) + s32(
            divided64(o, val).0.dvdnth,
        ),
        magnitude_of(s32(divided64(o, val).0.dvdnth)) < magnitude_of(s32(o.dvsr)),
{
    reveal(divided64);
    let a = dividend64(o.dvdnth, val);
    let b = s32(o.dvsr);
    remainder_is_small(a, b);
    if a == -0x8000_0000_0000_0000 && b == -1 {
        vstd::arithmetic::div_mod::lemma_div_basics(0x8000_0000_0000_0000);
        assert(trunc_div(a, b) == 0x8000_0000_0000_0000);
    }
    assert(quotient64(a, b) == trunc_div(a, b));
    register_keeps(trunc_div(a, b));
    register_keeps(trunc_rem(a, b));
}

/// Dividing by zero is an overflow, which is noted.
pub proof fn division_by_zero_overflows(o: Sh2OnChip, val: u32)
    requires
        o.dvsr == 0,
    ensures
        divided32(o, val).1,
        divided64(o, val).1,
        divided32(o, val).0.dvcr == o.dvcr | 1,
        divided64(o, val).0.dvcr == o.dvcr | 1,
{
    reveal(divided32);
    reveal(divided64);
}

/// How many cycles the timer has counted since it was last at zero.
pub open spec fn timer_position(b: BusView) -> int {
    b.onchip.frc * frt_unit(b.frc_shift as int) + b.frc_leftover
}

/// The timer counts every cycle, as long as no match clears it: its position moves on by
/// the cycles, and starts over after 65536 counts.
pub proof fn timer_counts_every_cycle(b: BusView, cycles: int)
    requires
        b.frc_shift <= 7,
        b.onchip.ftcsr & 0x01 == 0,
        0 <= cycles,
    ensures
        timer_position(timer_run(b, cycles)) == (timer_position(b) + cycles) % (0x1_0000 * frt_unit(
            b.frc_shift as int,
        )),
        timer_run(b, cycles).frc_shift == b.frc_shift,
        timer_run(b, cycles).onchip.ftcsr & 0x01 == 0,
        timer_run(b, cycles).frc_leftover < frt_unit(b.frc_shift as int),
{
    reveal(timer_run);
    let unit = frt_unit(b.frc_shift as int);
    let total = cycles + b.frc_leftover;
    let raw = b.onchip.frc + total / unit;
    let t = timer_run(b, cycles);
    let f = b.onchip.ftcsr;
    assert((f | 0x08) & 0x01 == f & 0x01) by (bit_vector);
    assert((f | 0x04) & 0x01 == f & 0x01) by (bit_vector);
    assert((f | 0x02) & 0x01 == f & 0x01) by (bit_vector);
    assert(((f | 0x08) | 0x04) & 0x01 == f & 0x01) by (bit_vector);
    assert(((f | 0x08) | 0x02) & 0x01 == f & 0x01) by (bit_vector);
    assert(((f | 0x04) | 0x02) & 0x01 == f & 0x01) by (bit_vector);
    assert((((f | 0x08) | 0x04) | 0x02) & 0x01 == f & 0x01) by (bit_vector);
    assert(unit == 8 || unit == 32 || unit == 128 || unit == 1 || unit == 2 || unit == 4 || unit
        == 16 || unit == 64);
    vstd::arithmetic::div_mod::lemma_fundamental_div_mod(total, unit);
    vstd::arithmetic::div_mod::lemma_mod_bound(total, unit);
    assert(total >= 0);
    assert(total / unit >= 0) by {
        vstd::arithmetic::div_mod::lemma_div_pos_is_pos(total, unit);
    }
    assert(t.onchip.frc == raw % 0x1_0000);
    assert(t.frc_leftover == total % unit);
    let pos = timer_position(b) + cycles;
    let wraps = raw / 0x1_0000;
    assert(pos == raw * unit + total % unit) by (nonlinear_arith)
        requires
            pos == b.onchip.frc * unit + b.frc_leftover + cycles,
            total == cycles + b.frc_leftover,
            total == unit * (total / unit) + total % unit,
            raw == b.onchip.frc + total / unit,
    ;
    assert(pos == wraps * (0x1_0000 * unit) + ((raw % 0x1_0000) * unit + total % unit)) by (
    nonlinear_arith)
        requires
            pos == raw * unit + total % unit,
            raw == wraps * 0x1_0000 + raw % 0x1_0000,
    ;
    assert(0 <= (raw % 0x1_0000) * unit + total % unit < 0x1_0000 * unit) by (nonlinear_arith)
        requires
            0 <= raw % 0x1_0000 < 0x1_0000,
            0 <= total % unit < unit,
    ;
    vstd::arithmetic::div_mod::lemma_fundamental_div_mod_converse(
        pos,
        0x1_0000 * unit,
        wraps,
        (raw % 0x1_0000) * unit + total % unit,
    );
}

/// It makes no difference to the timer's position in how many pieces time passes.
pub proof fn timer_does_not_mind_pieces(b: BusView, first: int, second: int)
    requires
        b.frc_shift <= 7,
        b.onchip.ftcsr & 0x01 == 0,
        0 <= first,
        0 <= second,
    ensures
        timer_position(timer_run(timer_run(b, first), second)) == timer_position(
            timer_run(b, first + second),
        ),
{
    let unit = frt_unit(b.frc_shift as int);
    timer_counts_every_cycle(b, first);
    timer_counts_every_cycle(timer_run(b, first), second);
    timer_counts_every_cycle(b, first + second);
    assert(unit >= 1);
    vstd::arithmetic::div_mod::lemma_add_mod_noop(
        timer_position(b) + first,
        second,
        0x1_0000 * unit,
    );
    vstd::arithmetic::div_mod::lemma_add_mod_noop(
        (timer_position(b) + first) % (0x1_0000 * unit),
        second,
        0x1_0000 * unit,
    );
    vstd::arithmetic::div_mod::lemma_mod_twice(timer_position(b) + first, 0x1_0000 * unit);
}

} // verus!
