//! What holds of the status register, whatever is executed.

use crate::interrupts::queue_top;
use crate::sh2::alu::{div_step, sr_with, SR_M, SR_Q, SR_S, SR_T, SR_WRITE_MASK};
use crate::sh2::bus::load16;
use crate::sh2::exec::{
    entered, group0, group2, group3, group4_mem, group4_regs, group6, group8, group_c, mac_l,
    mac_w, op_m, op_n, plain_executed, tas,
};
use crate::sh2::irq::{sound_line_polled, NMI_LEVEL};
use crate::sh2::step::{
    branch_of, delay_slot, executed, fetched, masked_sr, performed, serviced, stepped, was_reset,
};
use crate::sh2::store::NESTING_LIMIT;
use crate::sh2::Machine;
use vstd::prelude::*;

verus! {

/// Whether only bits that exist are set: T, S, the interrupt mask, Q and M.
pub open spec fn only_known_bits(sr: u32) -> bool {
    sr & !SR_WRITE_MASK == 0
}

/// The flags are bits that exist.
proof fn flags_are_known(sr: u32, on: bool)
    requires
        only_known_bits(sr),
    ensures
        only_known_bits(sr_with(sr, SR_T, on)),
        only_known_bits(sr_with(sr, SR_S, on)),
        only_known_bits(sr_with(sr, SR_M, on)),
        only_known_bits(sr_with(sr, SR_Q, on)),
{
    assert(sr & !0x3F3u32 == 0 ==> (sr | 1) & !0x3F3u32 == 0 && (sr & !1u32) & !0x3F3u32 == 0 && (sr
        | 2) & !0x3F3u32 == 0 && (sr & !2u32) & !0x3F3u32 == 0 && (sr | 0x100) & !0x3F3u32 == 0 && (
    sr & !0x100u32) & !0x3F3u32 == 0 && (sr | 0x200) & !0x3F3u32 == 0 && (sr & !0x200u32)
        & !0x3F3u32 == 0) by (bit_vector);
}

/// A value cut to the bits that exist has no other, and clearing bits sets none.
proof fn cut_is_known(v: u32, sr: u32)
    ensures
        only_known_bits(v & SR_WRITE_MASK),
        only_known_bits(sr) ==> only_known_bits(sr & !(SR_T | SR_M | SR_Q)),
{
    assert((v & 0x3F3) & !0x3F3u32 == 0 && (sr & !0x3F3u32 == 0 ==> (sr & !(1u32 | 0x100u32
        | 0x200u32)) & !0x3F3u32 == 0)) by (bit_vector);
}

/// A machine with T set to an outcome.
proof fn outcome_is_known(m: Machine)
    requires
        only_known_bits(m.sr),
    ensures
        forall|on: bool| only_known_bits(#[trigger] m.with_t(on).sr),
{
    flags_are_known(m.sr, true);
    flags_are_known(m.sr, false);
}

proof fn group0_keeps(m: Machine, op: u16)
    requires
        only_known_bits(m.sr),
    ensures
        only_known_bits(group0(m, op).sr),
{
    reveal(group0);
    reveal(entered);
    reveal(mac_l);
    outcome_is_known(m);
    cut_is_known(0, m.sr);
}

proof fn group2_keeps(m: Machine, op: u16)
    requires
        only_known_bits(m.sr),
    ensures
        only_known_bits(group2(m, op).sr),
{
    reveal(group2);
    reveal(entered);
    outcome_is_known(m);
    assert forall|q: bool, k: bool, t: bool|
        only_known_bits(#[trigger] m.with_flag(SR_Q, q).with_flag(SR_M, k).with_t(t).sr) by {
        flags_are_known(m.sr, q);
        flags_are_known(m.with_flag(SR_Q, q).sr, k);
        flags_are_known(m.with_flag(SR_Q, q).with_flag(SR_M, k).sr, t);
    }
}

/// A step of a division only touches Q and T.
proof fn division_keeps(rn: u32, rm: u32, sr: u32)
    requires
        only_known_bits(sr),
    ensures
        only_known_bits(div_step(rn, rm, sr).1),
{
    assert forall|a: bool, b: bool, c: bool|
        only_known_bits(
            #[trigger] sr_with(sr_with(sr_with(sr, SR_Q, a), SR_Q, b), SR_T, c),
        ) by {
        flags_are_known(sr, a);
        flags_are_known(sr_with(sr, SR_Q, a), b);
        flags_are_known(sr_with(sr_with(sr, SR_Q, a), SR_Q, b), c);
    }
}

proof fn group3_keeps(m: Machine, op: u16)
    requires
        only_known_bits(m.sr),
    ensures
        only_known_bits(group3(m, op).sr),
{
    reveal(group3);
    reveal(entered);
    outcome_is_known(m);
    flags_are_known(m.sr, true);
    flags_are_known(m.sr, false);
    division_keeps(m.r[op_n(op)], m.r[op_m(op)], m.sr);
}

proof fn group4_keeps(m: Machine, op: u16)
    requires
        only_known_bits(m.sr),
    ensures
        only_known_bits(group4_regs(m, op).sr),
        only_known_bits(group4_mem(m, op).sr),
{
    reveal(group4_regs);
    reveal(group4_mem);
    reveal(entered);
    reveal(tas);
    reveal(mac_w);
    flags_are_known(m.sr, true);
    flags_are_known(m.sr, false);
    assert forall|v: u32| only_known_bits(#[trigger] (v & SR_WRITE_MASK)) by {
        cut_is_known(v, 0);
    }
}

proof fn group6_keeps(m: Machine, op: u16)
    requires
        only_known_bits(m.sr),
    ensures
        only_known_bits(group6(m, op).sr),
        only_known_bits(group8(m, op).sr),
        only_known_bits(group_c(m, op).sr),
{
    reveal(group6);
    reveal(group8);
    reveal(group_c);
    reveal(entered);
    flags_are_known(m.sr, true);
    flags_are_known(m.sr, false);
}

proof fn plain_keeps(m: Machine, op: u16)
    requires
        only_known_bits(m.sr),
    ensures
        only_known_bits(plain_executed(m, op).sr),
{
    reveal(plain_executed);
    reveal(entered);
    group0_keeps(m, op);
    group2_keeps(m, op);
    group3_keeps(m, op);
    group4_keeps(m, op);
    group6_keeps(m, op);
}

proof fn branches_keep(m: Machine, op: u16)
    requires
        only_known_bits(m.sr),
    ensures
        branch_of(m, op) matches Some((m1, _)) ==> only_known_bits(m1.sr),
{
    reveal(branch_of);
    assert forall|v: u32| only_known_bits(#[trigger] (v & SR_WRITE_MASK)) by {
        cut_is_known(v, 0);
    }
}

proof fn executed_keeps(m: Machine, op: u16, depth: nat)
    requires
        only_known_bits(m.sr),
    ensures
        only_known_bits(executed(m, op, depth).sr),
    decreases depth,
{
    branches_keep(m, op);
    plain_keeps(m, op);
    match branch_of(m, op) {
        Some((m1, target)) => {
            if depth > 0 {
                let (b, slot) = load16(m1.bus, m1.pc);
                let m2 = Machine { pc: target.wrapping_sub(2), bus: b, ..m1 };
                executed_keeps(m2, slot, (depth - 1) as nat);
                assert(delay_slot(m1, target, depth).sr == executed(
                    m2,
                    slot,
                    (depth - 1) as nat,
                ).sr);
            }
        },
        None => {},
    }
}

/// No instruction sets a bit of the status register that does not exist.
pub proof fn instructions_set_known_bits(m: Machine, op: u16)
    requires
        only_known_bits(m.sr),
    ensures
        only_known_bits(performed(m, op).sr),
{
    reveal(performed);
    executed_keeps(m, op, NESTING_LIMIT as nat);
}

/// Nor does serving an interrupt of a level that exists.
pub proof fn interrupts_set_known_bits(m: Machine)
    requires
        only_known_bits(m.sr),
        queue_top(sound_line_polled(m.bus.irq).queue()) matches Some(top) ==> top.level
            <= NMI_LEVEL,
    ensures
        only_known_bits(serviced(m).sr),
{
    reveal(serviced);
    reveal(entered);
    match queue_top(sound_line_polled(m.bus.irq).queue()) {
        Some(top) => {
            let sr = m.sr;
            let mask: u32 = if top.level == NMI_LEVEL {
                15
            } else {
                top.level as u32
            };
            let field: u32 = (mask * 16) as u32;
            assert(field <= 0xF0 && field % 16 == 0);
            assert(((sr & !0xF0u32) | field) & !0x3F3u32 == 0) by (bit_vector)
                requires
                    sr & !0x3F3u32 == 0,
                    field <= 0xF0,
                    field % 16 == 0,
            ;
            assert(masked_sr(m.sr, top.level) == (sr & !0xF0u32) | field);
        },
        None => {},
    }
}

/// So a step of the machine keeps to the bits that exist, and a reset sets no other.
pub proof fn steps_set_known_bits(m: Machine)
    requires
        only_known_bits(m.sr),
        queue_top(sound_line_polled(m.bus.irq).queue()) matches Some(top) ==> top.level
            <= NMI_LEVEL,
    ensures
        only_known_bits(stepped(m).sr),
        only_known_bits(was_reset(m).sr),
{
    reveal(stepped);
    reveal(fetched);
    reveal(was_reset);
    interrupts_set_known_bits(m);
    let (m1, op) = fetched(serviced(m));
    instructions_set_known_bits(m1, op);
    assert(0xF0u32 & !0x3F3u32 == 0) by (bit_vector);
}

} // verus!
