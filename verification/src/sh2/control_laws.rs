//! Undefined instructions, the fetch, interrupt lines, transfers and divisions as the registers
//! control them.

use crate::bytes::{rd32, wr32};
use crate::sh2::bus::{fallback_status, read16, smpc_written, timer_run, BusView};
use crate::sh2::exec::{entered, group0, group2, group3, group4_mem, plain_executed};
use crate::sh2::irq::{line_taken, sound_line_polled, IrqView, ThreadRequest};
use crate::sh2::map_laws::seen;
use crate::sh2::onchip::frt_unit;
use crate::sh2::onchip_write::{onchip_put8, onchip_set32};
use crate::sh2::opcode_laws::{
    byte_of, bytes_put_together, bytes_taken_apart, fields_ni, fields_nm, is_reg, op_ni, op_nm,
    plain_of_group,
};
use crate::sh2::region::{dma_unit_cost, miss_of, region_of, BusMiss};
use crate::sh2::step::{accepted, captured, fetched, masked_sr, performed, sync_batch};
use crate::sh2::store::{
    cd_command, channel_ended, chcr0_set, chcr1_set, dmaor_set, division_raised, scu_direct, scu_dma,
    scu_indirect, scu_step, with_byte, with_half, DmaChannel,
};
use crate::sh2::Machine;
use crate::sh2_onchip::Sh2OnChip;
use crate::shared_buffers::Memory;
use crate::smpc::oregs_filled;
use vstd::prelude::*;

verus! {

/// An undefined instruction is noted, costs a cycle and enters the exception of vector 4; the status
/// register stays as it is.
#[verifier::spinoff_prover]
pub proof fn undefined_instructions_trap(m: Machine, n: int, k: int, i: int)
    requires
        m.r.len() == 16,
        is_reg(n),
        is_reg(k),
        0 <= i < 256,
    ensures
        traps(m, op_nm(0x0000, n, k)),
        traps(m, op_nm(0x0001, n, k)),
        traps(m, op_nm(0x2003, n, k)),
        traps(m, op_nm(0x3001, n, k)),
        traps(m, op_nm(0x3009, n, k)),
        traps(m, op_ni(0x400C, n, 0)),
        traps(m, op_ni(0xF000, n, i)),
{
    assert(traps(m, op_ni(0xF000, n, i))) by {
        fields_ni(0xF, n, 0, i);
        plain_of_group(m, op_ni(0xF000, n, i));
        reveal(plain_executed);
    }
    undefined_in_groups(m, n, k);
}

#[verifier::spinoff_prover]
proof fn undefined_in_groups(m: Machine, n: int, k: int)
    requires
        m.r.len() == 16,
        is_reg(n),
        is_reg(k),
    ensures
        traps(m, op_nm(0x0000, n, k)),
        traps(m, op_nm(0x0001, n, k)),
        traps(m, op_nm(0x2003, n, k)),
        traps(m, op_nm(0x3001, n, k)),
        traps(m, op_nm(0x3009, n, k)),
        traps(m, op_ni(0x400C, n, 0)),
{
    reveal(group0);
    reveal(group2);
    reveal(group3);
    reveal(group4_mem);
    fields_nm(0, n, k, 0);
    plain_of_group(m, op_nm(0x0000, n, k));
    fields_nm(0, n, k, 1);
    plain_of_group(m, op_nm(0x0001, n, k));
    fields_nm(2, n, k, 3);
    plain_of_group(m, op_nm(0x2003, n, k));
    fields_nm(3, n, k, 1);
    plain_of_group(m, op_nm(0x3001, n, k));
    fields_nm(3, n, k, 9);
    plain_of_group(m, op_nm(0x3009, n, k));
    fields_ni(4, n, 0x0C, 0);
    plain_of_group(m, op_ni(0x400C, n, 0));
}

/// Whether an opcode is carried out as an undefined one.
pub open spec fn traps(m: Machine, op: u16) -> bool {
    let after = performed(m, op);
    let plain = entered(m, 4, m.sr);
    after == (Machine {
        illegal: true,
        bus: BusView { cycles: plain.bus.cycles.wrapping_add(1), ..plain.bus },
        ..plain
    })
}

/// An instruction is the word at the program counter, which moves on by two. At the top of memory
/// it comes from the data of the cache.
#[verifier::spinoff_prover]
pub proof fn instructions_are_fetched(m: Machine)
    requires
        m.bus.data_array.len() == 0x1000,
    ensures
        fetched(m).0.pc == (m.pc + 2) % 0x1_0000_0000,
        m.pc < 0xC000_0000 ==> fetched(m).1 == read16(m.bus, region_of(m.pc)),
        m.pc >= 0xC000_0000 ==> fetched(m).1 == m.bus.data_array[m.pc as int % 0x1000] * 0x100
            + m.bus.data_array[(m.pc + 1) % 0x1000],
{
    reveal(fetched);
    assert((m.pc as int % 0x1000 + 1) % 0x1000 == (m.pc + 1) % 0x1000);
    assert(m.pc as int % 0x1000 % 0x1000 == m.pc as int % 0x1000);
}

/// An interrupt is accepted above the mask in bits 4 to 7 of the status register, the non-maskable
/// one of level 16 always. Serving it sets the mask to its level, 15 at most, and keeps the rest.
#[verifier::spinoff_prover]
pub proof fn mask_decides(sr: u32, level: u8)
    requires
        level <= 16,
    ensures
        accepted(level, sr) <==> level > sr as int / 16 % 16 || level == 16,
        masked_sr(sr, level) as int / 16 % 16 == (if level == 16 {
            15int
        } else {
            level as int
        }),
        masked_sr(sr, level) as int % 16 == sr as int % 16,
        masked_sr(sr, level) as int / 256 == sr as int / 256,
{
    let l: u32 = if level == 16 {
        15
    } else {
        level as u32
    };
    let v: u32 = (l * 16) as u32;
    let r: u32 = (sr & !0xF0u32) | v;
    assert(r / 16 % 16 == l && r % 16 == sr % 16 && r / 256 == sr / 256) by (bit_vector)
        requires
            l <= 15,
            v == l * 16,
            r == (sr & !0xF0u32) | v,
    ;
}

/// Raising an interrupt notes it under its own flag: 0x40 the beam's return, 0x41 its end, 0x47 the
/// System Manager; and the core is woken.
#[verifier::spinoff_prover]
pub proof fn raised_interrupts_are_noted(i: IrqView, vector: u8, level: u8)
    ensures
        ({
            let j = i.sent(vector, level);
            &&& j.vblank_pending == (i.vblank_pending || vector == 0x40)
            &&& j.vblank_out_pending == (i.vblank_out_pending || vector == 0x41)
            &&& j.smpc_irq_pending == (i.smpc_irq_pending || vector == 0x47)
            &&& i.sync_linked ==> j.sync_requests == i.sync_requests.push(
                ThreadRequest { core: i.core_id, active: true },
            )
            &&& !i.sync_linked ==> j.sync_requests == i.sync_requests
        }),
        ({
            let j = i.removed(vector);
            &&& j.vblank_pending == (i.vblank_pending && vector != 0x40)
            &&& j.vblank_out_pending == (i.vblank_out_pending && vector != 0x41)
            &&& j.smpc_irq_pending == (i.smpc_irq_pending && vector != 0x47)
            &&& j.sync_requests == i.sync_requests
        }),
{
}

/// The line of the sound processor raises vector 0x46 at level 9 while it is up, takes it back while
/// it is down, and falls when the interrupt is taken.
#[verifier::spinoff_prover]
pub proof fn sound_line_is_followed(i: IrqView)
    ensures
        i.sound_req_irq == Some(true) ==> sound_line_polled(i) == i.sent(0x46, 9),
        i.sound_req_irq == Some(false) ==> sound_line_polled(i) == i.removed(0x46),
        i.sound_req_irq is None ==> sound_line_polled(i) == i,
        i.sound_req_irq is Some ==> line_taken(i, 0x46).sound_req_irq == Some(false),
{
    reveal(sound_line_polled);
    reveal(line_taken);
}

/// Writing the control register of a channel keeps its lower half, sets no end flag, and starts the
/// channel where it is enabled, has not ended, and the controller is on without an error.
#[verifier::spinoff_prover]
pub proof fn channels_are_started(o: Sh2OnChip, val: u32)
    ensures
        chcr0_set(o, val).0.chcr0 & 0xFFFF_FFFD == val & 0xFFFD,
        chcr1_set(o, val).0.chcr1 & 0xFFFF_FFFD == val & 0xFFFD,
        chcr0_set(o, val).0.chcr0 & 2 != 0 ==> o.chcr0 & 2 != 0,
        chcr1_set(o, val).0.chcr1 & 2 != 0 ==> o.chcr1 & 2 != 0,
        chcr0_set(o, val).1 <==> o.dmaor & 7 == 1 && val & 3 == 1,
        chcr1_set(o, val).1 <==> o.dmaor & 7 == 1 && chcr1_set(o, val).0.chcr1 & 3 == 1,
        dmaor_set(o, val).0.dmaor == val & 0xF,
        dmaor_set(o, val).1 <==> val & 7 == 1 && o.dmaor & 7 != 1,
{
    reveal(chcr0_set);
    reveal(chcr1_set);
    reveal(dmaor_set);
    let c0 = o.chcr0;
    let m0 = o.chcr0m;
    let c1 = o.chcr1;
    let m1 = o.chcr1m;
    assert(forall|v: u32, c: u32, mm: u32| #![auto]
        (((v & 0xFFFF) & !2u32) | (c & ((v & 0xFFFF) | mm) & 2)) & 0xFFFF_FFFD == v & 0xFFFD && ((((v
            & 0xFFFF) & !2u32) | (c & ((v & 0xFFFF) | mm) & 2)) & 2 != 0 ==> c & 2 != 0) && (v
            & 0xFFFF) & 3 == v & 3 && (v & 0xF) & 7 == v & 7) by (bit_vector);
}

/// The end of a channel is noted, and raises its vector at its level, from bits 8 to 11 of the
/// priorities, where its control register asks for that by bit 2.
#[verifier::spinoff_prover]
pub proof fn ended_channels_interrupt(b: BusView, ch: int, c: DmaChannel)
    requires
        ch == 0 || ch == 1,
    ensures
        c.chcr & 4 == 0 ==> channel_ended(b, ch, c).irq == b.irq,
        c.chcr & 4 != 0 ==> channel_ended(b, ch, c).irq == b.irq.sent(
            (c.vcrdma & 0xFF) as u8,
            (b.onchip.ipra as int / 0x100 % 16) as u8,
        ),
        ch == 0 ==> channel_ended(b, ch, c).onchip.chcr0m == b.onchip.chcr0m | 2,
        ch == 1 ==> channel_ended(b, ch, c).onchip.chcr1m == b.onchip.chcr1m | 2,
{
    reveal(channel_ended);
    let x = c.chcr;
    let p = b.onchip.ipra;
    assert((x | 2) & 4 == x & 4 && (p & 0xF00) >> 8 == p / 0x100 % 16) by (bit_vector);
}

/// A division that overflows raises its vector at the level in the top four bits of the priorities,
/// where bit 1 of the control register of the division unit asks for it.
#[verifier::spinoff_prover]
pub proof fn division_overflow_interrupts(b: BusView)
    ensures
        b.onchip.dvcr & 2 == 0 ==> division_raised(b) == b,
        b.onchip.dvcr & 2 != 0 ==> division_raised(b).irq == b.irq.sent(
            (b.onchip.vcrdiv % 128) as u8,
            (b.onchip.ipra / 0x1000) as u8,
        ),
{
    let v = b.onchip.vcrdiv;
    let p = b.onchip.ipra;
    assert(v & 0x7F == v % 128 && (p >> 12) & 0xF == p / 0x1000) by (bit_vector);
}

/// A transfer of the SCU moves its destination by two bytes, or by four and on to 128, in powers of
/// two.
pub proof fn scu_steps_are_powers_of_two(add: u32)
    ensures
        add % 8 <= 1 ==> scu_step(add) == 2,
        2 <= add % 8 ==> scu_step(add) == 2 * scu_step((add % 8 - 1) as u32),
{
}

/// The CD block answers a command that it has not answered yet with a fixed status.
pub proof fn cd_block_answers(b: BusView)
    requires
        b.ram.cs2_regs.len() == 0x1000,
    ensures
        ({
            let regs = b.ram.cs2_regs;
            let after = cd_command(b).ram.cs2_regs;
            &&& regs[0] == 0 || regs[0] == 2 ==> after[0] == 4 && after[1] == 0 && after[8] == 0
                && after[9] == 1
            &&& regs[0] != 0 && regs[0] != 2 ==> cd_command(b) == b
        }),
{
    reveal(cd_command);
}

/// A word written to half of a long register leaves the other half; the first half is the upper one.
pub proof fn halves_are_written(l: u32, off: int, val: u16)
    requires
        off % 2 == 0,
    ensures
        off % 4 == 0 ==> with_half(l, off, val) as int / 0x1_0000 == val && with_half(l, off, val)
            as int % 0x1_0000 == l as int % 0x1_0000,
        off % 4 == 2 ==> with_half(l, off, val) as int % 0x1_0000 == val && with_half(l, off, val)
            as int / 0x1_0000 == l as int / 0x1_0000,
{
}

/// The more the cores may drift apart, the more instructions run between looks at the others: 32
/// above 100 cycles, 4 above 10, and else one.
pub proof fn batches_follow_the_slack(slack: u64)
    ensures
        slack > 100 ==> sync_batch(slack) == 32,
        10 < slack <= 100 ==> sync_batch(slack) == 4,
        slack <= 10 ==> sync_batch(slack) == 1,
{
}

/// Where the timer's interrupts go: a compare to the lower vector of the third vector register,
/// starting over to the upper one of the fourth, a capture to the upper one of the third, all at the
/// level in bits 8 to 11 of the second priorities.
#[verifier::spinoff_prover]
pub proof fn timer_interrupts_have_their_vectors(b: BusView, cycles: int, count: int)
    requires
        b.frc_shift <= 7,
        cycles >= 0,
        count == b.onchip.frc + (cycles + b.frc_leftover) / frt_unit(b.frc_shift as int),
        count >= b.onchip.frc,
    ensures
        ({
            let o = b.onchip;
            let level = (o.iprb as int / 0x100 % 16) as u8;
            let a = o.frc < o.ocra;
            let bb = o.frc < o.ocrb;
            let after = timer_run(b, cycles).irq;
            &&& count <= 0xFFFF && a && o.ocra <= count && count < o.ocrb ==> after == if o.tier & 8
                != 0 {
                b.irq.sent((o.vcrc as int % 128) as u8, level)
            } else {
                b.irq
            }
            &&& count <= 0xFFFF && bb && o.ocrb <= count && count < o.ocra ==> after == if o.tier & 4
                != 0 {
                b.irq.sent((o.vcrc as int % 128) as u8, level)
            } else {
                b.irq
            }
            &&& count <= 0xFFFF && count < o.ocra && count < o.ocrb ==> after == b.irq
            &&& 0xFFFF < count <= 0x1_FFFF && !a && !bb ==> after == if o.tier & 2 != 0 {
                b.irq.sent((o.vcrd as int / 0x100 % 128) as u8, level)
            } else {
                b.irq
            }
        }),
        b.onchip.tier & 0x80 != 0 ==> captured(b).irq == b.irq.sent(
            (b.onchip.vcrc as int / 0x100 % 128) as u8,
            (b.onchip.iprb as int / 0x100 % 16) as u8,
        ),
{
    reveal(timer_run);
    let c = b.onchip.vcrc;
    let d = b.onchip.vcrd;
    let p = b.onchip.iprb;
    assert(c & 0x7F == c % 128 && (c >> 8) & 0x7F == c / 0x100 % 128 && (d >> 8) & 0x7F == d / 0x100
        % 128 && (p >> 8) & 0xF == p / 0x100 % 16) by (bit_vector);
}

/// Writing a byte of a long register leaves the other three; the first one is the most significant.
#[verifier::spinoff_prover]
pub proof fn bytes_are_written(l: u32, lane: int, val: u8, j: int)
    requires
        0 <= lane < 4,
        0 <= j < 4,
    ensures
        byte_of(with_byte(l, lane, val), 3 - j) == if j == lane {
            val as int
        } else {
            byte_of(l, 3 - j)
        },
{
    let b = |k: int|
        if k == lane {
            val as int
        } else {
            byte_of(l, 3 - k)
        };
    bytes_put_together(l);
    bytes_taken_apart(with_byte(l, lane, val), b(0), b(1), b(2), b(3));
}

/// Whether an address lies on the bus from one place on up to another.
pub open spec fn lies(a: u32, from: int, to: int) -> bool {
    from <= a as int % 0x1000_0000 < to
}

/// What a unit of a transfer costs: one cycle from the CD block; from VDP2's memory and VDP1's by
/// where it goes; from anywhere else 20 to the sound chip, 30 to the registers of VDP1, 82 to the
/// memory of VDP2, and 14 elsewhere.
#[verifier::spinoff_prover]
pub proof fn transfers_cost_by_their_ends(sar: u32, dar: u32)
    ensures
        ({
            let cost = dma_unit_cost(sar, dar);
            let cd = lies(sar, 0x0580_0000, 0x05A0_0000);
            let vdp2 = lies(sar, 0x05E0_0000, 0x05F0_0000);
            let vdp1 = lies(sar, 0x05C0_0000, 0x05D0_0000);
            let low = lies(dar, 0x0020_0000, 0x0030_0000);
            let high = lies(dar, 0x0600_0000, 0x0800_0000);
            let sound = lies(dar, 0x05A0_0000, 0x05C0_0000);
            let to1 = lies(dar, 0x05C0_0000, 0x05D8_0000);
            let regs1 = lies(dar, 0x05D0_0000, 0x05D8_0000);
            let to2 = lies(dar, 0x05E0_0000, 0x05F0_0000);
            let regs2 = lies(dar, 0x05F8_0000, 0x05FC_0000);
            &&& cd ==> cost == 1
            &&& vdp2 && (low || regs2) ==> cost == 50
            &&& vdp2 && (sound || to1) ==> cost == 427
            &&& vdp2 && to2 ==> cost == 1
            &&& vdp2 && high ==> cost == 44
            &&& vdp1 && (high || low || sound || regs2) ==> cost == 50
            &&& vdp1 && to1 ==> cost == 570
            &&& vdp1 && to2 ==> cost == 225
            &&& !cd && !vdp1 && !vdp2 ==> {
                &&& sound ==> cost == 20
                &&& regs1 ==> cost == 30
                &&& to2 ==> cost == 82
                &&& high || low || regs2 ==> cost == 14
            }
        }),
{
}

/// A long word of a register file, the most significant byte first.
pub open spec fn long_at(regs: Seq<u8>, off: int) -> int {
    regs[off] * 0x100_0000 + regs[off + 1] * 0x1_0000 + regs[off + 2] * 0x100 + regs[off + 3]
}

/// The registers of a transfer of the SCU, 32 bytes for each level: source, destination, length in 24
/// bits, step, start and mode. Bit 16 of the mode makes it indirect. When it is done, 0 is stored in
/// its start register.
#[verifier::spinoff_prover]
pub proof fn transfers_are_set_up_in_registers(b: BusView, ch: int, depth: nat)
    requires
        0 <= ch < 3,
        b.ram.scu_regs.len() == 0x100,
    ensures
        ({
            let regs = b.ram.scu_regs;
            let at = ch * 0x20;
            let src = long_at(regs, at) as u32;
            let dst = long_at(regs, at + 4) as u32;
            let len = (long_at(regs, at + 8) % 0x100_0000) as u32;
            let step = scu_step(long_at(regs, at + 12) as u32);
            let moved = if long_at(regs, at + 0x14) / 0x1_0000 % 2 == 1 {
                scu_indirect(b, src, depth)
            } else {
                scu_direct(b, src, dst, len, step, depth)
            };
            scu_dma(b, ch, depth) == (BusView {
                ram: Memory {
                    scu_regs: wr32(moved.ram.scu_regs, at + 0x10, 0x100, 0),
                    ..moved.ram
                },
                ..moved
            })
        }),
{
    let regs = b.ram.scu_regs;
    let at = ch * 0x20;
    long_is_read(regs, at);
    long_is_read(regs, at + 4);
    long_is_read(regs, at + 8);
    long_is_read(regs, at + 12);
    long_is_read(regs, at + 0x14);
}

#[verifier::spinoff_prover]
proof fn long_is_read(regs: Seq<u8>, off: int)
    requires
        0 <= off <= 0xFC,
    ensures
        rd32(regs, off, 0x100) == long_at(regs, off),
{
}

/// Which accesses count as misses: none in the memories themselves; those to the areas of the cache,
/// to a fourth view of the bus, through the upper half of a view, and where nothing answers.
#[verifier::spinoff_prover]
pub proof fn misses_are_told_apart(area: int, half: int, i: int)
    requires
        0 <= area < 7,
        half == 0 || half == 1,
        0 <= i < 0x10_0000,
    ensures
        ({
            let ram = miss_of(seen(area, half, 0x0600_0000 + i));
            let low = miss_of(seen(area, half, 0x0020_0000 + i));
            let hole = miss_of(seen(area, half, 0x0590_0000 + i));
            &&& area == 2 || area == 3 || area == 5 || area == 6 ==> ram == Some(BusMiss::CacheArea)
                && low == Some(BusMiss::CacheArea) && hole == Some(BusMiss::CacheArea)
            &&& (area == 0 || area == 1 || area == 4) && half == 1 ==> ram == Some(
                BusMiss::Bit28Alias,
            ) && low == Some(BusMiss::Bit28Alias)
            &&& area == 4 && half == 0 ==> ram == Some(BusMiss::Area4Alias) && low == Some(
                BusMiss::Area4Alias,
            )
            &&& area < 2 && half == 0 ==> ram is None && low is None && hole == Some(
                BusMiss::UnmappedHole,
            )
        }),
{
    reveal(seen);
    let a = 0x0600_0000 + i;
    let b = 0x0020_0000 + i;
    let c = 0x0590_0000 + i;
    let base = area * 0x2000_0000 + half * 0x1000_0000;
    assert((base + a) / 0x2000_0000 == area && (base + a) % 0x1000_0000 == a && (base + a)
        / 0x1000_0000 % 2 == half);
    assert((base + b) / 0x2000_0000 == area && (base + b) % 0x1000_0000 == b && (base + b)
        / 0x1000_0000 % 2 == half);
    assert((base + c) / 0x2000_0000 == area && (base + c) % 0x1000_0000 == c && (base + c)
        / 0x1000_0000 % 2 == half);
}

/// Without a System Manager a status request is answered by a fixed block: nothing pressed, the
/// Japanese region and the clock at rest; all other commands leave the registers.
#[verifier::spinoff_prover]
pub proof fn missing_manager_is_stood_in_for(b: BusView, command: u8)
    requires
        b.smpc is None,
        b.ram.smpc_regs.len() == 0x80,
    ensures
        ({
            let regs = smpc_written(b, 0x1F, command).ram.smpc_regs;
            &&& regs[0x1F] == command
            &&& command == 0x10 ==> regs[0x21] == 0x80 && regs[0x33] == 1 && regs[0x35] == 0x34
                && regs[0x37] == 0 && regs[0x61] == 0x6F
            &&& command != 0x10 ==> regs == b.ram.smpc_regs.update(0x1F, command)
        }),
{
    reveal(smpc_written);
    let filled = oregs_filled(b.ram.smpc_regs.update(0x1F, command), fallback_status());
    assert((0x21 - 0x21) / 2int == 0 && (0x33 - 0x21) / 2int == 9 && (0x35 - 0x21) / 2int == 10 && (
    0x37 - 0x21) / 2int == 11);
}

/// The registers of the bus controller are written in pairs, as far as their bits exist; a serial port
/// whose transmitter is off is empty.
#[verifier::spinoff_prover]
pub proof fn bus_controller_is_set_up(o: Sh2OnChip, val: u32, v: u8)
    ensures
        ({
            let hi = (val / 0x1_0000) as u16;
            let lo = (val % 0x1_0000) as u16;
            &&& onchip_set32(o, 0x1E0, val) == (Sh2OnChip {
                bcr1: (o.bcr1 & 0x8000) | (hi & 0x1FF7),
                bcr2: lo & 0xFC,
                ..o
            })
            &&& onchip_set32(o, 0x1E8, val) == (Sh2OnChip { wcr: hi, mcr: lo & 0xFEFC, ..o })
            &&& onchip_set32(o, 0x1F0, val) == (Sh2OnChip { rtcsr: hi & 0xF8, ..o })
            &&& onchip_set32(o, 0x1F8, val) == (Sh2OnChip { rtcor: hi & 0xFF, ..o })
        }),
        onchip_put8(o, 0x002, v).scr == v,
        v & 0x20 == 0 ==> onchip_put8(o, 0x002, v).ssr == o.ssr | 0x80,
        v & 0x20 != 0 ==> onchip_put8(o, 0x002, v).ssr == o.ssr,
{
    reveal(onchip_set32);
    reveal(onchip_put8);
    assert((val >> 16) as u16 == (val / 0x1_0000) as u16 && ((val >> 16) & 0x1FF7) as u16 == (val
        / 0x1_0000) as u16 & 0x1FF7 && (val & 0xFC) as u16 == (val % 0x1_0000) as u16 & 0xFC && (val
        & 0xFEFC) as u16 == (val % 0x1_0000) as u16 & 0xFEFC && ((val >> 16) & 0xF8) as u16 == (val
        / 0x1_0000) as u16 & 0xF8 && ((val >> 16) & 0xFF) as u16 == (val / 0x1_0000) as u16 & 0xFF)
        by (bit_vector);
}

} // verus!
