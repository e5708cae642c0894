//! Stores, and the DMA transfers that stores can start.
//!
//! A store to a DMA control register starts a transfer, which stores in turn. The
//! `depth` of these functions is how many more transfers may start within one
//! another.

use crate::bytes::{be16, be32, byte16, byte32, from_be16, from_be32, get32, put32, put8, rd32, wr32, wr8};
use crate::sh2::bus::{
    after_read16, after_read32, after_read8, dsp_port_written, is_dsp_port, read16, read32, read8,
    smpc_written, vdp1_reg_written, write_started, write_vdp1_reg, BusView, Sh2Bus,
    DATA_ARRAY_SIZE,
};
use crate::sh2::onchip::{get_onchip_16, get_onchip_32, onchip_base, onchip_reg16, onchip_reg32};
use crate::sh2::onchip_write::{
    divide_32, divide_64, divided32, divided64, is_byte_reg, is_long_reg, is_word_reg,
    onchip_put16, onchip_put8, onchip_set32, put_onchip_16, put_onchip_8, set_onchip_32,
};
use crate::sh2::ram::{mem_write16, mem_write32, mem_write8, ram_write16, ram_write32, ram_write8};
use crate::sh2::region::{
    dma_unit_cost, get_eat_clock, region_of, region_ok, store_region, translate, translate_store,
    MemRegion,
};
use crate::sh2_onchip::Sh2OnChip;
use crate::shared_buffers::{Memory, SCU_REGS_SIZE};
use crate::telemetry::{count_wram_writes, writes_counted};
use vstd::prelude::*;

verus! {

/// How deep DMA transfers, and delay slots, may nest. Each level takes a part of the stack,
/// and a branch in its own delay slot would never end.
pub const NESTING_LIMIT: u32 = 1024;

/// The working registers of a DMA channel.
#[derive(Debug, Clone, Copy, PartialEq, Eq, Structural)]
pub struct DmaChannel {
    pub sar: u32,
    pub dar: u32,
    pub tcr: u32,
    pub chcr: u32,
    pub copy_clock: u32,
    pub vcrdma: u32,
}

/// The registers of channel 0 or 1.
pub open spec fn channel(o: Sh2OnChip, ch: int) -> DmaChannel {
    if ch == 0 {
        DmaChannel {
            sar: o.sar0,
            dar: o.dar0,
            tcr: o.tcr0,
            chcr: o.chcr0,
            copy_clock: o.ch0_copy_clock,
            vcrdma: o.vcrdma0,
        }
    } else {
        DmaChannel {
            sar: o.sar1,
            dar: o.dar1,
            tcr: o.tcr1,
            chcr: o.chcr1,
            copy_clock: o.ch1_copy_clock,
            vcrdma: o.vcrdma1,
        }
    }
}

/// The on-chip registers with those of a channel put back.
pub open spec fn with_channel(o: Sh2OnChip, ch: int, c: DmaChannel) -> Sh2OnChip {
    if ch == 0 {
        Sh2OnChip {
            sar0: c.sar,
            dar0: c.dar,
            tcr0: c.tcr,
            chcr0: c.chcr,
            ch0_copy_clock: c.copy_clock,
            ..o
        }
    } else {
        Sh2OnChip {
            sar1: c.sar,
            dar1: c.dar,
            tcr1: c.tcr,
            chcr1: c.chcr,
            ch1_copy_clock: c.copy_clock,
            ..o
        }
    }
}

/// The sum, or the largest value where it does not fit.
pub open spec fn sat_add(a: u32, b: u32) -> u32 {
    if a + b > u32::MAX {
        u32::MAX
    } else {
        (a + b) as u32
    }
}

/// The transfer unit a channel is set to: byte, word, long word or block.
pub open spec fn unit_size(chcr: u32) -> u32 {
    (chcr >> 10) & 3
}

/// How far one unit moves an address.
pub open spec fn unit_stride(chcr: u32) -> u32 {
    if unit_size(chcr) == 0 {
        1
    } else if unit_size(chcr) == 1 {
        2
    } else {
        4
    }
}

/// An address after one unit: up, down or fixed.
pub open spec fn stepped(addr: u32, mode: u32, stride: u32) -> u32 {
    if mode == 1 {
        addr.wrapping_add(stride)
    } else if mode == 2 {
        addr.wrapping_sub(stride)
    } else {
        addr
    }
}

/// What the next unit of a channel costs. A block's units are cheaper.
#[verifier::opaque]
pub open spec fn unit_cost(c: DmaChannel) -> u32 {
    let eat = dma_unit_cost(c.sar, c.dar);
    if unit_size(c.chcr) == 3 {
        if eat / 4 < 1 {
            1
        } else {
            (eat / 4) as u32
        }
    } else {
        eat
    }
}

/// The bus after a channel has moved its last unit: the end is noted and, if
/// enabled, an interrupt raised.
#[verifier::opaque]
pub open spec fn channel_ended(b: BusView, ch: int, c: DmaChannel) -> BusView {
    let o = if ch == 0 {
        Sh2OnChip { chcr0m: b.onchip.chcr0m | 2, ..b.onchip }
    } else {
        Sh2OnChip { chcr1m: b.onchip.chcr1m | 2, ..b.onchip }
    };
    let b1 = BusView { onchip: o, ..b };
    if (c.chcr | 2) & 0x4 != 0 {
        b1.raised((c.vcrdma & 0xFF) as u8, ((o.ipra & 0xF00) >> 8) as u8)
    } else {
        b1
    }
}

/// A command of the CD block: both status requests answer that it is ready.
#[verifier::opaque]
pub open spec fn cd_command(b: BusView) -> BusView {
    let regs = b.ram.cs2_regs;
    if regs[0] == 0x00 || regs[0] == 0x02 {
        BusView {
            ram: Memory {
                cs2_regs: regs.update(0, 0x04).update(1, 0x00).update(8, 0x00).update(9, 0x01),
                ..b.ram
            },
            ..b
        }
    } else {
        b
    }
}

/// The address a byte or word store through the purge area has on the bus.
pub open spec fn store_addr(address: u32) -> u32 {
    if region_of(address) is PurgeArea {
        (address % 0x1000_0000) as u32
    } else {
        address
    }
}

/// A byte store to anything but the on-chip registers.
#[verifier::opaque]
pub open spec fn device_store8(b: BusView, g: MemRegion, val: u8) -> BusView {
    let plain = BusView { ram: mem_write8(b.ram, g, val), ..b };
    match g {
        MemRegion::HighRam(_) => BusView {
            telemetry: writes_counted(b.telemetry, 1),
            ..plain
        },
        MemRegion::Smpc(off) => smpc_written(b, off as int, val),
        MemRegion::Vdp1Regs(off) => if b.vdp1 is Some {
            b
        } else {
            plain
        },
        MemRegion::Cs2Regs(off) => if off % 0x10_0000 == 6 || off % 0x10_0000 == 7 {
            cd_command(plain)
        } else {
            plain
        },
        MemRegion::DataArray(off) => BusView {
            data_array: wr8(b.data_array, off as int, DATA_ARRAY_SIZE as int, val),
            ..b
        },
        _ => plain,
    }
}

/// A word store to anything but the on-chip registers and the SMPC. The cache
/// arrays take none.
#[verifier::opaque]
pub open spec fn device_store16(b: BusView, g: MemRegion, val: u16) -> BusView {
    let plain = BusView { ram: mem_write16(b.ram, g, val), ..b };
    match g {
        MemRegion::HighRam(_) => BusView {
            telemetry: writes_counted(b.telemetry, 2),
            ..plain
        },
        MemRegion::Vdp1Regs(off) => match b.vdp1 {
            Some(v) => BusView { vdp1: Some(vdp1_reg_written(v, off as int, val)), ..plain },
            None => plain,
        },
        MemRegion::Cs2Regs(off) => if 5 <= off % 0x10_0000 <= 7 {
            cd_command(plain)
        } else {
            plain
        },
        _ => plain,
    }
}

/// A long word store to anything but the on-chip registers and the SMPC, without
/// the transfer that it may start. The purge area takes none.
#[verifier::opaque]
pub open spec fn device_store32(b: BusView, g: MemRegion, val: u32) -> BusView {
    let plain = BusView { ram: mem_write32(b.ram, g, val), ..b };
    match g {
        MemRegion::HighRam(_) => BusView {
            telemetry: writes_counted(b.telemetry, 4),
            ..plain
        },
        MemRegion::Vdp1Regs(off) => if b.vdp1 is Some {
            b
        } else {
            plain
        },
        MemRegion::ScuRegs(off) => if b.scu_dsp is Some && is_dsp_port(off as int % 0x100) {
            dsp_port_written(b, off as int % 0x100, val)
        } else {
            plain
        },
        MemRegion::Cs2Regs(off) => if 3 <= off % 0x10_0000 <= 7 {
            cd_command(plain)
        } else {
            plain
        },
        MemRegion::AddressArray(off) => BusView {
            address_array: b.address_array.update(off as int / 4, val),
            ..b
        },
        MemRegion::DataArray(off) => BusView {
            data_array: wr32(b.data_array, off as int, DATA_ARRAY_SIZE as int, val),
            ..b
        },
        _ => plain,
    }
}

/// The SCU channel that a long word store to the SCU's registers starts.
pub open spec fn scu_channel_started(off: int, val: u32) -> Option<int> {
    let o = off % 0x100;
    if val % 2 == 1 && (o == 0x10 || o == 0x30 || o == 0x50) {
        Some(o / 0x20)
    } else {
        None
    }
}

/// A byte store.
pub open spec fn write8(b: BusView, address: u32, val: u8, depth: nat) -> BusView
    decreases depth, 5nat, 0nat,
{
    match store_region(address) {
        MemRegion::OnChip(off) => onchip_write8(b, off as int, val, depth),
        g => device_store8(b, g, val),
    }
}

/// A word store.
pub open spec fn write16(b: BusView, address: u32, val: u16, depth: nat) -> BusView
    decreases depth, 6nat, 0nat,
{
    match store_region(address) {
        MemRegion::OnChip(off) => onchip_write16(b, off as int, val, depth),
        MemRegion::Smpc(off) => write8(
            write8(b, store_addr(address), byte16(val, 0), depth),
            store_addr(address).wrapping_add(1),
            byte16(val, 1),
            depth,
        ),
        g => device_store16(b, g, val),
    }
}

/// A long word store.
pub open spec fn write32(b: BusView, address: u32, val: u32, depth: nat) -> BusView
    decreases depth, 10nat, 0nat,
{
    match region_of(address) {
        MemRegion::OnChip(off) => onchip_write32(b, off as int / 4 * 4, val, depth),
        MemRegion::Smpc(off) => write8(
            write8(
                write8(
                    write8(b, address, byte32(val, 0), depth),
                    address.wrapping_add(1),
                    byte32(val, 1),
                    depth,
                ),
                address.wrapping_add(2),
                byte32(val, 2),
                depth,
            ),
            address.wrapping_add(3),
            byte32(val, 3),
            depth,
        ),
        MemRegion::ScuRegs(off) => match scu_channel_started(off as int, val) {
            Some(ch) => scu_dma(
                device_store32(b, MemRegion::ScuRegs(off), val),
                ch,
                depth,
            ),
            None => device_store32(b, MemRegion::ScuRegs(off), val),
        },
        g => device_store32(b, g, val),
    }
}

/// A byte store to an 8-bit on-chip register.
#[verifier::opaque]
pub open spec fn byte_reg_written(b: BusView, off: int, val: u8) -> BusView {
    let o = b.onchip;
    let b1 = BusView { onchip: onchip_put8(o, off, val), ..b };
    if off == 0x010 && val & 0x80 != 0 && o.ftcsr & 0x80 != 0 {
        // An input capture that was waiting for its interrupt to be enabled.
        b1.raised(((o.vcrc >> 8) & 0x7F) as u8, ((o.iprb >> 8) & 0xF) as u8)
    } else if off == 0x016 {
        BusView {
            frc_shift: if val % 4 == 0 {
                3
            } else if val % 4 == 1 {
                5
            } else if val % 4 == 2 {
                7
            } else {
                b.frc_shift
            },
            ..b1
        }
    } else {
        b1
    }
}

/// The wider register that a narrow store changes, with its new value.
#[derive(Debug, Clone, Copy, PartialEq, Eq, Structural)]
pub enum Widened {
    Word(usize, u16),
    Long(usize, u32),
    Nothing,
}

/// A byte store as a store to the register that holds the byte.
#[verifier::opaque]
pub open spec fn widened8(o: Sh2OnChip, off: int, val: u8) -> Widened {
    match onchip_reg16(o, off / 2 * 2) {
        Some(w) => Widened::Word(
            (off / 2 * 2) as usize,
            if off % 2 == 0 {
                be16(val, byte16(w, 1))
            } else {
                be16(byte16(w, 0), val)
            },
        ),
        None => match onchip_reg32(o, off / 4 * 4) {
            Some(l) => Widened::Long((off / 4 * 4) as usize, with_byte(l, off % 4, val)),
            None => Widened::Nothing,
        },
    }
}

/// A long word with one byte replaced.
pub open spec fn with_byte(l: u32, lane: int, val: u8) -> u32 {
    be32(
        if lane == 0 {
            val
        } else {
            byte32(l, 0)
        },
        if lane == 1 {
            val
        } else {
            byte32(l, 1)
        },
        if lane == 2 {
            val
        } else {
            byte32(l, 2)
        },
        if lane == 3 {
            val
        } else {
            byte32(l, 3)
        },
    )
}

/// A long word with one half replaced.
pub open spec fn with_half(l: u32, off: int, val: u16) -> u32 {
    if off / 2 % 2 == 0 {
        (val * 0x1_0000 + l % 0x1_0000) as u32
    } else {
        (l / 0x1_0000 * 0x1_0000 + val) as u32
    }
}

/// A word store as a store to the register that holds the word.
#[verifier::opaque]
pub open spec fn widened16(o: Sh2OnChip, off: int, val: u16) -> Widened {
    if is_word_reg(off) {
        Widened::Word(off as usize, val)
    } else {
        match onchip_reg32(o, off / 4 * 4) {
            Some(l) => Widened::Long((off / 4 * 4) as usize, with_half(l, off, val)),
            None => Widened::Nothing,
        }
    }
}

/// A byte store to the on-chip registers.
pub open spec fn onchip_write8(b: BusView, off: int, val: u8, depth: nat) -> BusView
    decreases depth, 2nat, 0nat,
{
    if is_byte_reg(off) {
        byte_reg_written(b, off, val)
    } else {
        match widened8(b.onchip, off, val) {
            Widened::Word(at, w) => BusView { onchip: onchip_put16(b.onchip, at as int, w), ..b },
            Widened::Long(at, l) => onchip_put32(b, at as int, l, depth),
            Widened::Nothing => b,
        }
    }
}

/// A word store to the on-chip registers.
pub open spec fn onchip_write16(b: BusView, off: int, val: u16, depth: nat) -> BusView
    decreases depth, 3nat, 0nat,
{
    match widened16(b.onchip, off, val) {
        Widened::Word(at, w) => BusView { onchip: onchip_put16(b.onchip, at as int, w), ..b },
        Widened::Long(at, l) => onchip_put32(b, at as int, l, depth),
        Widened::Nothing => onchip_write8(
            onchip_write8(b, off, byte16(val, 0), depth),
            off + 1,
            byte16(val, 1),
            depth,
        ),
    }
}

/// A long word store to the on-chip registers.
pub open spec fn onchip_write32(b: BusView, off: int, val: u32, depth: nat) -> BusView
    decreases depth, 4nat, 0nat,
{
    if is_long_reg(off) {
        onchip_put32(b, off, val, depth)
    } else {
        onchip_write16(
            onchip_write16(b, off, (val / 0x1_0000) as u16, depth),
            off + 2,
            (val % 0x1_0000) as u16,
            depth,
        )
    }
}

/// The interrupt of the division unit, if it is enabled.
pub open spec fn division_raised(b: BusView) -> BusView {
    if b.onchip.dvcr & 0x2 != 0 {
        b.raised((b.onchip.vcrdiv & 0x7F) as u8, ((b.onchip.ipra >> 12) & 0xF) as u8)
    } else {
        b
    }
}

/// A store to a 32-bit on-chip register that starts no transfer.
#[verifier::opaque]
pub open spec fn quiet_put32(b: BusView, off: int, val: u32) -> BusView {
    let n = onchip_base(off);
    if n == 0x104 {
        let (o, overflow) = divided32(b.onchip, val);
        if overflow {
            division_raised(BusView { onchip: o, ..b })
        } else {
            BusView { onchip: o, ..b }
        }
    } else if n == 0x114 {
        let (o, overflow) = divided64(b.onchip, val);
        if overflow {
            division_raised(BusView { onchip: o, ..b })
        } else {
            BusView { onchip: o, ..b }
        }
    } else {
        BusView { onchip: onchip_set32(b.onchip, off, val), ..b }
    }
}

/// The control register of channel 0 written, and whether that starts it.
#[verifier::opaque]
pub open spec fn chcr0_set(o: Sh2OnChip, val: u32) -> (Sh2OnChip, bool) {
    let v = val & 0xFFFF;
    let new = (v & !2u32) | (o.chcr0 & (v | o.chcr0m) & 2);
    if o.dmaor & 7 == 1 && v & 3 == 1 {
        (Sh2OnChip { chcr0: new, ch0_copy_clock: 0, ..o }, true)
    } else {
        (Sh2OnChip { chcr0: new, ..o }, false)
    }
}

/// The control register of channel 1 written, and whether that starts it.
#[verifier::opaque]
pub open spec fn chcr1_set(o: Sh2OnChip, val: u32) -> (Sh2OnChip, bool) {
    let v = val & 0xFFFF;
    let new = (v & !2u32) | (o.chcr1 & (v | o.chcr1m) & 2);
    if o.dmaor & 7 == 1 && new & 3 == 1 {
        (Sh2OnChip { chcr1: new, ch1_copy_clock: 0, ..o }, true)
    } else {
        (Sh2OnChip { chcr1: new, ..o }, false)
    }
}

/// The operation register written, and whether that starts the channels that are
/// armed.
#[verifier::opaque]
pub open spec fn dmaor_set(o: Sh2OnChip, val: u32) -> (Sh2OnChip, bool) {
    let new = val & 0xF;
    if new & 7 == 1 && o.dmaor & 7 != 1 {
        (
            Sh2OnChip {
                dmaor: new,
                ch0_copy_clock: if o.chcr0 & 3 == 1 {
                    0
                } else {
                    o.ch0_copy_clock
                },
                ch1_copy_clock: if o.chcr1 & 3 == 1 {
                    0
                } else {
                    o.ch1_copy_clock
                },
                ..o
            },
            true,
        )
    } else {
        (Sh2OnChip { dmaor: new, ..o }, false)
    }
}

/// A store to a 32-bit on-chip register. A store to the control register of a DMA
/// channel lets that finish first.
pub open spec fn onchip_put32(b: BusView, off: int, val: u32, depth: nat) -> BusView
    decreases depth, 1nat, 0nat,
{
    if off == 0x18C || off == 0x19C || off == 0x1B0 {
        let left = if off == 0x18C {
            b.onchip.tcr0
        } else if off == 0x19C {
            b.onchip.tcr1
        } else {
            0
        };
        let b1 = if left != 0 {
            dma_proc(b, 0x7FFF_FFFF, depth)
        } else {
            b
        };
        let (o, start) = if off == 0x18C {
            chcr0_set(b1.onchip, val)
        } else if off == 0x19C {
            chcr1_set(b1.onchip, val)
        } else {
            dmaor_set(b1.onchip, val)
        };
        if start {
            dma_proc(BusView { onchip: o, ..b1 }, 200, depth)
        } else {
            BusView { onchip: o, ..b1 }
        }
    } else {
        quiet_put32(b, off, val)
    }
}

/// The DMA controller works for some cycles of the CPU.
#[verifier::opaque]
pub open spec fn dma_worked(b: BusView, cycles: u32) -> BusView {
    dma_proc(b, cycles, NESTING_LIMIT as nat)
}

/// Whether a channel is enabled and has not ended.
pub open spec fn channel_active(chcr: u32) -> bool {
    chcr & 1 != 0 && chcr & 2 == 0
}

/// The channel whose turn it is.
pub open spec fn channel_turn(o: Sh2OnChip) -> int {
    if !channel_active(o.chcr0) {
        1
    } else if o.dmaor & 0x8 != 0 && channel_active(o.chcr1) && o.dma_round_robin_next == 1 {
        1
    } else {
        0
    }
}

/// The cycles a channel gets: twice as many where it need not share the bus.
pub open spec fn channel_budget(chcr: u32, cycles: u32) -> u32 {
    if chcr & 0x8 == 0 {
        sat_add(cycles, cycles)
    } else {
        cycles
    }
}

/// What the DMA controller does next.
pub enum DmaTurn {
    /// Nothing, but for what changes in its registers.
    Rest(Sh2OnChip),
    /// Let a channel work with a budget of cycles.
    Work(int, u32),
}

/// What the DMA controller does with some cycles. An address error or a
/// non-maskable interrupt stops all channels.
#[verifier::opaque]
pub open spec fn dma_turn(o: Sh2OnChip, cycles: u32) -> DmaTurn {
    if o.dmaor & 0x6 != 0 {
        DmaTurn::Rest(Sh2OnChip { dmaor: o.dmaor & !1u32, ..o })
    } else if o.dmaor & 0x1 == 0 || (!channel_active(o.chcr0) && !channel_active(o.chcr1)) {
        DmaTurn::Rest(o)
    } else {
        DmaTurn::Work(
            channel_turn(o),
            channel_budget(channel(o, channel_turn(o)).chcr, cycles),
        )
    }
}

/// The on-chip registers once a channel had its turn: in round-robin mode the
/// other one comes next.
#[verifier::opaque]
pub open spec fn turn_noted(before: Sh2OnChip, after: Sh2OnChip, ch: int) -> Sh2OnChip {
    if after.dmaor & 0x8 != 0 && channel_active(before.chcr0) && channel_active(before.chcr1) {
        Sh2OnChip { dma_round_robin_next: (1 - ch) as u32, ..after }
    } else {
        after
    }
}

/// The DMA controller works for some cycles.
pub open spec fn dma_proc(b: BusView, cycles: u32, depth: nat) -> BusView
    decreases depth, 0nat, 0nat,
{
    match dma_turn(b.onchip, cycles) {
        DmaTurn::Rest(o) => BusView { onchip: o, ..b },
        DmaTurn::Work(ch, budget) => if depth == 0 {
            BusView { nesting_overrun: true, ..b }
        } else {
            let b1 = dma_transfer(b, ch, budget, (depth - 1) as nat);
            BusView { onchip: turn_noted(b.onchip, b1.onchip, ch), ..b1 }
        },
    }
}

/// A channel works with a budget of cycles.
pub open spec fn dma_transfer(b: BusView, ch: int, budget: u32, depth: nat) -> BusView
    decreases depth, 13nat, 0nat,
{
    let c0 = channel(b.onchip, ch);
    let c = DmaChannel { copy_clock: sat_add(c0.copy_clock, budget), ..c0 };
    let (b1, c1) = if c.tcr == 0 {
        (channel_ended(b, ch, c), DmaChannel { chcr: c.chcr | 2, ..c })
    } else {
        dma_units(b, ch, c, depth)
    };
    BusView { onchip: with_channel(b1.onchip, ch, c1), ..b1 }
}

/// A channel after one unit has been moved.
pub open spec fn unit_moved(c: DmaChannel) -> DmaChannel {
    DmaChannel {
        sar: stepped(c.sar, (c.chcr >> 12) & 3, unit_stride(c.chcr)),
        dar: stepped(c.dar, (c.chcr >> 14) & 3, unit_stride(c.chcr)),
        tcr: (c.tcr - 1) as u32,
        copy_clock: (c.copy_clock - unit_cost(c)) as u32,
        ..c
    }
}

/// A channel moves units until it has none left or cannot afford the next.
pub open spec fn dma_units(b: BusView, ch: int, c: DmaChannel, depth: nat) -> (
    BusView,
    DmaChannel,
)
    decreases depth, 12nat, c.tcr as nat,
{
    if c.tcr == 0 || c.copy_clock < unit_cost(c) {
        (b, c)
    } else {
        let b1 = dma_move(b, unit_size(c.chcr), c.sar, c.dar, depth);
        let c1 = unit_moved(c);
        if c1.tcr == 0 {
            (channel_ended(b1, ch, c), DmaChannel { chcr: c.chcr | 2, ..c1 })
        } else {
            dma_units(b1, ch, c1, depth)
        }
    }
}

/// One unit is moved.
pub open spec fn dma_move(b: BusView, size: u32, sar: u32, dar: u32, depth: nat) -> BusView
    decreases depth, 11nat, 0nat,
{
    let g = region_of(sar);
    if size == 0 {
        write8(after_read8(b, g), dar, read8(b, g), depth)
    } else if size == 1 {
        write16(after_read16(b, g), dar, read16(b, g), depth)
    } else {
        write32(after_read32(b, g), dar, read32(b, g), depth)
    }
}

/// A long word fetched byte by byte, and the bus after that.
#[verifier::opaque]
pub open spec fn fetch32(b: BusView, address: u32) -> (BusView, u32) {
    let g0 = region_of(address);
    let b1 = after_read8(b, g0);
    let g1 = region_of(address.wrapping_add(1));
    let b2 = after_read8(b1, g1);
    let g2 = region_of(address.wrapping_add(2));
    let b3 = after_read8(b2, g2);
    let g3 = region_of(address.wrapping_add(3));
    (after_read8(b3, g3), be32(read8(b, g0), read8(b1, g1), read8(b2, g2), read8(b3, g3)))
}

/// How far a direct SCU transfer moves its destination per word.
pub open spec fn scu_step(add: u32) -> u32 {
    let m = add % 8;
    if m <= 1 {
        2
    } else if m == 2 {
        4
    } else if m == 3 {
        8
    } else if m == 4 {
        16
    } else if m == 5 {
        32
    } else if m == 6 {
        64
    } else {
        128
    }
}

/// A transfer of one of the SCU's channels. Its enable register reads 0 afterwards.
pub open spec fn scu_dma(b: BusView, ch: int, depth: nat) -> BusView
    decreases depth, 9nat, 0nat,
{
    let regs = b.ram.scu_regs;
    let base = ch * 0x20;
    let size = SCU_REGS_SIZE as int;
    let read_addr = rd32(regs, base, size);
    let b1 = if rd32(regs, base + 0x14, size) / 0x1_0000 % 2 == 1 {
        scu_indirect(b, read_addr, depth)
    } else {
        scu_direct(
            b,
            read_addr,
            rd32(regs, base + 4, size),
            rd32(regs, base + 8, size) % 0x100_0000,
            scu_step(rd32(regs, base + 12, size)),
            depth,
        )
    };
    BusView {
        ram: Memory { scu_regs: wr32(b1.ram.scu_regs, base + 0x10, size, 0), ..b1.ram },
        ..b1
    }
}

/// A direct transfer: words from consecutive addresses, an odd last byte alone.
pub open spec fn scu_direct(
    b: BusView,
    src: u32,
    dst: u32,
    left: u32,
    step: u32,
    depth: nat,
) -> BusView
    decreases depth, 7nat, left as nat,
{
    if left == 0 {
        b
    } else if left == 1 {
        let g = region_of(src);
        write8(after_read8(b, g), dst, read8(b, g), depth)
    } else {
        let g0 = region_of(src);
        let g1 = region_of(src.wrapping_add(1));
        let b1 = after_read8(b, g0);
        let b2 = after_read8(b1, g1);
        let b3 = write8(b2, dst, read8(b, g0), depth);
        let b4 = write8(b3, dst.wrapping_add(1), read8(b1, g1), depth);
        scu_direct(
            b4,
            src.wrapping_add(2),
            dst.wrapping_add(step),
            (left - 2) as u32,
            step,
            depth,
        )
    }
}

/// Bytes copied one by one, from the `i`th on.
pub open spec fn scu_copy(b: BusView, src: u32, dst: u32, i: u32, len: u32, depth: nat) -> BusView
    decreases depth, 7nat, len - i,
{
    if i >= len {
        b
    } else {
        let g = region_of(src.wrapping_add(i));
        scu_copy(
            write8(after_read8(b, g), dst.wrapping_add(i), read8(b, g), depth),
            src,
            dst,
            (i + 1) as u32,
            len,
            depth,
        )
    }
}

/// An indirect transfer: a table of sizes, destinations and sources. A size of 0
/// ends the table, and so does the entry with its top bit set.
pub open spec fn scu_indirect(b: BusView, desc: u32, depth: nat) -> BusView
    decreases depth, 8nat, 0x1_0000_0000 - desc,
{
    let (b1, size) = fetch32(b, desc);
    if size == 0 {
        b1
    } else {
        let (b2, dst) = fetch32(b1, desc.wrapping_add(4));
        let (b3, src) = fetch32(b2, desc.wrapping_add(8));
        let b4 = scu_copy(b3, src, dst, 0, size % 0x100_0000, depth);
        if size >= 0x8000_0000 {
            b4
        } else if desc + 12 > u32::MAX {
            BusView { nesting_overrun: true, ..b4 }
        } else {
            scu_indirect(b4, (desc + 12) as u32, depth)
        }
    }
}

impl Sh2Bus {
    /// Answer a command of the CD block.
    fn execute_cdrom_command(&mut self)
        requires
            old(self).wf(),
        ensures
            final(self).wf(),
            final(self)@ == cd_command(old(self)@),
    {
        reveal(cd_command);
        let command: u8 = self.work_ram.cs2_regs[0];
        if command == 0x00 || command == 0x02 {
            self.work_ram.cs2_regs[0] = 0x04;
            self.work_ram.cs2_regs[1] = 0x00;
            self.work_ram.cs2_regs[8] = 0x00;
            self.work_ram.cs2_regs[9] = 0x01;
        }
    }

    /// Store a byte to anything but the on-chip registers.
    #[verifier::rlimit(30)]
    fn store_device_byte(&mut self, region: MemRegion, val: u8)
        requires
            old(self).wf(),
            region_ok(region),
        ensures
            final(self).wf(),
            final(self)@ == device_store8(old(self)@, region, val),
    {
        reveal(device_store8);
        match region {
            MemRegion::Smpc(off) => self.write_smpc(off, val),
            MemRegion::Vdp1Regs(_) => {
                if self.vdp1.is_none() {
                    ram_write8(&mut self.work_ram, region, val);
                }
            },
            MemRegion::Cs2Regs(off) => {
                ram_write8(&mut self.work_ram, region, val);
                let masked_off: usize = off % 0x10_0000;
                if masked_off == 6 || masked_off == 7 {
                    self.execute_cdrom_command();
                }
            },
            MemRegion::DataArray(off) => put8(&mut self.data_array, off, DATA_ARRAY_SIZE, val),
            MemRegion::HighRam(_) => {
                count_wram_writes(&mut self.telemetry, 1);
                ram_write8(&mut self.work_ram, region, val);
            },
            _ => ram_write8(&mut self.work_ram, region, val),
        }
    }

    /// Store a word to anything but the on-chip registers and the SMPC.
    #[verifier::rlimit(30)]
    fn store_device_word(&mut self, region: MemRegion, val: u16)
        requires
            old(self).wf(),
            region_ok(region),
        ensures
            final(self).wf(),
            final(self)@ == device_store16(old(self)@, region, val),
    {
        reveal(device_store16);
        match region {
            MemRegion::Vdp1Regs(off) => {
                ram_write16(&mut self.work_ram, region, val);
                match &mut self.vdp1 {
                    Some(v) => write_vdp1_reg(v, off, val),
                    None => {},
                }
            },
            MemRegion::Cs2Regs(off) => {
                ram_write16(&mut self.work_ram, region, val);
                let masked_off: usize = off % 0x10_0000;
                if 5 <= masked_off && masked_off <= 7 {
                    self.execute_cdrom_command();
                }
            },
            MemRegion::HighRam(_) => {
                count_wram_writes(&mut self.telemetry, 2);
                ram_write16(&mut self.work_ram, region, val);
            },
            _ => ram_write16(&mut self.work_ram, region, val),
        }
    }

    /// Store a long word to anything but the on-chip registers and the SMPC.
    #[verifier::rlimit(30)]
    fn store_device_long(&mut self, region: MemRegion, val: u32)
        requires
            old(self).wf(),
            region_ok(region),
        ensures
            final(self).wf(),
            final(self)@ == device_store32(old(self)@, region, val),
    {
        reveal(device_store32);
        match region {
            MemRegion::Vdp1Regs(_) => {
                if self.vdp1.is_none() {
                    ram_write32(&mut self.work_ram, region, val);
                }
            },
            MemRegion::ScuRegs(off) => {
                if !self.write_scu_dsp_port(off % 0x100, val) {
                    ram_write32(&mut self.work_ram, region, val);
                }
            },
            MemRegion::Cs2Regs(off) => {
                ram_write32(&mut self.work_ram, region, val);
                let masked_off: usize = off % 0x10_0000;
                if 3 <= masked_off && masked_off <= 7 {
                    self.execute_cdrom_command();
                }
            },
            MemRegion::AddressArray(off) => {
                self.address_array[off / 4] = val;
            },
            MemRegion::DataArray(off) => put32(&mut self.data_array, off, DATA_ARRAY_SIZE, val),
            MemRegion::HighRam(_) => {
                count_wram_writes(&mut self.telemetry, 4);
                ram_write32(&mut self.work_ram, region, val);
            },
            _ => ram_write32(&mut self.work_ram, region, val),
        }
    }

    /// Store a byte, without wait states.
    pub fn raw_write_byte(&mut self, address: u32, val: u8, depth: u32)
        requires
            old(self).wf(),
        ensures
            final(self).wf(),
            final(self)@ == write8(old(self)@, address, val, depth as nat),
        decreases depth, 5nat,
    {
        let region = translate_store(address);
        match region {
            MemRegion::OnChip(off) => self.write_onchip_byte(off, val, depth),
            _ => self.store_device_byte(region, val),
        }
    }

    /// Store a word, without wait states.
    pub fn raw_write_word(&mut self, address: u32, val: u16, depth: u32)
        requires
            old(self).wf(),
        ensures
            final(self).wf(),
            final(self)@ == write16(old(self)@, address, val, depth as nat),
        decreases depth, 6nat,
    {
        let region = translate_store(address);
        match region {
            MemRegion::OnChip(off) => self.write_onchip_word(off, val, depth),
            MemRegion::Smpc(_) => {
                let at: u32 = match translate(address) {
                    MemRegion::PurgeArea => address % 0x1000_0000,
                    _ => address,
                };
                self.raw_write_byte(at, (val / 0x100) as u8, depth);
                self.raw_write_byte(at.wrapping_add(1), (val % 0x100) as u8, depth);
            },
            _ => self.store_device_word(region, val),
        }
    }

    /// Store a long word, without wait states.
    pub fn raw_write_long(&mut self, address: u32, val: u32, depth: u32)
        requires
            old(self).wf(),
        ensures
            final(self).wf(),
            final(self)@ == write32(old(self)@, address, val, depth as nat),
        decreases depth, 10nat,
    {
        let region = translate(address);
        match region {
            MemRegion::OnChip(off) => self.write_onchip(off / 4 * 4, val, depth),
            MemRegion::Smpc(_) => {
                self.raw_write_byte(address, (val / 0x100_0000) as u8, depth);
                self.raw_write_byte(
                    address.wrapping_add(1),
                    (val / 0x1_0000 % 0x100) as u8,
                    depth,
                );
                self.raw_write_byte(address.wrapping_add(2), (val / 0x100 % 0x100) as u8, depth);
                self.raw_write_byte(address.wrapping_add(3), (val % 0x100) as u8, depth);
            },
            MemRegion::ScuRegs(off) => {
                self.store_device_long(region, val);
                let o: usize = off % 0x100;
                if val % 2 == 1 && (o == 0x10 || o == 0x30 || o == 0x50) {
                    self.execute_scu_dma(o / 0x20, depth);
                }
            },
            _ => self.store_device_long(region, val),
        }
    }

    /// Store to an 8-bit on-chip register.
    #[verifier::rlimit(30)]
    fn write_byte_reg(&mut self, off: usize, val: u8)
        requires
            old(self).wf(),
        ensures
            final(self).wf(),
            final(self)@ == byte_reg_written(old(self)@, off as int, val),
    {
        reveal(byte_reg_written);
        if off == 0x010 && val & 0x80 != 0 && self.onchip.ftcsr & 0x80 != 0 {
            let vector: u8 = ((self.onchip.vcrc >> 8) & 0x7F) as u8;
            let level: u8 = ((self.onchip.iprb >> 8) & 0xF) as u8;
            put_onchip_8(&mut self.onchip, off, val);
            self.irq.send(vector, level);
        } else {
            put_onchip_8(&mut self.onchip, off, val);
            if off == 0x016 {
                let select: u8 = val % 4;
                if select == 0 {
                    self.frc_shift = 3;
                } else if select == 1 {
                    self.frc_shift = 5;
                } else if select == 2 {
                    self.frc_shift = 7;
                }
            }
        }
    }

    /// Store a byte to the on-chip registers.
    fn write_onchip_byte(&mut self, off: usize, val: u8, depth: u32)
        requires
            old(self).wf(),
            off < 0x1000,
        ensures
            final(self).wf(),
            final(self)@ == onchip_write8(old(self)@, off as int, val, depth as nat),
        decreases depth, 2nat,
    {
        if byte_reg(off) {
            self.write_byte_reg(off, val);
        } else {
            match widen_byte(&self.onchip, off, val) {
                Widened::Word(at, w) => put_onchip_16(&mut self.onchip, at, w),
                Widened::Long(at, l) => self.put_onchip_32(at, l, depth),
                Widened::Nothing => {},
            }
        }
    }

    /// Store a word to the on-chip registers.
    fn write_onchip_word(&mut self, off: usize, val: u16, depth: u32)
        requires
            old(self).wf(),
            off < 0x800,
        ensures
            final(self).wf(),
            final(self)@ == onchip_write16(old(self)@, off as int, val, depth as nat),
        decreases depth, 3nat,
    {
        match widen_word(&self.onchip, off, val) {
            Widened::Word(at, w) => put_onchip_16(&mut self.onchip, at, w),
            Widened::Long(at, l) => self.put_onchip_32(at, l, depth),
            Widened::Nothing => {
                self.write_onchip_byte(off, (val / 0x100) as u8, depth);
                self.write_onchip_byte(off + 1, (val % 0x100) as u8, depth);
            },
        }
    }

    /// Store a long word to the on-chip registers.
    fn write_onchip(&mut self, off: usize, val: u32, depth: u32)
        requires
            old(self).wf(),
            off < 0x200,
        ensures
            final(self).wf(),
            final(self)@ == onchip_write32(old(self)@, off as int, val, depth as nat),
        decreases depth, 4nat,
    {
        if long_reg(off) {
            self.put_onchip_32(off, val, depth);
        } else {
            self.write_onchip_word(off, (val / 0x1_0000) as u16, depth);
            self.write_onchip_word(off + 2, (val % 0x1_0000) as u16, depth);
        }
    }

    /// Raise the interrupt of the division unit, if it is enabled.
    fn divu_check_interrupt(&mut self)
        requires
            old(self).wf(),
        ensures
            final(self).wf(),
            final(self)@ == division_raised(old(self)@),
    {
        if self.onchip.dvcr & 0x2 != 0 {
            let vector: u8 = (self.onchip.vcrdiv & 0x7F) as u8;
            let level: u8 = ((self.onchip.ipra >> 12) & 0xF) as u8;
            self.irq.send(vector, level);
        }
    }

    /// Store to a 32-bit on-chip register that starts no transfer.
    #[verifier::rlimit(30)]
    fn put_quiet_32(&mut self, off: usize, val: u32)
        requires
            old(self).wf(),
        ensures
            final(self).wf(),
            final(self)@ == quiet_put32(old(self)@, off as int, val),
    {
        reveal(quiet_put32);
        let n: usize = if off >= 0x120 && off <= 0x13F {
            off - 0x20
        } else {
            off
        };
        if n == 0x104 {
            let overflow: bool = divide_32(&mut self.onchip, val);
            if overflow {
                self.divu_check_interrupt();
            }
        } else if n == 0x114 {
            let overflow: bool = divide_64(&mut self.onchip, val);
            if overflow {
                self.divu_check_interrupt();
            }
        } else {
            set_onchip_32(&mut self.onchip, off, val);
        }
    }

    /// Store to a 32-bit on-chip register, with all it sets off.
    fn put_onchip_32(&mut self, off: usize, val: u32, depth: u32)
        requires
            old(self).wf(),
        ensures
            final(self).wf(),
            final(self)@ == onchip_put32(old(self)@, off as int, val, depth as nat),
        decreases depth, 1nat,
    {
        if off == 0x18C || off == 0x19C || off == 0x1B0 {
            let left: u32 = if off == 0x18C {
                self.onchip.tcr0
            } else if off == 0x19C {
                self.onchip.tcr1
            } else {
                0
            };
            if left != 0 {
                self.dma_proc_at(0x7FFF_FFFF, depth);
            }
            let start: bool = if off == 0x18C {
                set_chcr0(&mut self.onchip, val)
            } else if off == 0x19C {
                set_chcr1(&mut self.onchip, val)
            } else {
                set_dmaor(&mut self.onchip, val)
            };
            if start {
                self.dma_proc_at(200, depth);
            }
        } else {
            self.put_quiet_32(off, val);
        }
    }

    /// Let the DMA controller work for some cycles.
    fn dma_proc_at(&mut self, cycles: u32, depth: u32)
        requires
            old(self).wf(),
        ensures
            final(self).wf(),
            final(self)@ == dma_proc(old(self)@, cycles, depth as nat),
        decreases depth, 0nat,
    {
        let before: Sh2OnChip = self.onchip;
        match next_turn(&mut self.onchip, cycles) {
            Some((ch, budget)) => {
                if depth == 0 {
                    self.nesting_overrun = true;
                } else {
                    self.dma_transfer_cycles(ch, budget, depth - 1);
                    note_turn(&before, &mut self.onchip, ch);
                }
            },
            None => {},
        }
    }

    /// Let the DMA controller work for some cycles of the CPU.
    pub fn dma_proc(&mut self, cycles: u32)
        requires
            old(self).wf(),
        ensures
            final(self).wf(),
            final(self)@ == dma_worked(old(self)@, cycles),
    {
        reveal(dma_worked);
        self.dma_proc_at(cycles, NESTING_LIMIT);
    }

    /// Note the end of a channel's transfer.
    fn end_channel(&mut self, ch: usize, c: &DmaChannel)
        requires
            old(self).wf(),
        ensures
            final(self).wf(),
            final(self)@ == channel_ended(old(self)@, ch as int, *c),
    {
        reveal(channel_ended);
        if ch == 0 {
            self.onchip.chcr0m = self.onchip.chcr0m | 2;
        } else {
            self.onchip.chcr1m = self.onchip.chcr1m | 2;
        }
        if (c.chcr | 2) & 0x4 != 0 {
            let vector: u8 = (c.vcrdma & 0xFF) as u8;
            let level: u8 = ((self.onchip.ipra & 0xF00) >> 8) as u8;
            self.irq.send(vector, level);
        }
    }

    /// Move one unit.
    fn move_unit(&mut self, size: u32, sar: u32, dar: u32, depth: u32)
        requires
            old(self).wf(),
        ensures
            final(self).wf(),
            final(self)@ == dma_move(old(self)@, size, sar, dar, depth as nat),
        decreases depth, 11nat,
    {
        if size == 0 {
            let val: u8 = self.raw_read_byte(sar);
            self.raw_write_byte(dar, val, depth);
        } else if size == 1 {
            let val: u16 = self.raw_read_word(sar);
            self.raw_write_word(dar, val, depth);
        } else {
            let val: u32 = self.raw_read_long(sar);
            self.raw_write_long(dar, val, depth);
        }
    }

    /// Let a channel move units until it has none left or cannot afford the next.
    #[verifier::rlimit(10)]
    fn move_units(&mut self, ch: usize, start: DmaChannel, depth: u32) -> (r: DmaChannel)
        requires
            old(self).wf(),
            start.tcr > 0,
        ensures
            final(self).wf(),
            (final(self)@, r) == dma_units(old(self)@, ch as int, start, depth as nat),
        decreases depth, 12nat,
    {
        let mut c: DmaChannel = start;
        let ghost goal = dma_units(self@, ch as int, c, depth as nat);
        let mut more: bool = true;
        while more
            invariant
                self.wf(),
                more ==> c.tcr > 0,
                more ==> goal == dma_units(self@, ch as int, c, depth as nat),
                !more ==> goal == (self@, c),
            decreases
                    c.tcr + if more {
                        1int
                    } else {
                        0
                    },
        {
            if c.copy_clock < next_cost(&c) {
                more = false;
            } else {
                let ghost b0 = self@;
                let before: DmaChannel = c;
                self.move_unit((before.chcr >> 10) & 3, before.sar, before.dar, depth);
                c = advance(&before);
                if c.tcr == 0 {
                    self.end_channel(ch, &before);
                    c.chcr = c.chcr | 2;
                    more = false;
                    assert(goal == (self@, c));
                } else {
                    assert(goal == dma_units(self@, ch as int, c, depth as nat));
                }
            }
        }
        c
    }

    /// Let a channel work with a budget of cycles.
    fn dma_transfer_cycles(&mut self, ch: usize, budget: u32, depth: u32)
        requires
            old(self).wf(),
            ch <= 1,
        ensures
            final(self).wf(),
            final(self)@ == dma_transfer(old(self)@, ch as int, budget, depth as nat),
        decreases depth, 13nat,
    {
        let mut c: DmaChannel = get_channel(&self.onchip, ch);
        c.copy_clock = c.copy_clock.saturating_add(budget);
        if c.tcr == 0 {
            self.end_channel(ch, &c);
            c.chcr = c.chcr | 2;
        } else {
            c = self.move_units(ch, c, depth);
        }
        set_channel(&mut self.onchip, ch, &c);
    }

    /// Fetch a long word byte by byte.
    fn fetch_long(&mut self, address: u32) -> (r: u32)
        requires
            old(self).wf(),
        ensures
            final(self).wf(),
            final(self)@ == fetch32(old(self)@, address).0,
            r == fetch32(old(self)@, address).1,
    {
        reveal(fetch32);
        let b0: u8 = self.raw_read_byte(address);
        let b1: u8 = self.raw_read_byte(address.wrapping_add(1));
        let b2: u8 = self.raw_read_byte(address.wrapping_add(2));
        let b3: u8 = self.raw_read_byte(address.wrapping_add(3));
        from_be32(b0, b1, b2, b3)
    }

    /// Carry out a transfer of one of the SCU's channels.
    fn execute_scu_dma(&mut self, ch: usize, depth: u32)
        requires
            old(self).wf(),
            ch <= 2,
        ensures
            final(self).wf(),
            final(self)@ == scu_dma(old(self)@, ch as int, depth as nat),
        decreases depth, 9nat,
    {
        let base: usize = ch * 0x20;
        let read_addr: u32 = get32(&self.work_ram.scu_regs, base, SCU_REGS_SIZE);
        let write_addr: u32 = get32(&self.work_ram.scu_regs, base + 4, SCU_REGS_SIZE);
        let count: u32 = get32(&self.work_ram.scu_regs, base + 8, SCU_REGS_SIZE) % 0x100_0000;
        let add_val: u32 = get32(&self.work_ram.scu_regs, base + 12, SCU_REGS_SIZE);
        let mode: u32 = get32(&self.work_ram.scu_regs, base + 0x14, SCU_REGS_SIZE);
        if mode / 0x1_0000 % 2 == 1 {
            self.scu_transfer_table(read_addr, depth);
        } else {
            let step: u32 = word_step(add_val);
            self.scu_transfer_words(read_addr, write_addr, count, step, depth);
        }
        put32(&mut self.work_ram.scu_regs, base + 0x10, SCU_REGS_SIZE, 0);
    }

    fn scu_transfer_words(&mut self, src: u32, dst: u32, count: u32, step: u32, depth: u32)
        requires
            old(self).wf(),
        ensures
            final(self).wf(),
            final(self)@ == scu_direct(old(self)@, src, dst, count, step, depth as nat),
        decreases depth, 7nat,
    {
        let ghost goal = scu_direct(self@, src, dst, count, step, depth as nat);
        let mut src: u32 = src;
        let mut dst: u32 = dst;
        let mut left: u32 = count;
        while left > 1
            invariant
                self.wf(),
                goal == scu_direct(self@, src, dst, left, step, depth as nat),
            decreases left,
        {
            let b0: u8 = self.raw_read_byte(src);
            let b1: u8 = self.raw_read_byte(src.wrapping_add(1));
            self.raw_write_byte(dst, b0, depth);
            self.raw_write_byte(dst.wrapping_add(1), b1, depth);
            src = src.wrapping_add(2);
            dst = dst.wrapping_add(step);
            left = left - 2;
        }
        if left == 1 {
            let val: u8 = self.raw_read_byte(src);
            self.raw_write_byte(dst, val, depth);
        }
    }

    fn scu_copy_bytes(&mut self, src: u32, dst: u32, len: u32, depth: u32)
        requires
            old(self).wf(),
        ensures
            final(self).wf(),
            final(self)@ == scu_copy(old(self)@, src, dst, 0, len, depth as nat),
        decreases depth, 7nat,
    {
        let ghost goal = scu_copy(self@, src, dst, 0, len, depth as nat);
        let mut i: u32 = 0;
        while i < len
            invariant
                self.wf(),
                i <= len,
                goal == scu_copy(self@, src, dst, i, len, depth as nat),
            decreases len - i,
        {
            let val: u8 = self.raw_read_byte(src.wrapping_add(i));
            self.raw_write_byte(dst.wrapping_add(i), val, depth);
            i += 1;
        }
    }

    fn scu_transfer_table(&mut self, table: u32, depth: u32)
        requires
            old(self).wf(),
        ensures
            final(self).wf(),
            final(self)@ == scu_indirect(old(self)@, table, depth as nat),
        decreases depth, 8nat,
    {
        let ghost goal = scu_indirect(self@, table, depth as nat);
        let mut desc: u32 = table;
        let mut more: bool = true;
        while more
            invariant
                self.wf(),
                more ==> goal == scu_indirect(self@, desc, depth as nat),
                !more ==> goal == self@,
            decreases
                    0x1_0000_0000 - desc + if more {
                        1int
                    } else {
                        0
                    },
        {
            let size: u32 = self.fetch_long(desc);
            if size == 0 {
                more = false;
            } else {
                let dst: u32 = self.fetch_long(desc.wrapping_add(4));
                let src: u32 = self.fetch_long(desc.wrapping_add(8));
                self.scu_copy_bytes(src, dst, size % 0x100_0000, depth);
                if size >= 0x8000_0000 {
                    more = false;
                } else if desc > 0xFFFF_FFF3 {
                    self.nesting_overrun = true;
                    more = false;
                } else {
                    desc = desc + 12;
                }
            }
        }
    }

    /// Store a byte.
    pub fn write_byte(&mut self, address: u32, val: u8)
        requires
            old(self).wf(),
        ensures
            final(self).wf(),
            final(self)@ == store8(old(self)@, address, val),
    {
        reveal(store8);
        self.begin_write(address, 1);
        self.raw_write_byte(address, val, NESTING_LIMIT);
    }

    /// Store a word. An odd address is noted and written all the same.
    pub fn write_word(&mut self, address: u32, val: u16)
        requires
            old(self).wf(),
        ensures
            final(self).wf(),
            final(self)@ == store16(old(self)@, address, val),
    {
        reveal(store16);
        self.begin_write(address, 2);
        self.raw_write_word(address, val, NESTING_LIMIT);
    }

    /// Store a long word. An address off the long word grid is noted and written
    /// all the same.
    pub fn write_long(&mut self, address: u32, val: u32)
        requires
            old(self).wf(),
        ensures
            final(self).wf(),
            final(self)@ == store32(old(self)@, address, val),
    {
        reveal(store32);
        self.begin_write(address, 4);
        self.raw_write_long(address, val, NESTING_LIMIT);
    }
}

/// The bus after a byte store with its wait states.
#[verifier::opaque]
pub open spec fn store8(b: BusView, address: u32, val: u8) -> BusView {
    write8(write_started(b, address, 1), address, val, NESTING_LIMIT as nat)
}

/// The bus after a word store with its wait states.
#[verifier::opaque]
pub open spec fn store16(b: BusView, address: u32, val: u16) -> BusView {
    write16(write_started(b, address, 2), address, val, NESTING_LIMIT as nat)
}

/// The bus after a long word store with its wait states.
#[verifier::opaque]
pub open spec fn store32(b: BusView, address: u32, val: u32) -> BusView {
    write32(write_started(b, address, 4), address, val, NESTING_LIMIT as nat)
}

fn byte_reg(off: usize) -> (r: bool)
    ensures
        r == is_byte_reg(off as int),
{
    off <= 5 || off == 0x010 || off == 0x011 || off == 0x016 || off == 0x017 || off == 0x060
        || off == 0x061 || off == 0x068 || off == 0x069 || off == 0x071 || off == 0x072 || off
        == 0x080 || off == 0x081 || off == 0x083 || off == 0x091 || off == 0x092
}

fn word_reg(off: usize) -> (r: bool)
    ensures
        r == is_word_reg(off as int),
{
    off == 0x060 || off == 0x062 || off == 0x064 || off == 0x066 || off == 0x068 || off == 0x0E0
        || off == 0x0E2 || off == 0x0E4 || off == 0x0E5 || off == 0x012 || off == 0x014 || off
        == 0x018 || off == 0x148 || off == 0x168 || (0x1E0 <= off && off <= 0x1FA && off % 2 == 0)
}

fn long_reg(off: usize) -> (r: bool)
    ensures
        r == is_long_reg(off as int),
{
    (0x100 <= off && off <= 0x13C && off % 4 == 0) || off == 0x140 || off == 0x144 || off == 0x148
        || off == 0x178 || (0x180 <= off && off <= 0x19C && off % 4 == 0) || off == 0x1A0 || off
        == 0x1A8 || off == 0x1B0 || off == 0x1E0 || off == 0x1E8 || off == 0x1F0 || off == 0x1F8
}

/// A byte store as a store to the register that holds the byte.
fn widen_byte(o: &Sh2OnChip, off: usize, val: u8) -> (r: Widened)
    ensures
        r == widened8(*o, off as int, val),
{
    reveal(widened8);
    let reg_off: usize = off / 2 * 2;
    if let Some(w) = get_onchip_16(o, reg_off) {
        let merged: u16 = if off % 2 == 0 {
            from_be16(val, (w % 0x100) as u8)
        } else {
            from_be16((w / 0x100) as u8, val)
        };
        return Widened::Word(reg_off, merged);
    }
    let reg_off_32: usize = off / 4 * 4;
    if let Some(l) = get_onchip_32(o, reg_off_32) {
        Widened::Long(reg_off_32, replace_byte(l, off % 4, val))
    } else {
        Widened::Nothing
    }
}

/// A word store as a store to the register that holds the word.
fn widen_word(o: &Sh2OnChip, off: usize, val: u16) -> (r: Widened)
    ensures
        r == widened16(*o, off as int, val),
{
    reveal(widened16);
    if word_reg(off) {
        return Widened::Word(off, val);
    }
    let reg_off_32: usize = off / 4 * 4;
    if let Some(l) = get_onchip_32(o, reg_off_32) {
        let merged: u32 = if off / 2 % 2 == 0 {
            (val as u32) * 0x1_0000 + l % 0x1_0000
        } else {
            l / 0x1_0000 * 0x1_0000 + (val as u32)
        };
        Widened::Long(reg_off_32, merged)
    } else {
        Widened::Nothing
    }
}

/// Write the control register of channel 0. Returns whether that starts it.
fn set_chcr0(o: &mut Sh2OnChip, val: u32) -> (r: bool)
    ensures
        (*final(o), r) == chcr0_set(*old(o), val),
{
    reveal(chcr0_set);
    let v: u32 = val & 0xFFFF;
    o.chcr0 = (v & !2u32) | (o.chcr0 & (v | o.chcr0m) & 2);
    let start: bool = o.dmaor & 7 == 1 && v & 3 == 1;
    if start {
        o.ch0_copy_clock = 0;
    }
    start
}

/// Write the control register of channel 1. Returns whether that starts it.
fn set_chcr1(o: &mut Sh2OnChip, val: u32) -> (r: bool)
    ensures
        (*final(o), r) == chcr1_set(*old(o), val),
{
    reveal(chcr1_set);
    let v: u32 = val & 0xFFFF;
    let new: u32 = (v & !2u32) | (o.chcr1 & (v | o.chcr1m) & 2);
    o.chcr1 = new;
    let start: bool = o.dmaor & 7 == 1 && new & 3 == 1;
    if start {
        o.ch1_copy_clock = 0;
    }
    start
}

/// Write the operation register. Returns whether that starts the channels that
/// are armed.
fn set_dmaor(o: &mut Sh2OnChip, val: u32) -> (r: bool)
    ensures
        (*final(o), r) == dmaor_set(*old(o), val),
{
    reveal(dmaor_set);
    let old_dmaor: u32 = o.dmaor;
    let new_dmaor: u32 = val & 0xF;
    o.dmaor = new_dmaor;
    let start: bool = new_dmaor & 7 == 1 && old_dmaor & 7 != 1;
    if start {
        if o.chcr0 & 3 == 1 {
            o.ch0_copy_clock = 0;
        }
        if o.chcr1 & 3 == 1 {
            o.ch1_copy_clock = 0;
        }
    }
    start
}

/// Decide what the DMA controller does with some cycles: which channel works, and
/// with what budget.
fn next_turn(o: &mut Sh2OnChip, cycles: u32) -> (r: Option<(usize, u32)>)
    ensures
        match dma_turn(*old(o), cycles) {
            DmaTurn::Rest(rest) => r is None && *final(o) == rest,
            DmaTurn::Work(ch, budget) => r is Some && r.unwrap().0 == ch && r.unwrap().1 == budget
                && *final(o) == *old(o) && 0 <= ch <= 1,
        },
{
    reveal(dma_turn);
    if o.dmaor & 0x6 != 0 {
        o.dmaor = o.dmaor & !1u32;
        return None;
    }
    if o.dmaor & 0x1 == 0 {
        return None;
    }
    let ch0_active: bool = o.chcr0 & 1 != 0 && o.chcr0 & 2 == 0;
    let ch1_active: bool = o.chcr1 & 1 != 0 && o.chcr1 & 2 == 0;
    if !ch0_active && !ch1_active {
        return None;
    }
    let second: bool = !ch0_active || (o.dmaor & 0x8 != 0 && ch1_active && o.dma_round_robin_next
        == 1);
    let chcr: u32 = if second {
        o.chcr1
    } else {
        o.chcr0
    };
    let budget: u32 = if chcr & 0x8 == 0 {
        cycles.saturating_add(cycles)
    } else {
        cycles
    };
    Some((
        if second {
            1
        } else {
            0
        },
        budget,
    ))
}

/// Note that a channel had its turn.
fn note_turn(before: &Sh2OnChip, o: &mut Sh2OnChip, ch: usize)
    requires
        ch <= 1,
    ensures
        *final(o) == turn_noted(*before, *old(o), ch as int),
{
    reveal(turn_noted);
    let both: bool = before.chcr0 & 1 != 0 && before.chcr0 & 2 == 0 && before.chcr1 & 1 != 0
        && before.chcr1 & 2 == 0;
    if o.dmaor & 0x8 != 0 && both {
        o.dma_round_robin_next = if ch == 1 {
            0
        } else {
            1
        };
    }
}

fn replace_byte(l: u32, lane: usize, val: u8) -> (r: u32)
    requires
        lane < 4,
    ensures
        r == with_byte(l, lane as int, val),
{
    from_be32(
        if lane == 0 {
            val
        } else {
            (l / 0x100_0000) as u8
        },
        if lane == 1 {
            val
        } else {
            (l / 0x1_0000 % 0x100) as u8
        },
        if lane == 2 {
            val
        } else {
            (l / 0x100 % 0x100) as u8
        },
        if lane == 3 {
            val
        } else {
            (l % 0x100) as u8
        },
    )
}

fn get_channel(o: &Sh2OnChip, ch: usize) -> (r: DmaChannel)
    ensures
        r == channel(*o, ch as int),
{
    if ch == 0 {
        DmaChannel {
            sar: o.sar0,
            dar: o.dar0,
            tcr: o.tcr0,
            chcr: o.chcr0,
            copy_clock: o.ch0_copy_clock,
            vcrdma: o.vcrdma0,
        }
    } else {
        DmaChannel {
            sar: o.sar1,
            dar: o.dar1,
            tcr: o.tcr1,
            chcr: o.chcr1,
            copy_clock: o.ch1_copy_clock,
            vcrdma: o.vcrdma1,
        }
    }
}

fn set_channel(o: &mut Sh2OnChip, ch: usize, c: &DmaChannel)
    ensures
        *final(o) == with_channel(*old(o), ch as int, *c),
{
    if ch == 0 {
        o.sar0 = c.sar;
        o.dar0 = c.dar;
        o.tcr0 = c.tcr;
        o.chcr0 = c.chcr;
        o.ch0_copy_clock = c.copy_clock;
    } else {
        o.sar1 = c.sar;
        o.dar1 = c.dar;
        o.tcr1 = c.tcr;
        o.chcr1 = c.chcr;
        o.ch1_copy_clock = c.copy_clock;
    }
}

fn next_cost(c: &DmaChannel) -> (r: u32)
    ensures
        r == unit_cost(*c),
{
    reveal(unit_cost);
    let eat: u32 = get_eat_clock(c.sar, c.dar);
    if (c.chcr >> 10) & 3 == 3 {
        if eat / 4 < 1 {
            1
        } else {
            eat / 4
        }
    } else {
        eat
    }
}

fn step_address(addr: u32, mode: u32, stride: u32) -> (r: u32)
    ensures
        r == stepped(addr, mode, stride),
{
    if mode == 1 {
        addr.wrapping_add(stride)
    } else if mode == 2 {
        addr.wrapping_sub(stride)
    } else {
        addr
    }
}

/// The channel after one unit has been moved.
fn advance(c: &DmaChannel) -> (r: DmaChannel)
    requires
        c.tcr > 0,
        c.copy_clock >= unit_cost(*c),
    ensures
        r == unit_moved(*c),
{
    let size: u32 = (c.chcr >> 10) & 3;
    let stride: u32 = if size == 0 {
        1
    } else if size == 1 {
        2
    } else {
        4
    };
    DmaChannel {
        sar: step_address(c.sar, (c.chcr >> 12) & 3, stride),
        dar: step_address(c.dar, (c.chcr >> 14) & 3, stride),
        tcr: c.tcr - 1,
        chcr: c.chcr,
        copy_clock: c.copy_clock - next_cost(c),
        vcrdma: c.vcrdma,
    }
}

fn word_step(add_val: u32) -> (r: u32)
    ensures
        r == scu_step(add_val),
{
    let m: u32 = add_val % 8;
    if m <= 1 {
        2
    } else if m == 2 {
        4
    } else if m == 3 {
        8
    } else if m == 4 {
        16
    } else if m == 5 {
        32
    } else if m == 6 {
        64
    } else {
        128
    }
}

} // verus!
