//! The memory map, the registers behind it, and what time does to them.

use crate::sh2::alu::flags_are_independent;
use crate::sh2::bus::{
    after_read8, bus_granted, load32, read16, read32, read8, smpc_written, timer_run, tvstat_of,
    vdp1_reg, vdp1_reg_written, BusView,
};
use crate::sh2::exec::{group4_mem, tas};
use crate::sh2::memory_laws::at;
use crate::sh2::onchip::{frt_unit, onchip_read16, onchip_read32, onchip_read8};
use crate::sh2::onchip_write::{onchip_put16, onchip_put8, onchip_set32};
use crate::sh2::opcode_laws::{cut_to_32_bits, fields_ni, is_reg, op_ni, plain_of_group};
use crate::sh2::ram::mem_write8;
use crate::sh2::region::{device_of, read_wait, region_of, write_wait, MemRegion};
use crate::sh2::step::{captured, clocked, performed, was_reset};
use crate::sh2::store::{
    byte_reg_written, dma_turn, scu_channel_started, unit_moved, unit_stride, write8, DmaChannel,
    DmaTurn, NESTING_LIMIT,
};
use crate::sh2::irq::ThreadRequest;
use crate::sh2::Machine;
use crate::sh2_onchip::Sh2OnChip;
use crate::shared_buffers::Memory;
use crate::vdp::{Vdp1State, Vdp1Status};
use vstd::prelude::*;

verus! {

/// An address of the bus as the processor sees it: through the cache or past it, in one of the
/// areas that show the bus, and in either half of that.
#[verifier::opaque]
pub open spec fn seen(area: int, half: int, a: int) -> u32 {
    (area * 0x2000_0000 + half * 0x1000_0000 + a) as u32
}

/// Whether an area of 512 MB shows the bus.
pub open spec fn shows_the_bus(area: int) -> bool {
    area == 0 || area == 1 || area == 4 || area == 5
}

/// Where the memories stand on the bus, and how far they reach. The System Manager repeats every
/// 128 bytes.
#[verifier::spinoff_prover]
pub proof fn bus_has_the_memories(area: int, half: int, i: int)
    requires
        shows_the_bus(area),
        half == 0 || half == 1,
        0 <= i,
    ensures
        i < 0x10_0000 ==> region_of(seen(area, half, 0x0000_0000 + i)) == MemRegion::Bios(i as usize),
        i < 0x08_0000 ==> region_of(seen(area, half, 0x0018_0000 + i)) == MemRegion::BackupRam(i as usize),
        i < 0x10_0000 ==> region_of(seen(area, half, 0x0020_0000 + i)) == MemRegion::LowRam(i as usize),
        i < 0x200_0000 ==> region_of(seen(area, half, 0x0600_0000 + i)) == MemRegion::HighRam(i as usize),
        i < 0x8_0000 ==> region_of(seen(area, half, 0x0010_0000 + i)) == MemRegion::Smpc(
            (i % 0x80) as usize,
        ),
{
    bus_address(area, half, 0x0000_0000 + i);
    bus_address(area, half, 0x0010_0000 + i);
    bus_address(area, half, 0x0018_0000 + i);
    bus_address(area, half, 0x0020_0000 + i);
    bus_address(area, half, 0x0600_0000 + i);
}

/// Where the CD block, the sound chip and VDP1 stand.
#[verifier::spinoff_prover]
pub proof fn bus_has_the_cd_block_sound_and_vdp1(area: int, half: int, i: int)
    requires
        shows_the_bus(area),
        half == 0 || half == 1,
        0 <= i,
    ensures
        i < 0x10_0000 ==> region_of(seen(area, half, 0x0580_0000 + i)) == MemRegion::Cs2Regs(i as usize),
        i < 0x10_0000 ==> region_of(seen(area, half, 0x05A0_0000 + i)) == MemRegion::SoundRam(i as usize),
        i < 0x10_0000 ==> region_of(seen(area, half, 0x05B0_0000 + i)) == MemRegion::ScspRegs(i as usize),
        i < 0x08_0000 ==> region_of(seen(area, half, 0x05C0_0000 + i)) == MemRegion::Vdp1Vram(i as usize),
        i < 0x08_0000 ==> region_of(seen(area, half, 0x05C8_0000 + i)) == MemRegion::Vdp1Framebuffer(i as usize),
        i < 0x08_0000 ==> region_of(seen(area, half, 0x05D0_0000 + i)) == MemRegion::Vdp1Regs(i as usize),
{
    bus_address(area, half, 0x0580_0000 + i);
    bus_address(area, half, 0x05A0_0000 + i);
    bus_address(area, half, 0x05B0_0000 + i);
    bus_address(area, half, 0x05C0_0000 + i);
    bus_address(area, half, 0x05C8_0000 + i);
    bus_address(area, half, 0x05D0_0000 + i);
}

/// Where VDP2 and the SCU stand.
#[verifier::spinoff_prover]
pub proof fn bus_has_vdp2_and_the_scu(area: int, half: int, i: int)
    requires
        shows_the_bus(area),
        half == 0 || half == 1,
        0 <= i,
    ensures
        i < 0x10_0000 ==> region_of(seen(area, half, 0x05E0_0000 + i)) == MemRegion::Vdp2Vram(i as usize),
        i < 0x08_0000 ==> region_of(seen(area, half, 0x05F0_0000 + i)) == MemRegion::Vdp2Cram(i as usize),
        i < 0x04_0000 ==> region_of(seen(area, half, 0x05F8_0000 + i)) == MemRegion::Vdp2Regs(i as usize),
        i < 0x01_0000 ==> region_of(seen(area, half, 0x05FE_0000 + i)) == MemRegion::ScuRegs(i as usize),
{
    bus_address(area, half, 0x05E0_0000 + i);
    bus_address(area, half, 0x05F0_0000 + i);
    bus_address(area, half, 0x05F8_0000 + i);
    bus_address(area, half, 0x05FE_0000 + i);
}

/// Nothing answers anywhere else.
#[verifier::spinoff_prover]
pub proof fn bus_has_holes(area: int, half: int, i: int)
    requires
        shows_the_bus(area),
        half == 0 || half == 1,
        0 <= i,
    ensures
        i < 0x0550_0000 ==> region_of(seen(area, half, 0x0030_0000 + i)) is Unmapped,
        i < 0x10_0000 ==> region_of(seen(area, half, 0x0590_0000 + i)) is Unmapped,
        i < 0x08_0000 ==> region_of(seen(area, half, 0x05D8_0000 + i)) is Unmapped,
        i < 0x02_0000 ==> region_of(seen(area, half, 0x05FC_0000 + i)) is Unmapped,
        i < 0x01_0000 ==> region_of(seen(area, half, 0x05FF_0000 + i)) is Unmapped,
        i < 0x0800_0000 ==> region_of(seen(area, half, 0x0800_0000 + i)) is Unmapped,
{
    bus_address(area, half, 0x0030_0000 + i);
    bus_address(area, half, 0x0590_0000 + i);
    bus_address(area, half, 0x05D8_0000 + i);
    bus_address(area, half, 0x05FC_0000 + i);
    bus_address(area, half, 0x05FF_0000 + i);
    bus_address(area, half, 0x0800_0000 + i);
}

#[verifier::spinoff_prover]
proof fn bus_address(area: int, half: int, a: int)
    requires
        shows_the_bus(area),
        half == 0 || half == 1,
        0 <= a,
    ensures
        a < 0x1000_0000 ==> region_of(seen(area, half, a)) == device_of(a),
{
    reveal(seen);
    let s = area * 0x2000_0000 + half * 0x1000_0000 + a;
    assert(a < 0x1000_0000 ==> s / 0x2000_0000 == area && s % 0x1000_0000 == a && s < 0xFFFF_FE00);
}

/// The areas that belong to the processor itself: cache purging, the tags and the data of the
/// cache, and at the very end the registers on the chip.
#[verifier::spinoff_prover]
pub proof fn processor_has_areas_of_its_own(i: int)
    requires
        0 <= i,
    ensures
        i < 0x2000_0000 ==> region_of((0x4000_0000 + i) as u32) is PurgeArea,
        i < 0x2000_0000 ==> region_of((0x6000_0000 + i) as u32) == MemRegion::AddressArray(
            (i % 0x400 / 4 * 4) as usize,
        ),
        i < 0x2000_0000 ==> region_of((0xC000_0000 + i) as u32) == MemRegion::DataArray(
            (i % 0x1000) as usize,
        ),
        i < 0x1FFF_FE00 ==> region_of((0xE000_0000 + i) as u32) is Unmapped,
        i < 0x200 ==> region_of((0xFFFF_FE00 + i) as u32) == MemRegion::OnChip(i as usize),
{
    assert(i < 0x2000_0000 ==> (0x4000_0000 + i) / 0x2000_0000 == 2);
    assert(i < 0x2000_0000 ==> (0x6000_0000 + i) / 0x2000_0000 == 3);
    assert(i < 0x2000_0000 ==> (0xC000_0000 + i) / 0x2000_0000 == 6);
    assert(i < 0x1FFF_FE00 ==> (0xE000_0000 + i) / 0x2000_0000 == 7);
    assert((0xFFFF_FE00 + i) % 0x200 == i % 0x200);
    assert((0x6000_0000 + i) % 0x400 == i % 0x400);
    assert((0xC000_0000 + i) % 0x1000 == i % 0x1000);
}

/// Every memory is read in its own place, and repeats at its size. The BIOS is 512 KB and reads 0
/// behind its end; sound RAM repeats after 256 KB unless it answers with its full size, and reads
/// 0xFF behind its end.
#[verifier::spinoff_prover]
pub proof fn memories_are_read_in_their_places(b: BusView, off: usize)
    ensures
        read8(b, MemRegion::LowRam(off)) == b.ram.low_ram[off as int % 0x10_0000],
        read8(b, MemRegion::HighRam(off)) == b.ram.high_ram[off as int % 0x10_0000],
        read8(b, MemRegion::Vdp1Vram(off)) == b.ram.vdp1_vram[off as int % 0x8_0000],
        read8(b, MemRegion::Vdp1Framebuffer(off)) == b.ram.vdp1_framebuffer[off as int % 0x4_0000],
        read8(b, MemRegion::Vdp2Vram(off)) == b.ram.vdp2_vram[off as int % 0x8_0000],
        read8(b, MemRegion::Vdp2Cram(off)) == b.ram.vdp2_cram[off as int % 0x1000],
        read8(b, MemRegion::ScspRegs(off)) == b.ram.scsp_regs[off as int % 0x1000],
        read8(b, MemRegion::ScuRegs(off)) == b.ram.scu_regs[off as int % 0x100],
        read8(b, MemRegion::BackupRam(off)) == b.ram.backup_ram[off as int % 0x1_0000],
        read8(b, MemRegion::Bios(off)) == if off as int % 0x8_0000 < b.bios.len() {
            b.bios[off as int % 0x8_0000]
        } else {
            0u8
        },
        !b.ram.mem4b ==> read8(b, MemRegion::SoundRam(off)) == b.ram.sound_ram[off as int
            % 0x4_0000],
        b.ram.mem4b && off as int % 0x10_0000 < 0x8_0000 ==> read8(b, MemRegion::SoundRam(off))
            == b.ram.sound_ram[off as int % 0x10_0000],
        b.ram.mem4b && off as int % 0x10_0000 >= 0x8_0000 ==> read8(b, MemRegion::SoundRam(off))
            == 0xFF,
        off < 0x1000 ==> read8(b, MemRegion::Cs2Regs(off)) == b.ram.cs2_regs[off as int],
        0x1000 <= off < 0x10_0000 ==> read8(b, MemRegion::Cs2Regs(off)) == 0,
        off as int % 0x200 != 4 && off as int % 0x200 != 5 ==> read8(b, MemRegion::Vdp2Regs(off))
            == b.ram.vdp2_regs[off as int % 0x200],
        off < 0x80 && off != 0x63 ==> read8(b, MemRegion::Smpc(off)) == b.ram.smpc_regs[off as int],
        off < 0x1000 ==> read8(b, MemRegion::DataArray(off)) == b.data_array[off as int],
        read8(b, MemRegion::Unmapped) == 0,
        read8(b, MemRegion::PurgeArea) == 0xFF,
{
}

/// Two bytes as a word, the first one the more significant.
pub open spec fn word_of(b: BusView, first: MemRegion, second: MemRegion) -> int {
    read8(b, first) * 0x100 + read8(b, second)
}

/// Words and long words of the memories are their bytes, most significant first.
#[verifier::spinoff_prover]
pub proof fn wide_reads_are_big_endian(b: BusView, off: usize)
    requires
        b.ram.wf(),
        off <= 0x1000_0000,
    ensures
        read16(b, MemRegion::LowRam(off)) == word_of(b, MemRegion::LowRam(off), MemRegion::LowRam(
            (off + 1) as usize,
        )),
        read16(b, MemRegion::HighRam(off)) == word_of(b, MemRegion::HighRam(off), MemRegion::HighRam(
            (off + 1) as usize,
        )),
        read16(b, MemRegion::Vdp1Vram(off)) == word_of(b, MemRegion::Vdp1Vram(off), MemRegion::Vdp1Vram(
            (off + 1) as usize,
        )),
        read16(b, MemRegion::Vdp1Framebuffer(off)) == word_of(b, MemRegion::Vdp1Framebuffer(off), MemRegion::Vdp1Framebuffer(
            (off + 1) as usize,
        )),
        read16(b, MemRegion::Vdp2Vram(off)) == word_of(b, MemRegion::Vdp2Vram(off), MemRegion::Vdp2Vram(
            (off + 1) as usize,
        )),
        read16(b, MemRegion::Vdp2Cram(off)) == word_of(b, MemRegion::Vdp2Cram(off), MemRegion::Vdp2Cram(
            (off + 1) as usize,
        )),
        read16(b, MemRegion::Vdp2Regs(off)) == word_of(b, MemRegion::Vdp2Regs(off), MemRegion::Vdp2Regs(
            (off + 1) as usize,
        )),
        read16(b, MemRegion::BackupRam(off)) == word_of(b, MemRegion::BackupRam(off), MemRegion::BackupRam(
            (off + 1) as usize,
        )),
        read16(b, MemRegion::ScspRegs(off)) == word_of(b, MemRegion::ScspRegs(off), MemRegion::ScspRegs(
            (off + 1) as usize,
        )),
        read32(b, MemRegion::LowRam(off)) == word_of(b, MemRegion::LowRam(off), MemRegion::LowRam(
            (off + 1) as usize,
        )) * 0x1_0000 + word_of(b, MemRegion::LowRam((off + 2) as usize), MemRegion::LowRam(
            (off + 3) as usize,
        )),
        read32(b, MemRegion::HighRam(off)) == word_of(b, MemRegion::HighRam(off), MemRegion::HighRam(
            (off + 1) as usize,
        )) * 0x1_0000 + word_of(b, MemRegion::HighRam((off + 2) as usize), MemRegion::HighRam(
            (off + 3) as usize,
        )),
        read32(b, MemRegion::Vdp1Vram(off)) == word_of(b, MemRegion::Vdp1Vram(off), MemRegion::Vdp1Vram(
            (off + 1) as usize,
        )) * 0x1_0000 + word_of(b, MemRegion::Vdp1Vram((off + 2) as usize), MemRegion::Vdp1Vram(
            (off + 3) as usize,
        )),
        read32(b, MemRegion::Vdp1Framebuffer(off)) == word_of(b, MemRegion::Vdp1Framebuffer(off), MemRegion::Vdp1Framebuffer(
            (off + 1) as usize,
        )) * 0x1_0000 + word_of(b, MemRegion::Vdp1Framebuffer((off + 2) as usize), MemRegion::Vdp1Framebuffer(
            (off + 3) as usize,
        )),
        read32(b, MemRegion::Vdp2Vram(off)) == word_of(b, MemRegion::Vdp2Vram(off), MemRegion::Vdp2Vram(
            (off + 1) as usize,
        )) * 0x1_0000 + word_of(b, MemRegion::Vdp2Vram((off + 2) as usize), MemRegion::Vdp2Vram(
            (off + 3) as usize,
        )),
        read32(b, MemRegion::Vdp2Cram(off)) == word_of(b, MemRegion::Vdp2Cram(off), MemRegion::Vdp2Cram(
            (off + 1) as usize,
        )) * 0x1_0000 + word_of(b, MemRegion::Vdp2Cram((off + 2) as usize), MemRegion::Vdp2Cram(
            (off + 3) as usize,
        )),
        read32(b, MemRegion::Vdp2Regs(off)) == word_of(b, MemRegion::Vdp2Regs(off), MemRegion::Vdp2Regs(
            (off + 1) as usize,
        )) * 0x1_0000 + word_of(b, MemRegion::Vdp2Regs((off + 2) as usize), MemRegion::Vdp2Regs(
            (off + 3) as usize,
        )),
        read32(b, MemRegion::BackupRam(off)) == word_of(b, MemRegion::BackupRam(off), MemRegion::BackupRam(
            (off + 1) as usize,
        )) * 0x1_0000 + word_of(b, MemRegion::BackupRam((off + 2) as usize), MemRegion::BackupRam(
            (off + 3) as usize,
        )),
        read32(b, MemRegion::ScspRegs(off)) == word_of(b, MemRegion::ScspRegs(off), MemRegion::ScspRegs(
            (off + 1) as usize,
        )) * 0x1_0000 + word_of(b, MemRegion::ScspRegs((off + 2) as usize), MemRegion::ScspRegs(
            (off + 3) as usize,
        )),
{
}

/// A store to backup RAM goes to the odd byte of its pair.
#[verifier::spinoff_prover]
pub proof fn backup_ram_holds_odd_bytes(m: Memory, off: usize, val: u8, i: int)
    requires
        m.wf(),
        off < 0x8_0000,
        0 <= i < 0x1_0000,
    ensures
        ({
            let after = mem_write8(m, MemRegion::BackupRam(off), val).backup_ram;
            after[i] == if i == (off as int / 2 * 2 + 1) % 0x1_0000 {
                val
            } else {
                m.backup_ram[i]
            }
        }),
{
}

/// The full size of sound RAM is switched by bit 1 of the register at 0x400 of the sound chip.
pub proof fn sound_chip_switches_its_ram(m: Memory, off: usize, val: u8)
    requires
        off < 0x1000,
    ensures
        mem_write8(m, MemRegion::ScspRegs(off), val).mem4b == if off == 0x400 {
            val as int / 2 % 2 == 1
        } else {
            m.mem4b
        },
{
}

/// Wait states of a read: 16 cycles for the BIOS and its neighbours, 12 for low RAM, 24 for the
/// cartridge and the CD block, 50 for the sound chip and VDP1, 2 for VDP2 and the SCU, and none
/// for high RAM.
#[verifier::spinoff_prover]
pub proof fn reads_wait(area: int, i: int)
    requires
        0 <= area < 8,
        0 <= i,
    ensures
        i < 0x20_0000 ==> read_wait(seen(area, 0, i)) == 16,
        i < 0xE0_0000 ==> read_wait(seen(area, 0, 0x0020_0000 + i)) == 12,
        i < 0x200_0000 ==> read_wait(seen(area, 0, 0x0200_0000 + i)) == 24,
        i < 0x20_0000 ==> read_wait(seen(area, 0, 0x0580_0000 + i)) == 24,
        i < 0x40_0000 ==> read_wait(seen(area, 0, 0x05A0_0000 + i)) == 50,
        i < 0x20_0000 ==> read_wait(seen(area, 0, 0x05E0_0000 + i)) == 2,
        i < 0x200_0000 ==> read_wait(seen(area, 0, 0x0600_0000 + i)) == 0,
{
    within_area(area, i);
    within_area(area, 0x0020_0000 + i);
    within_area(area, 0x0200_0000 + i);
    within_area(area, 0x0580_0000 + i);
    within_area(area, 0x05A0_0000 + i);
    within_area(area, 0x05E0_0000 + i);
    within_area(area, 0x0600_0000 + i);
}

/// Wait states of a store: 7 cycles for low RAM and sound RAM, 2 for VDP1, VDP2, the SCU and high
/// RAM, and none for the BIOS and its neighbours.
#[verifier::spinoff_prover]
pub proof fn stores_wait(area: int, i: int)
    requires
        0 <= area < 8,
        0 <= i,
    ensures
        i < 0x20_0000 ==> write_wait(seen(area, 0, i)) == 0,
        i < 0xE0_0000 ==> write_wait(seen(area, 0, 0x0020_0000 + i)) == 7,
        i < 0x10_0000 ==> write_wait(seen(area, 0, 0x05A0_0000 + i)) == 7,
        i < 0x10_0000 ==> write_wait(seen(area, 0, 0x05B0_0000 + i)) == 0,
        i < 0x40_0000 ==> write_wait(seen(area, 0, 0x05C0_0000 + i)) == 2,
        i < 0x10_0000 ==> write_wait(seen(area, 0, 0x0600_0000 + i)) == 2,
{
    within_area(area, i);
    within_area(area, 0x0020_0000 + i);
    within_area(area, 0x05A0_0000 + i);
    within_area(area, 0x05B0_0000 + i);
    within_area(area, 0x05C0_0000 + i);
    within_area(area, 0x0600_0000 + i);
}

#[verifier::spinoff_prover]
proof fn within_area(area: int, a: int)
    requires
        0 <= area < 8,
        0 <= a,
    ensures
        a < 0x2000_0000 ==> seen(area, 0, a) as int % 0x2000_0000 == a,
{
    reveal(seen);
}

/// A command that is written to the command register at 0x1F runs at once, and reaches the other
/// cores: 0x02 starts the slave, 0x03 and the clock changes stop it, 0x06 and 0x07 switch the
/// sound processor on and off. A clock change does not start the slave again.
#[verifier::spinoff_prover]
pub proof fn commands_reach_the_cores(b: BusView, val: u8)
    requires
        b.irq.sync_linked,
        val != 0x10,
    ensures
        ({
            let after = smpc_written(b, 0x1F, val);
            let asked = |active: bool| b.irq.sync_requests.push(ThreadRequest { core: 1, active });
            &&& val == 0x02 ==> after.irq.sync_requests == asked(true)
            &&& val == 0x03 ==> after.irq.sync_requests == asked(false)
            &&& (val == 0x0E || val == 0x0F) && b.smpc is Some ==> after.irq.sync_requests == asked(
                false,
            )
            &&& val != 0x02 && val != 0x03 && val != 0x0E && val != 0x0F ==> after.irq == b.irq
            &&& b.m68k_control is Some && val == 0x06 ==> after.m68k_control == Some(true)
            &&& b.m68k_control is Some && val == 0x07 ==> after.m68k_control == Some(false)
            &&& val != 0x06 && val != 0x07 ==> after.m68k_control == b.m68k_control
            &&& b.m68k_control is None ==> after.m68k_control is None
        }),
{
    reveal(smpc_written);
}

/// A status request raises the System Manager's interrupt: vector 0x47, level 8.
#[verifier::spinoff_prover]
pub proof fn status_requests_interrupt(b: BusView)
    ensures
        smpc_written(b, 0x1F, 0x10).irq == b.irq.sent(0x47, 8),
{
    reveal(smpc_written);
}

/// The registers of VDP1: where it stops and what it does can be read, its modes and its erase
/// area can be written, and a write to 0x0C stops it.
#[verifier::spinoff_prover]
pub proof fn vdp1_has_its_registers(v: Vdp1State, val: u16, i: int)
    requires
        0 <= i,
    ensures
        vdp1_reg(v, i * 0x100 + 0x10) == v.edsr,
        vdp1_reg(v, i * 0x100 + 0x12) == v.lopr,
        vdp1_reg(v, i * 0x100 + 0x14) == v.copr,
        vdp1_reg(v, i * 0x100 + 0x16) == 0x1000 + v.ptmr as int / 2 % 2 * 0x100 + v.fbcr as int / 2
            % 16 * 0x10 + v.tvmr as int % 16,
        vdp1_reg_written(v, i * 0x100, val) == (Vdp1State { tvmr: val, ..v }),
        vdp1_reg_written(v, i * 0x100 + 0x02, val) == (Vdp1State { fbcr: val, ..v }),
        vdp1_reg_written(v, i * 0x100 + 0x04, val) == (Vdp1State { ptmr: val, ..v }),
        vdp1_reg_written(v, i * 0x100 + 0x06, val) == (Vdp1State { ewdr: val, ..v }),
        vdp1_reg_written(v, i * 0x100 + 0x08, val) == (Vdp1State { ewlr: val, ..v }),
        vdp1_reg_written(v, i * 0x100 + 0x0A, val) == (Vdp1State { ewrr: val, ..v }),
        vdp1_reg_written(v, i * 0x100 + 0x0C, val) == (Vdp1State {
            endr: val,
            status: Vdp1Status::IDLE,
            ..v
        }),
        vdp1_reg_written(v, i * 0x100 + 0x10, val) == v,
{
}

/// The status of the screen says for 2417 microseconds after each interval of 16666 that the beam
/// returns, in its bit 3, and is else 0.
pub proof fn screen_status_follows_the_beam(b: BusView, due: u64)
    requires
        b.next_vblank_due == Some(due),
        due >= 16_666,
    ensures
        tvstat_of(b) == if due - 16_666 <= b.now_us < due - 14_249 {
            8u16
        } else {
            0u16
        },
{
}

/// The registers on the chip are read at their places, the division unit's also 32 bytes on. Which
/// compare register shows at 0x14 is for bit 4 of the output control register to say.
#[verifier::spinoff_prover]
pub proof fn chip_registers_are_read(o: Sh2OnChip)
    ensures
        onchip_read32(o, 0x100) == o.dvsr,
        onchip_read32(o, 0x104) == o.dvdntl,
        onchip_read32(o, 0x108) == o.dvcr,
        onchip_read32(o, 0x10C) == o.vcrdiv,
        onchip_read32(o, 0x110) == o.dvdnth,
        onchip_read32(o, 0x114) == o.dvdntl,
        onchip_read32(o, 0x118) == o.dvdntuh,
        onchip_read32(o, 0x11C) == o.dvdntul,
        onchip_read32(o, 0x140) == o.bara,
        onchip_read32(o, 0x144) == o.bamra,
        onchip_read32(o, 0x178) == o.brcr,
        onchip_read32(o, 0x180) == o.sar0,
        onchip_read32(o, 0x184) == o.dar0,
        onchip_read32(o, 0x188) == o.tcr0,
        onchip_read32(o, 0x18C) == o.chcr0,
        onchip_read32(o, 0x190) == o.sar1,
        onchip_read32(o, 0x194) == o.dar1,
        onchip_read32(o, 0x198) == o.tcr1,
        onchip_read32(o, 0x19C) == o.chcr1,
        onchip_read32(o, 0x1A0) == o.vcrdma0,
        onchip_read32(o, 0x1A8) == o.vcrdma1,
        onchip_read32(o, 0x1B0) == o.dmaor,
        onchip_read32(o, 0x120) == o.dvsr,
        onchip_read32(o, 0x134) == o.dvdntl,
        onchip_read16(o, 0x060) == o.iprb,
        onchip_read16(o, 0x062) == o.vcra,
        onchip_read16(o, 0x064) == o.vcrb,
        onchip_read16(o, 0x066) == o.vcrc,
        onchip_read16(o, 0x068) == o.vcrd,
        onchip_read16(o, 0x0E0) == o.icr,
        onchip_read16(o, 0x0E2) == o.ipra,
        onchip_read16(o, 0x0E4) == o.vcrwdt,
        onchip_read16(o, 0x012) == o.frc,
        onchip_read16(o, 0x018) == o.ficr,
        onchip_read16(o, 0x1E2) == o.bcr1,
        onchip_read16(o, 0x1E6) == o.bcr2,
        onchip_read16(o, 0x1EA) == o.wcr,
        onchip_read16(o, 0x1EE) == o.mcr,
        onchip_read16(o, 0x1F2) == o.rtcsr,
        onchip_read16(o, 0x1F6) == o.rtcnt,
        onchip_read16(o, 0x1FA) == o.rtcor,
        onchip_read16(o, 0x148) == o.bbra,
        onchip_read16(o, 0x168) == o.bbrb,
        onchip_read16(o, 0x014) == if o.tocr & 0x10 == 0 {
            o.ocra
        } else {
            o.ocrb
        },
        onchip_read8(o, 0x000) == o.smr,
        onchip_read8(o, 0x001) == o.brr,
        onchip_read8(o, 0x002) == o.scr,
        onchip_read8(o, 0x003) == o.tdr,
        onchip_read8(o, 0x004) == o.ssr,
        onchip_read8(o, 0x005) == o.rdr,
        onchip_read8(o, 0x010) == o.tier,
        onchip_read8(o, 0x011) == o.ftcsr,
        onchip_read8(o, 0x016) == o.tcr,
        onchip_read8(o, 0x017) == o.tocr,
        onchip_read8(o, 0x071) == o.drcr0,
        onchip_read8(o, 0x072) == o.drcr1,
        onchip_read8(o, 0x080) == o.wtcsr,
        onchip_read8(o, 0x081) == o.wtcnt,
        onchip_read8(o, 0x083) == o.rstcsr,
        onchip_read8(o, 0x091) == o.sbycr,
        onchip_read8(o, 0x092) == o.ccr,
{
    reveal(onchip_read8);
    reveal(onchip_read16);
    reveal(onchip_read32);
}

/// They are written at the same places, each as far as its bits exist. Flags of the timer can only
/// be cleared.
#[verifier::spinoff_prover]
pub proof fn chip_registers_are_written(o: Sh2OnChip, val: u32, w: u16, v: u8)
    ensures
        onchip_set32(o, 0x100, val) == (Sh2OnChip { dvsr: val, ..o }),
        onchip_set32(o, 0x108, val) == (Sh2OnChip { dvcr: val & 3, ..o }),
        onchip_set32(o, 0x10C, val) == (Sh2OnChip { vcrdiv: val & 0xFFFF, ..o }),
        onchip_set32(o, 0x110, val) == (Sh2OnChip { dvdnth: val, ..o }),
        onchip_set32(o, 0x118, val) == (Sh2OnChip { dvdntuh: val, ..o }),
        onchip_set32(o, 0x11C, val) == (Sh2OnChip { dvdntul: val, ..o }),
        onchip_set32(o, 0x140, val) == (Sh2OnChip { bara: val, ..o }),
        onchip_set32(o, 0x144, val) == (Sh2OnChip { bamra: val, ..o }),
        onchip_set32(o, 0x178, val) == (Sh2OnChip { brcr: val, ..o }),
        onchip_set32(o, 0x180, val) == (Sh2OnChip { sar0: val, ..o }),
        onchip_set32(o, 0x184, val) == (Sh2OnChip { dar0: val, ..o }),
        onchip_set32(o, 0x188, val) == (Sh2OnChip { tcr0: val & 0xFF_FFFF, ..o }),
        onchip_set32(o, 0x190, val) == (Sh2OnChip { sar1: val, ..o }),
        onchip_set32(o, 0x194, val) == (Sh2OnChip { dar1: val, ..o }),
        onchip_set32(o, 0x198, val) == (Sh2OnChip { tcr1: val & 0xFF_FFFF, ..o }),
        onchip_set32(o, 0x1A0, val) == (Sh2OnChip { vcrdma0: val & 0xFFFF, ..o }),
        onchip_set32(o, 0x1A8, val) == (Sh2OnChip { vcrdma1: val & 0xFFFF, ..o }),
        onchip_put16(o, 0x060, w) == (Sh2OnChip { iprb: w & 0xFF00, ..o }),
        onchip_put16(o, 0x062, w) == (Sh2OnChip { vcra: w & 0x7F7F, ..o }),
        onchip_put16(o, 0x064, w) == (Sh2OnChip { vcrb: w & 0x7F7F, ..o }),
        onchip_put16(o, 0x066, w) == (Sh2OnChip { vcrc: w & 0x7F7F, ..o }),
        onchip_put16(o, 0x068, w) == (Sh2OnChip { vcrd: w & 0x7F7F, ..o }),
        onchip_put16(o, 0x0E0, w) == (Sh2OnChip { icr: w & 0x0101, ..o }),
        onchip_put16(o, 0x0E2, w) == (Sh2OnChip { ipra: w & 0xFFF0, ..o }),
        onchip_put16(o, 0x0E4, w) == (Sh2OnChip { vcrwdt: w & 0x7F7F, ..o }),
        onchip_put16(o, 0x012, w) == (Sh2OnChip { frc: w, ..o }),
        onchip_put16(o, 0x148, w) == (Sh2OnChip { bbra: w, ..o }),
        onchip_put16(o, 0x168, w) == (Sh2OnChip { bbrb: w, ..o }),
        o.tocr & 0x10 == 0 ==> onchip_put16(o, 0x014, w) == (Sh2OnChip { ocra: w, ..o }),
        o.tocr & 0x10 != 0 ==> onchip_put16(o, 0x014, w) == (Sh2OnChip { ocrb: w, ..o }),
        onchip_put8(o, 0x000, v) == (Sh2OnChip { smr: v, ..o }),
        onchip_put8(o, 0x001, v) == (Sh2OnChip { brr: v, ..o }),
        onchip_put8(o, 0x003, v) == (Sh2OnChip { tdr: v, ..o }),
        onchip_put8(o, 0x004, v) == (Sh2OnChip { ssr: v, ..o }),
        onchip_put8(o, 0x010, v) == (Sh2OnChip { tier: (v & 0x8E) | 0x01, ..o }),
        onchip_put8(o, 0x016, v) == (Sh2OnChip { tcr: v & 0x83, ..o }),
        onchip_put8(o, 0x017, v) == (Sh2OnChip { tocr: 0xE0 | (v & 0x13), ..o }),
        onchip_put8(o, 0x071, v) == (Sh2OnChip { drcr0: v & 0x3, ..o }),
        onchip_put8(o, 0x072, v) == (Sh2OnChip { drcr1: v & 0x3, ..o }),
        onchip_put8(o, 0x080, v) == (Sh2OnChip { wtcsr: v, ..o }),
        onchip_put8(o, 0x081, v) == (Sh2OnChip { wtcnt: v, ..o }),
        onchip_put8(o, 0x083, v) == (Sh2OnChip { rstcsr: v, ..o }),
        onchip_put8(o, 0x091, v) == (Sh2OnChip { sbycr: v & 0xDF, ..o }),
        onchip_put8(o, 0x092, v) == (Sh2OnChip { ccr: v & 0xCF, ..o }),
        onchip_put8(o, 0x011, v) == (Sh2OnChip { ftcsr: (o.ftcsr & (v & 0xFE)) | (v & 0x01), ..o }),
{
    reveal(onchip_put8);
    reveal(onchip_put16);
    reveal(onchip_set32);
}

/// The timer counts every 8, 32 or 128 cycles, by the low two bits of its control register, and on
/// the fourth choice as before.
#[verifier::spinoff_prover]
pub proof fn timer_control_sets_its_pace(b: BusView, val: u8)
    ensures
        ({
            let unit = frt_unit(byte_reg_written(b, 0x016, val).frc_shift as int);
            &&& val as int % 4 == 0 ==> unit == 8
            &&& val as int % 4 == 1 ==> unit == 32
            &&& val as int % 4 == 2 ==> unit == 128
            &&& val as int % 4 == 3 ==> unit == frt_unit(b.frc_shift as int)
        }),
{
    reveal(byte_reg_written);
}

/// What the timer notes: passing compare register A in bit 3 of its status, B in bit 2, and starting
/// over in bit 1. Where bit 0 is set, A also clears the count.
#[verifier::spinoff_prover]
pub proof fn timer_notes_what_it_passes(b: BusView, cycles: int, count: int)
    requires
        b.frc_shift <= 7,
        cycles >= 0,
        count == b.onchip.frc + (cycles + b.frc_leftover) / frt_unit(b.frc_shift as int),
        count <= 0xFFFF,
    ensures
        ({
            let after = timer_run(b, cycles).onchip;
            let a = b.onchip.frc < b.onchip.ocra <= count;
            let cleared = a && b.onchip.ftcsr & 0x01 != 0;
            let ob = b.onchip.frc < b.onchip.ocrb <= count && !cleared;
            &&& after.frc == if cleared {
                0
            } else {
                count
            }
            &&& after.ftcsr & 0x08 != 0 <==> a || b.onchip.ftcsr & 0x08 != 0
            &&& !cleared ==> (after.ftcsr & 0x04 != 0 <==> ob || b.onchip.ftcsr & 0x04 != 0)
            &&& after.ftcsr & 0x02 == b.onchip.ftcsr & 0x02
        }),
{
    reveal(timer_run);
    let unit = frt_unit(b.frc_shift as int);
    assert((cycles + b.frc_leftover) / unit >= 0) by (nonlinear_arith)
        requires
            cycles + b.frc_leftover >= 0,
            unit >= 1,
    ;
    let f = b.onchip.ftcsr;
    flags_of_the_timer(f);
    flags_of_the_timer(f | 8);
}

proof fn flags_of_the_timer(f: u8)
    ensures
        (f | 8) & 8 != 0,
        (f | 8) & 4 == f & 4,
        (f | 8) & 2 == f & 2,
        (f | 8) & 1 == f & 1,
        (f | 4) & 4 != 0,
        (f | 4) & 8 == f & 8,
        (f | 4) & 2 == f & 2,
        (f | 4) & 1 == f & 1,
        (f | 2) & 2 != 0,
{
    assert((f | 8) & 8 != 0 && (f | 8) & 4 == f & 4 && (f | 8) & 2 == f & 2 && (f | 8) & 1 == f & 1
        && (f | 4) & 4 != 0 && (f | 4) & 8 == f & 8 && (f | 4) & 2 == f & 2 && (f | 4) & 1 == f & 1
        && (f | 2) & 2 != 0) by (bit_vector);
}

/// Starting over sets bit 1 of the timer's status.
#[verifier::spinoff_prover]
pub proof fn timer_notes_that_it_starts_over(b: BusView, cycles: int)
    requires
        b.frc_shift <= 7,
        cycles >= 0,
        b.onchip.frc + (cycles + b.frc_leftover) / frt_unit(b.frc_shift as int) > 0xFFFF,
    ensures
        timer_run(b, cycles).onchip.ftcsr & 0x02 != 0,
{
    reveal(timer_run);
    flags_of_the_timer(b.onchip.ftcsr);
    flags_of_the_timer(b.onchip.ftcsr | 8);
    flags_of_the_timer(b.onchip.ftcsr | 4);
    flags_of_the_timer((b.onchip.ftcsr | 8) | 4);
}

/// A capture keeps the count and is noted in bit 7.
pub proof fn captures_keep_the_count(b: BusView)
    ensures
        captured(b).onchip.ficr == b.onchip.frc,
        captured(b).onchip.ftcsr & 0x80 != 0,
        captured(b).onchip.frc == b.onchip.frc,
        b.onchip.tier & 0x80 == 0 ==> captured(b).irq == b.irq,
{
    let f = b.onchip.ftcsr;
    assert((f | 0x80) & 0x80 != 0) by (bit_vector);
}

/// The beam's return is due every 16666 microseconds and lasts 2417: its beginning raises vector
/// 0x40 at level 15, its end vector 0x41 at level 14, and neither comes before it is due.
#[verifier::spinoff_prover]
pub proof fn frames_interrupt_in_time(m: Machine, now: u64)
    requires
        now <= u64::MAX - 16_666,
    ensures
        ({
            let after = clocked(m, now);
            let begins = m.bus.next_vblank_due is Some && m.bus.next_vblank_due.unwrap() <= now;
            let ends = m.next_vblank_out_due is Some && m.next_vblank_out_due.unwrap() <= now;
            &&& begins ==> after.bus.irq == m.bus.irq.sent(0x40, 15)
                && after.bus.next_vblank_due == Some((now + 16_666) as u64)
                && after.next_vblank_out_due == Some((now + 2_417) as u64)
            &&& !begins && ends ==> after.bus.irq == m.bus.irq.sent(0x41, 14)
                && after.next_vblank_out_due is None
            &&& !begins && !ends ==> after.bus.irq == m.bus.irq && after.next_vblank_out_due
                == m.next_vblank_out_due
            &&& !begins ==> after.bus.next_vblank_due == m.bus.next_vblank_due
            &&& after.bus.now_us == now
        }),
{
}

/// A reset takes the program counter from the first entry of the vector table and the stack pointer
/// from the second, clears the other registers and masks all interrupts.
pub proof fn reset_starts_from_the_vectors(m: Machine)
    ensures
        ({
            let (b1, pc) = load32(BusView { cycles: 0, ..m.bus }, 0);
            let (_, sp) = load32(b1, 4);
            let after = was_reset(m);
            &&& after.pc == pc
            &&& after.r[15] == sp
            &&& forall|i: int| 0 <= i < 15 ==> #[trigger] after.r[i] == 0
            &&& after.sr == 0xF0
            &&& after.vbr == 0 && after.gbr == 0 && after.pr == 0 && after.mach == 0 && after.macl
                == 0
            &&& !after.illegal
        }),
{
    reveal(was_reset);
}

/// TAS takes the byte where Rn points, sets T where it was 0, and stores it with its top bit set.
#[verifier::spinoff_prover]
pub proof fn tas_tests_and_sets(m: Machine, n: int)
    requires
        m.r.len() == 16,
        is_reg(n),
    ensures
        ({
            let a = m.r[n];
            let b = bus_granted(m.bus);
            let v = read8(b, region_of(a));
            let after = performed(m, op_ni(0x401B, n, 0));
            &&& after.t() == (v == 0)
            &&& after.bus == write8(
                after_read8(b, region_of(a)),
                a,
                v | 0x80,
                NESTING_LIMIT as nat,
            )
            &&& after == (Machine { sr: after.sr, bus: after.bus, ..m })
        }),
{
    reveal(group4_mem);
    reveal(tas);
    fields_ni(4, n, 0x1B, 0);
    plain_of_group(m, op_ni(0x401B, n, 0));
    let v = read8(bus_granted(m.bus), region_of(m.r[n]));
    flags_are_independent(m.sr, v == 0);
}

/// A DMA unit is a byte, a word or a long word, by bits 11 and 10 of the channel's control register
/// (the fourth choice moves long words too). Source and destination stay, move up or move down by
/// its size, by bits 13 and 12, and 15 and 14.
#[verifier::spinoff_prover]
pub proof fn dma_units_move_on(c: DmaChannel, size: u32, from: u32, to: u32)
    requires
        size < 4,
        from < 3,
        to < 3,
        c.chcr >> 10 & 3 == size,
        c.chcr >> 12 & 3 == from,
        c.chcr >> 14 & 3 == to,
        c.tcr > 0,
    ensures
        ({
            let bytes = if size == 0 {
                1int
            } else if size == 1 {
                2
            } else {
                4
            };
            let after = unit_moved(c);
            &&& after.tcr == c.tcr - 1
            &&& after.sar == at(
                c.sar + if from == 0 {
                    0
                } else if from == 1 {
                    bytes
                } else {
                    -bytes
                },
            )
            &&& after.dar == at(
                c.dar + if to == 0 {
                    0
                } else if to == 1 {
                    bytes
                } else {
                    -bytes
                },
            )
            &&& after.chcr == c.chcr
        }),
{
    cut_to_32_bits(c.sar, unit_stride(c.chcr));
    cut_to_32_bits(c.dar, unit_stride(c.chcr));
}

/// A channel works while the controller is on, no error or non-maskable interrupt stopped it, and
/// the channel is enabled and has not ended. Channel 0 comes first, unless turns are taken and it
/// is the other one's.
#[verifier::spinoff_prover]
pub proof fn dma_channels_take_their_turns(o: Sh2OnChip, cycles: u32)
    ensures
        ({
            let first = o.chcr0 & 1 != 0 && o.chcr0 & 2 == 0;
            let second = o.chcr1 & 1 != 0 && o.chcr1 & 2 == 0;
            let t = dma_turn(o, cycles);
            &&& o.dmaor & 6 != 0 ==> t == DmaTurn::Rest(Sh2OnChip { dmaor: o.dmaor & !1u32, ..o })
            &&& o.dmaor & 6 == 0 && (o.dmaor & 1 == 0 || !(first || second)) ==> t == DmaTurn::Rest(
                o,
            )
            &&& o.dmaor & 6 == 0 && o.dmaor & 1 != 0 && (first || second) ==> {
                let ch = if first && second {
                    if o.dmaor & 8 != 0 && o.dma_round_robin_next == 1 {
                        1int
                    } else {
                        0
                    }
                } else if first {
                    0
                } else {
                    1
                };
                t matches DmaTurn::Work(turn, budget) && turn == ch
            }
        }),
{
    reveal(dma_turn);
}

/// Writing bit 0 of a start register of the SCU, at 0x10, 0x30 or 0x50, starts the transfer of that
/// level.
pub proof fn scu_levels_are_started(off: int, val: u32)
    ensures
        val % 2 == 1 && off % 0x100 == 0x10 ==> scu_channel_started(off, val) == Some(0int),
        val % 2 == 1 && off % 0x100 == 0x30 ==> scu_channel_started(off, val) == Some(1int),
        val % 2 == 1 && off % 0x100 == 0x50 ==> scu_channel_started(off, val) == Some(2int),
        val % 2 == 0 ==> scu_channel_started(off, val) is None,
        off % 0x100 != 0x10 && off % 0x100 != 0x30 && off % 0x100 != 0x50 ==> scu_channel_started(
            off,
            val,
        ) is None,
{
}

} // verus!
