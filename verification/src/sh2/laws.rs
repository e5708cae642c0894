//! What holds of the bus and of the processor as a whole.

use crate::bytes::{
    byte16, byte32, byte_store_then_load, long_bytes_round_trip, long_store_keeps_the_next,
    long_store_then_load, rd16, rd32, rd8, word_bytes_round_trip, word_store_then_load, wr32, wr8,
};
use crate::sh2::bus::{
    access_begun, bus_granted, is_dsp_port, load16, load32, load8, read16, read32, read8,
    read_started, smpc_written, timer_run, write_started, BusView, DATA_ARRAY_SIZE,
};
use crate::interrupts::{queue_top, remove_keeps_order, send_keeps_order, top_has_highest_level};
use crate::sh2::alu::SR_WRITE_MASK;
use crate::sh2::exec::entered;
use crate::sh2::irq::{
    sound_line_polled, NMI_LEVEL, SOUND_REQ_IRQ_LEVEL, SOUND_REQ_IRQ_VECTOR,
};
use crate::sh2::ram::{
    cram_mirrors, mem_read16, mem_read32, mem_read8, mem_write16, mem_write32, mem_write8,
    sound_offset, sound_present, CRAM_HALF,
};
use crate::sh2::region::{read_wait, region_of, region_ok, store_region, write_wait, MemRegion};
use crate::sh2::store::{
    device_store16, device_store32, device_store8, scu_channel_started, store16, store32, store8,
};
use crate::sh2::step::{accepted, branch_of, masked_sr, serviced, was_reset};
use crate::sh2::Machine;
use crate::shared_buffers::{
    Memory, CS2_REGS_SIZE, HIGH_RAM_SIZE, LOW_RAM_SIZE, SCSP_REGS_SIZE, SCU_REGS_SIZE,
    SOUND_RAM_SIZE, SOUND_RAM_SMALL, VDP1_FB_WINDOW, VDP1_REGS_SIZE, VDP1_VRAM_SIZE, VDP2_REGS_SIZE,
    VDP2_VRAM_SIZE,
};
use crate::smpc::reg;
use vstd::prelude::*;

verus! {

/// Whether two buses agree in all but the processor's own modules, its time, its counters
/// and its trace.
pub open spec fn same_devices(a: BusView, b: BusView) -> bool {
    &&& a.ram == b.ram
    &&& a.bios == b.bios
    &&& a.smpc == b.smpc
    &&& a.vdp1 == b.vdp1
    &&& a.scu_dsp == b.scu_dsp
    &&& a.address_array == b.address_array
    &&& a.data_array == b.data_array
    &&& a.m68k_control == b.m68k_control
    &&& a.now_us == b.now_us
    &&& a.next_vblank_due == b.next_vblank_due
}

/// The timer has no hold on memories and devices.
pub proof fn timer_keeps_devices(b: BusView, cycles: int)
    ensures
        same_devices(timer_run(b, cycles), b),
        timer_run(b, cycles).cycles == b.cycles,
        timer_run(b, cycles).bus_grant == b.bus_grant,
{
    reveal(timer_run);
}

/// Starting a read takes time, and nothing else outside the processor.
pub proof fn starting_a_read_keeps_devices(b: BusView, address: u32, width: int)
    ensures
        same_devices(read_started(b, address, width), b),
{
    let begun = bus_granted(access_begun(b, address, false, width));
    timer_keeps_devices(
        BusView {
            cycles: begun.cycles.wrapping_add(read_wait(address) as u64),
            ..begun
        },
        read_wait(address) as int,
    );
}

/// Starting a store takes time, and nothing else outside the processor.
pub proof fn starting_a_store_keeps_devices(b: BusView, address: u32, width: int)
    ensures
        same_devices(write_started(b, address, width), b),
{
    let begun = bus_granted(access_begun(b, address, true, width));
    timer_keeps_devices(
        BusView {
            cycles: begun.cycles.wrapping_add(write_wait(address) as u64),
            ..begun
        },
        write_wait(address) as int,
    );
}

/// Whether the memories have their sizes.
pub open spec fn memories_wf(b: BusView) -> bool {
    &&& b.ram.wf()
    &&& b.address_array.len() == 256
    &&& b.data_array.len() == DATA_ARRAY_SIZE
}

/// Whether a byte stored in a region can be read back there. Left out are the BIOS
/// and what no device answers to, the on-chip registers, TVSTAT, the registers of an
/// SMPC or a VDP1 that is connected, the CD block's command registers, and the even
/// bytes of backup RAM.
pub open spec fn keeps8(b: BusView, g: MemRegion) -> bool {
    match g {
        MemRegion::LowRam(_) => true,
        MemRegion::HighRam(_) => true,
        MemRegion::Vdp1Vram(_) => true,
        MemRegion::Vdp1Framebuffer(_) => true,
        MemRegion::Vdp2Vram(_) => true,
        MemRegion::Vdp2Cram(_) => true,
        MemRegion::ScspRegs(_) => true,
        MemRegion::ScuRegs(_) => true,
        MemRegion::DataArray(_) => true,
        MemRegion::Vdp1Regs(_) => b.vdp1 is None,
        MemRegion::Vdp2Regs(off) => off % VDP2_REGS_SIZE != 4 && off % VDP2_REGS_SIZE != 5,
        MemRegion::BackupRam(off) => off % 2 == 1,
        MemRegion::SoundRam(off) => sound_present(b.ram, off as int),
        MemRegion::Cs2Regs(off) => off < CS2_REGS_SIZE && off != 6 && off != 7,
        MemRegion::Smpc(off) => b.smpc is None && off != reg::SF && off != reg::COMREG,
        _ => false,
    }
}

/// Reads only look at memories and devices, but for the on-chip registers.
pub(crate) proof fn reads_look_at_devices(a: BusView, b: BusView, g: MemRegion)
    requires
        same_devices(a, b),
        !(g is OnChip),
    ensures
        read8(a, g) == read8(b, g),
        read16(a, g) == read16(b, g),
        read32(a, g) == read32(b, g),
{
    match g {
        MemRegion::Vdp2Regs(off) => {
            assert(forall|o: usize|
                read8(a, MemRegion::Vdp2Regs(o)) == #[trigger] read8(b, MemRegion::Vdp2Regs(o)));
        },
        MemRegion::Smpc(off) => {
            assert(forall|o: usize|
                read8(a, MemRegion::Smpc(o)) == #[trigger] read8(b, MemRegion::Smpc(o)));
        },
        _ => {},
    }
}

/// No offset lies outside its window.
pub(crate) proof fn regions_are_ok(address: u32)
    ensures
        region_ok(region_of(address)),
        region_ok(store_region(address)),
{
}

proof fn memory_byte_back(b: BusView, g: MemRegion, val: u8)
    requires
        memories_wf(b),
        region_ok(g),
        keeps8(b, g),
        !(g is DataArray),
    ensures
        mem_read8(mem_write8(b.ram, g, val), g) == val,
{
}

pub(crate) proof fn device_byte_back(b: BusView, g: MemRegion, val: u8)
    requires
        memories_wf(b),
        region_ok(g),
        keeps8(b, g),
    ensures
        read8(device_store8(b, g, val), g) == val,
{
    reveal(device_store8);
    match g {
        MemRegion::DataArray(off) => {
            byte_store_then_load(b.data_array, off as int, DATA_ARRAY_SIZE as int, val);
        },
        MemRegion::Smpc(off) => {
            reveal(smpc_written);
        },
        _ => {
            memory_byte_back(b, g, val);
        },
    }
}

/// A byte read gives back the byte that was stored at the same address.
pub proof fn byte_stored_is_read_back(b: BusView, address: u32, val: u8)
    requires
        memories_wf(b),
        keeps8(b, region_of(address)),
    ensures
        load8(store8(b, address, val), address).1 == val,
{
    reveal(load8);
    reveal(store8);
    let g = region_of(address);
    regions_are_ok(address);
    let b1 = write_started(b, address, 1);
    starting_a_store_keeps_devices(b, address, 1);
    device_byte_back(b1, g, val);
    let b2 = store8(b, address, val);
    assert(b2 == device_store8(b1, g, val));
    starting_a_read_keeps_devices(b2, address, 1);
    reads_look_at_devices(read_started(b2, address, 1), b2, g);
}

/// Whether a word stored in a region can be read back there. Besides what
/// `keeps8` leaves out, the cache's data array takes no words, backup RAM has
/// only every other byte, and TVMD does not take a vertical resolution of 3.
pub open spec fn keeps16(b: BusView, g: MemRegion, val: u16) -> bool {
    match g {
        MemRegion::DataArray(_) => false,
        MemRegion::BackupRam(_) => false,
        MemRegion::Smpc(_) => false,
        MemRegion::Vdp2Regs(off) => {
            let o = off % VDP2_REGS_SIZE;
            !(3 <= o <= 5) && !(o == 0 && val / 16 % 4 == 3)
        },
        MemRegion::Cs2Regs(off) => off < CS2_REGS_SIZE && !(5 <= off <= 7),
        _ => keeps8(b, g),
    }
}

/// Two bytes stored one after the other.
proof fn two_bytes_back(s: Seq<u8>, off: int, size: int, val: u16)
    requires
        0 <= off,
        2 <= size <= s.len(),
    ensures
        rd16(
            wr8(wr8(s, off, size, byte16(val, 0)), off + 1, size, byte16(val, 1)),
            off,
            size,
        ) == val,
{
    word_store_then_load(s, off, size, val);
}

#[verifier::spinoff_prover]
proof fn memory_word_back(b: BusView, g: MemRegion, val: u16)
    requires
        memories_wf(b),
        region_ok(g),
        keeps16(b, g, val),
        !(g is Vdp2Cram),
        !(g is Vdp2Regs),
    ensures
        mem_read16(mem_write16(b.ram, g, val), g) == val,
{
    let m = b.ram;
    match g {
        MemRegion::LowRam(off) => {
            word_store_then_load(m.low_ram, off as int, LOW_RAM_SIZE as int, val);
        },
        MemRegion::HighRam(off) => {
            word_store_then_load(m.high_ram, off as int, HIGH_RAM_SIZE as int, val);
        },
        MemRegion::Vdp1Vram(off) => {
            word_store_then_load(m.vdp1_vram, off as int, VDP1_VRAM_SIZE as int, val);
        },
        MemRegion::Vdp1Framebuffer(off) => {
            word_store_then_load(m.vdp1_framebuffer, off as int, VDP1_FB_WINDOW as int, val);
        },
        MemRegion::Vdp1Regs(off) => {
            word_store_then_load(m.vdp1_regs, off as int, VDP1_REGS_SIZE as int, val);
        },
        MemRegion::Vdp2Vram(off) => {
            word_store_then_load(m.vdp2_vram, off as int, VDP2_VRAM_SIZE as int, val);
        },
        MemRegion::ScspRegs(off) => {
            two_bytes_back(m.scsp_regs, off as int, SCSP_REGS_SIZE as int, val);
        },
        MemRegion::ScuRegs(off) => {
            word_store_then_load(m.scu_regs, off as int, SCU_REGS_SIZE as int, val);
        },
        MemRegion::SoundRam(off) => {
            word_store_then_load(
                m.sound_ram,
                sound_offset(m, off as int),
                SOUND_RAM_SIZE as int,
                val,
            );
        },
        MemRegion::Cs2Regs(off) => {
            word_store_then_load(m.cs2_regs, off as int, CS2_REGS_SIZE as int, val);
        },
        _ => {},
    }
}

/// A word in colour RAM, with the mirror in the other half.
#[verifier::spinoff_prover]
proof fn cram_word_back(m: Memory, off: usize, val: u16)
    requires
        m.wf(),
        off < 0x8_0000,
    ensures
        mem_read16(
            mem_write16(m, MemRegion::Vdp2Cram(off), val),
            MemRegion::Vdp2Cram(off),
        ) == val,
{
    word_bytes_round_trip(val);
}

/// A word in the registers of VDP2, read byte by byte.
#[verifier::spinoff_prover]
proof fn vdp2_word_back(b: BusView, off: usize, val: u16)
    requires
        memories_wf(b),
        off < 0x4_0000,
        keeps16(b, MemRegion::Vdp2Regs(off), val),
    ensures
        read16(
            device_store16(b, MemRegion::Vdp2Regs(off), val),
            MemRegion::Vdp2Regs(off),
        ) == val,
{
    reveal(device_store16);
    word_store_then_load(b.ram.vdp2_regs, off as int, VDP2_REGS_SIZE as int, val);
}

#[verifier::spinoff_prover]
proof fn device_word_back(b: BusView, g: MemRegion, val: u16)
    requires
        memories_wf(b),
        region_ok(g),
        keeps16(b, g, val),
    ensures
        read16(device_store16(b, g, val), g) == val,
{
    match g {
        MemRegion::Vdp2Regs(off) => {
            vdp2_word_back(b, off, val);
        },
        MemRegion::Vdp2Cram(off) => {
            reveal(device_store16);
            cram_word_back(b.ram, off, val);
        },
        _ => {
            reveal(device_store16);
            memory_word_back(b, g, val);
        },
    }
}

/// A word read gives back the word that was stored at the same address.
pub proof fn word_stored_is_read_back(b: BusView, address: u32, val: u16)
    requires
        memories_wf(b),
        keeps16(b, region_of(address), val),
    ensures
        load16(store16(b, address, val), address).1 == val,
{
    reveal(load16);
    reveal(store16);
    let g = region_of(address);
    regions_are_ok(address);
    let b1 = write_started(b, address, 2);
    starting_a_store_keeps_devices(b, address, 2);
    device_word_back(b1, g, val);
    let b2 = store16(b, address, val);
    assert(b2 == device_store16(b1, g, val));
    starting_a_read_keeps_devices(b2, address, 2);
    reads_look_at_devices(read_started(b2, address, 2), b2, g);
}

/// Whether a long word stored in a region can be read back there. Besides what
/// `keeps8` leaves out, the SCU's DSP ports and the bits that start a transfer do
/// more than to be kept. The cache's address array takes long words.
pub open spec fn keeps32(b: BusView, g: MemRegion, val: u32) -> bool {
    match g {
        MemRegion::BackupRam(_) => false,
        MemRegion::Smpc(_) => false,
        MemRegion::AddressArray(_) => true,
        MemRegion::Vdp2Regs(off) => {
            let o = off % VDP2_REGS_SIZE;
            !(1 <= o <= 5)
        },
        MemRegion::Cs2Regs(off) => off < CS2_REGS_SIZE && !(3 <= off <= 7),
        MemRegion::ScuRegs(off) => {
            let o = off as int % 0x100;
            &&& o + 3 < 0x100
            &&& scu_channel_started(off as int, val) is None
            &&& b.scu_dsp is Some ==> !is_dsp_port(o)
        },
        _ => keeps8(b, g),
    }
}

/// Four bytes stored one after the other.
proof fn four_bytes_back(s: Seq<u8>, off: int, size: int, val: u32)
    requires
        0 <= off,
        4 <= size <= s.len(),
    ensures
        rd32(
            wr8(
                wr8(
                    wr8(wr8(s, off, size, byte32(val, 0)), off + 1, size, byte32(val, 1)),
                    off + 2,
                    size,
                    byte32(val, 2),
                ),
                off + 3,
                size,
                byte32(val, 3),
            ),
            off,
            size,
        ) == val,
{
    long_store_then_load(s, off, size, val);
}

#[verifier::spinoff_prover]
proof fn memory_long_back(b: BusView, g: MemRegion, val: u32)
    requires
        memories_wf(b),
        region_ok(g),
        keeps32(b, g, val),
        !(g is Vdp2Cram),
        !(g is Vdp2Regs),
        !(g is ScspRegs),
        !(g is DataArray),
        !(g is AddressArray),
    ensures
        mem_read32(mem_write32(b.ram, g, val), g) == val,
{
    let m = b.ram;
    match g {
        MemRegion::LowRam(off) => {
            long_store_then_load(m.low_ram, off as int, LOW_RAM_SIZE as int, val);
        },
        MemRegion::HighRam(off) => {
            long_store_then_load(m.high_ram, off as int, HIGH_RAM_SIZE as int, val);
        },
        MemRegion::Vdp1Vram(off) => {
            long_store_then_load(m.vdp1_vram, off as int, VDP1_VRAM_SIZE as int, val);
        },
        MemRegion::Vdp1Framebuffer(off) => {
            long_store_then_load(m.vdp1_framebuffer, off as int, VDP1_FB_WINDOW as int, val);
        },
        MemRegion::Vdp1Regs(off) => {
            long_store_then_load(m.vdp1_regs, off as int, VDP1_REGS_SIZE as int, val);
        },
        MemRegion::Vdp2Vram(off) => {
            long_store_then_load(m.vdp2_vram, off as int, VDP2_VRAM_SIZE as int, val);
        },
        MemRegion::ScuRegs(off) => {
            long_store_then_load(m.scu_regs, off as int, SCU_REGS_SIZE as int, val);
        },
        MemRegion::SoundRam(off) => {
            long_store_then_load(
                m.sound_ram,
                sound_offset(m, off as int),
                SOUND_RAM_SIZE as int,
                val,
            );
        },
        MemRegion::Cs2Regs(off) => {
            long_store_then_load(m.cs2_regs, off as int, CS2_REGS_SIZE as int, val);
        },
        _ => {},
    }
}

/// A long word in the registers of the SCSP, stored byte by byte.
proof fn scsp_long_back(m: Memory, off: usize, val: u32)
    requires
        m.wf(),
        off < 0x10_0000,
    ensures
        mem_read32(
            mem_write32(m, MemRegion::ScspRegs(off), val),
            MemRegion::ScspRegs(off),
        ) == val,
{
    four_bytes_back(m.scsp_regs, off as int, SCSP_REGS_SIZE as int, val);
}

/// A long word in colour RAM, with the mirror in the other half.
#[verifier::spinoff_prover]
proof fn cram_long_back(m: Memory, off: usize, val: u32)
    requires
        m.wf(),
        off < 0x8_0000,
    ensures
        mem_read32(
            mem_write32(m, MemRegion::Vdp2Cram(off), val),
            MemRegion::Vdp2Cram(off),
        ) == val,
{
    long_bytes_round_trip(val);
}

/// A long word in the registers of VDP2, read byte by byte.
#[verifier::spinoff_prover]
proof fn vdp2_long_back(b: BusView, off: usize, val: u32)
    requires
        memories_wf(b),
        off < 0x4_0000,
        keeps32(b, MemRegion::Vdp2Regs(off), val),
    ensures
        read32(
            device_store32(b, MemRegion::Vdp2Regs(off), val),
            MemRegion::Vdp2Regs(off),
        ) == val,
{
    let s = wr32(b.ram.vdp2_regs, off as int, VDP2_REGS_SIZE as int, val);
    let b1 = device_store32(b, MemRegion::Vdp2Regs(off), val);
    assert(b1.ram.vdp2_regs == s) by {
        reveal(device_store32);
    }
    long_store_then_load(b.ram.vdp2_regs, off as int, VDP2_REGS_SIZE as int, val);
    assert forall|i: int| 0 <= i < 4 implies #[trigger] read8(
        b1,
        MemRegion::Vdp2Regs((off + i) as usize),
    ) == rd8(s, off + i, VDP2_REGS_SIZE as int) by {}
    assert(read8(b1, MemRegion::Vdp2Regs((off + 0) as usize)) == rd8(
        s,
        off as int,
        VDP2_REGS_SIZE as int,
    ));
    assert(rd32(s, off as int, VDP2_REGS_SIZE as int) == val);
}

#[verifier::spinoff_prover]
proof fn device_long_back(b: BusView, g: MemRegion, val: u32)
    requires
        memories_wf(b),
        region_ok(g),
        keeps32(b, g, val),
    ensures
        read32(device_store32(b, g, val), g) == val,
{
    match g {
        MemRegion::Vdp2Regs(off) => {
            vdp2_long_back(b, off, val);
        },
        MemRegion::Vdp2Cram(off) => {
            reveal(device_store32);
            cram_long_back(b.ram, off, val);
        },
        MemRegion::ScspRegs(off) => {
            reveal(device_store32);
            scsp_long_back(b.ram, off, val);
        },
        MemRegion::DataArray(off) => {
            reveal(device_store32);
            long_store_then_load(b.data_array, off as int, DATA_ARRAY_SIZE as int, val);
        },
        MemRegion::AddressArray(off) => {
            reveal(device_store32);
        },
        _ => {
            reveal(device_store32);
            memory_long_back(b, g, val);
        },
    }
}

/// A long word read gives back the long word that was stored at the same address.
pub proof fn long_stored_is_read_back(b: BusView, address: u32, val: u32)
    requires
        memories_wf(b),
        keeps32(b, region_of(address), val),
    ensures
        load32(store32(b, address, val), address).1 == val,
{
    reveal(load32);
    reveal(store32);
    let g = region_of(address);
    regions_are_ok(address);
    let b1 = write_started(b, address, 4);
    starting_a_store_keeps_devices(b, address, 4);
    device_long_back(b1, g, val);
    let b2 = store32(b, address, val);
    assert(b2 == device_store32(b1, g, val));
    starting_a_read_keeps_devices(b2, address, 4);
    reads_look_at_devices(read_started(b2, address, 4), b2, g);
}

/// The BIOS is read-only, and nothing answers outside the map: a store there
/// changes neither memory nor device.
pub proof fn rom_and_holes_take_no_store(b: BusView, address: u32, v8: u8, v16: u16, v32: u32)
    requires
        region_of(address) is Bios || region_of(address) is Unmapped,
    ensures
        same_devices(store8(b, address, v8), b),
        same_devices(store16(b, address, v16), b),
        same_devices(store32(b, address, v32), b),
{
    reveal(store8);
    reveal(store16);
    reveal(store32);
    reveal(device_store8);
    reveal(device_store16);
    reveal(device_store32);
    starting_a_store_keeps_devices(b, address, 1);
    starting_a_store_keeps_devices(b, address, 2);
    starting_a_store_keeps_devices(b, address, 4);
}

/// A long word store to the cache purge area reaches nothing.
pub proof fn purging_stores_nothing(b: BusView, address: u32, val: u32)
    requires
        region_of(address) is PurgeArea,
    ensures
        same_devices(store32(b, address, val), b),
{
    reveal(store32);
    reveal(device_store32);
    starting_a_store_keeps_devices(b, address, 4);
}

/// A byte or word store through the cache purge area goes to the bus address below
/// it, where it can be read back.
pub proof fn narrow_stores_pass_the_purge_area(b: BusView, address: u32, v8: u8, v16: u16)
    requires
        memories_wf(b),
        region_of(address) is PurgeArea,
    ensures
        keeps8(b, region_of((address % 0x1000_0000) as u32)) ==> load8(
            store8(b, address, v8),
            (address % 0x1000_0000) as u32,
        ).1 == v8,
        keeps16(b, region_of((address % 0x1000_0000) as u32), v16) ==> load16(
            store16(b, address, v16),
            (address % 0x1000_0000) as u32,
        ).1 == v16,
{
    let low = (address % 0x1000_0000) as u32;
    let g = region_of(low);
    assert(store_region(address) == g);
    regions_are_ok(low);
    if keeps8(b, g) {
        reveal(load8);
        reveal(store8);
        let b1 = write_started(b, address, 1);
        starting_a_store_keeps_devices(b, address, 1);
        device_byte_back(b1, g, v8);
        let b2 = store8(b, address, v8);
        assert(b2 == device_store8(b1, g, v8));
        starting_a_read_keeps_devices(b2, low, 1);
        reads_look_at_devices(read_started(b2, low, 1), b2, g);
    }
    if keeps16(b, g, v16) {
        reveal(load16);
        reveal(store16);
        let b1 = write_started(b, address, 2);
        starting_a_store_keeps_devices(b, address, 2);
        device_word_back(b1, g, v16);
        let b2 = store16(b, address, v16);
        assert(b2 == device_store16(b1, g, v16));
        starting_a_read_keeps_devices(b2, low, 2);
        reads_look_at_devices(read_started(b2, low, 2), b2, g);
    }
}

/// Reading changes neither memory nor device, but for the SMPC's data bus.
pub proof fn loads_keep_devices(b: BusView, address: u32)
    requires
        !(region_of(address) is Smpc),
    ensures
        same_devices(load8(b, address).0, b),
        same_devices(load16(b, address).0, b),
        same_devices(load32(b, address).0, b),
{
    reveal(load8);
    reveal(load16);
    reveal(load32);
    starting_a_read_keeps_devices(b, address, 1);
    starting_a_read_keeps_devices(b, address, 2);
    starting_a_read_keeps_devices(b, address, 4);
}

/// The byte of Work RAM or video memory that an address stands for: which memory,
/// and where in it.
pub open spec fn cell(g: MemRegion) -> Option<(int, int)> {
    match g {
        MemRegion::LowRam(off) => Some((0, off as int % (LOW_RAM_SIZE as int))),
        MemRegion::HighRam(off) => Some((1, off as int % (HIGH_RAM_SIZE as int))),
        MemRegion::Vdp1Vram(off) => Some((2, off as int % (VDP1_VRAM_SIZE as int))),
        MemRegion::Vdp1Framebuffer(off) => Some((3, off as int % (VDP1_FB_WINDOW as int))),
        MemRegion::Vdp2Vram(off) => Some((4, off as int % (VDP2_VRAM_SIZE as int))),
        _ => None,
    }
}

/// Two addresses of one byte read the same, and a store to one of them leaves the
/// bytes of all others as they were.
pub proof fn bytes_are_separate(b: BusView, stored: u32, read: u32, val: u8)
    requires
        memories_wf(b),
        cell(region_of(stored)) is Some,
        cell(region_of(read)) is Some,
    ensures
        cell(region_of(stored)) == cell(region_of(read)) ==> load8(
            store8(b, stored, val),
            read,
        ).1 == val,
        cell(region_of(stored)) != cell(region_of(read)) ==> load8(
            store8(b, stored, val),
            read,
        ).1 == load8(b, read).1,
{
    reveal(load8);
    reveal(store8);
    reveal(device_store8);
    let g = region_of(stored);
    let h = region_of(read);
    regions_are_ok(stored);
    regions_are_ok(read);
    starting_a_store_keeps_devices(b, stored, 1);
    let b1 = write_started(b, stored, 1);
    let b2 = store8(b, stored, val);
    assert(b2 == device_store8(b1, g, val));
    starting_a_read_keeps_devices(b2, read, 1);
    starting_a_read_keeps_devices(b, read, 1);
    reads_look_at_devices(read_started(b2, read, 1), b2, h);
    reads_look_at_devices(read_started(b, read, 1), b, h);
    assert(read8(b2, h) == mem_read8(mem_write8(b.ram, g, val), h));
    assert(read8(b, h) == mem_read8(b.ram, h));
}

/// Every window repeats at its size: High Work RAM after 1 MB, the registers of VDP1
/// and of the SCU after 256 bytes, those of VDP2 after 512, and sound RAM after 256 KB
/// unless it answers with its full size.
pub proof fn windows_repeat(b: BusView, off: usize)
    requires
        memories_wf(b),
        b.vdp1 is None,
    ensures
        off + HIGH_RAM_SIZE < 0x200_0000 ==> read8(b, MemRegion::HighRam(off)) == read8(
            b,
            MemRegion::HighRam((off + HIGH_RAM_SIZE) as usize),
        ),
        off + VDP1_REGS_SIZE < 0x8_0000 ==> read8(b, MemRegion::Vdp1Regs(off)) == read8(
            b,
            MemRegion::Vdp1Regs((off + VDP1_REGS_SIZE) as usize),
        ),
        off + VDP2_REGS_SIZE < 0x4_0000 ==> read8(b, MemRegion::Vdp2Regs(off)) == read8(
            b,
            MemRegion::Vdp2Regs((off + VDP2_REGS_SIZE) as usize),
        ),
        off + SCU_REGS_SIZE < 0x1_0000 ==> read8(b, MemRegion::ScuRegs(off)) == read8(
            b,
            MemRegion::ScuRegs((off + SCU_REGS_SIZE) as usize),
        ),
        !b.ram.mem4b && off + SOUND_RAM_SMALL < 0x10_0000 ==> read8(b, MemRegion::SoundRam(off))
            == read8(b, MemRegion::SoundRam((off + SOUND_RAM_SMALL) as usize)),
{
}

/// A read costs its wait states, and a store costs its own.
pub proof fn accesses_take_their_time(b: BusView, address: u32, width: int)
    requires
        b.bus_grant is None,
    ensures
        read_started(b, address, width).cycles == b.cycles.wrapping_add(read_wait(address) as u64),
        write_started(b, address, width).cycles == b.cycles.wrapping_add(
            write_wait(address) as u64,
        ),
{
    let r = access_begun(b, address, false, width);
    timer_keeps_devices(
        BusView { cycles: r.cycles.wrapping_add(read_wait(address) as u64), ..r },
        read_wait(address) as int,
    );
    let w = access_begun(b, address, true, width);
    timer_keeps_devices(
        BusView { cycles: w.cycles.wrapping_add(write_wait(address) as u64), ..w },
        write_wait(address) as int,
    );
}

/// Whether the two halves of colour RAM hold the same.
pub open spec fn halves_agree(m: Memory) -> bool {
    forall|i: int|
        0 <= i < CRAM_HALF ==> #[trigger] m.vdp2_cram[i] == m.vdp2_cram[i + CRAM_HALF]
}

/// With 1024 colours, stores keep the two halves of colour RAM the same.
pub proof fn cram_halves_stay_equal(m: Memory, off: usize, v8: u8, v16: u16, v32: u32)
    requires
        m.wf(),
        off < 0x8_0000,
        cram_mirrors(m),
        halves_agree(m),
    ensures
        halves_agree(mem_write8(m, MemRegion::Vdp2Cram(off), v8)),
        halves_agree(mem_write16(m, MemRegion::Vdp2Cram(off), v16)),
        halves_agree(mem_write32(m, MemRegion::Vdp2Cram(off), v32)),
{
    cram_byte_keeps_halves(m, off, v8);
    cram_byte_keeps_halves(m, off, byte16(v16, 0));
    let m1 = mem_write8(m, MemRegion::Vdp2Cram(off), byte16(v16, 0));
    cram_byte_keeps_halves(m1, (off + 1) as usize, byte16(v16, 1));
    cram_byte_keeps_halves(m, off, byte32(v32, 0));
    let n1 = mem_write8(m, MemRegion::Vdp2Cram(off), byte32(v32, 0));
    cram_byte_keeps_halves(n1, (off + 1) as usize, byte32(v32, 1));
    let n2 = mem_write8(n1, MemRegion::Vdp2Cram((off + 1) as usize), byte32(v32, 1));
    cram_byte_keeps_halves(n2, (off + 2) as usize, byte32(v32, 2));
    let n3 = mem_write8(n2, MemRegion::Vdp2Cram((off + 2) as usize), byte32(v32, 2));
    cram_byte_keeps_halves(n3, (off + 3) as usize, byte32(v32, 3));
}

proof fn cram_byte_keeps_halves(m: Memory, off: usize, val: u8)
    requires
        m.wf(),
        off < 0x8_0003,
        cram_mirrors(m),
        halves_agree(m),
    ensures
        halves_agree(mem_write8(m, MemRegion::Vdp2Cram(off), val)),
        cram_mirrors(mem_write8(m, MemRegion::Vdp2Cram(off), val)),
        mem_write8(m, MemRegion::Vdp2Cram(off), val).wf(),
{
}

/// Whether the two long words below the stack pointer are neighbours in Work RAM.
pub open spec fn stack_in_ram(sp: u32) -> bool {
    match (region_of(sp.wrapping_sub(8)), region_of(sp.wrapping_sub(4))) {
        (MemRegion::HighRam(p), MemRegion::HighRam(q)) => q == p + 4,
        (MemRegion::LowRam(p), MemRegion::LowRam(q)) => q == p + 4,
        _ => false,
    }
}

/// Reading leaves all memories as they are.
pub proof fn loads_keep_ram(b: BusView, address: u32)
    ensures
        load8(b, address).0.ram == b.ram,
        load16(b, address).0.ram == b.ram,
        load32(b, address).0.ram == b.ram,
{
    reveal(load8);
    reveal(load16);
    reveal(load32);
    starting_a_read_keeps_devices(b, address, 1);
    starting_a_read_keeps_devices(b, address, 2);
    starting_a_read_keeps_devices(b, address, 4);
}

/// A long word pushed below another one: both can be read.
proof fn two_pushes(b: BusView, sp: u32, first: u32, second: u32)
    requires
        memories_wf(b),
        stack_in_ram(sp),
    ensures
        ({
            let b2 = store32(
                store32(b, sp.wrapping_sub(4), first),
                sp.wrapping_sub(8),
                second,
            );
            &&& mem_read32(b2.ram, region_of(sp.wrapping_sub(8))) == second
            &&& mem_read32(b2.ram, region_of(sp.wrapping_sub(4))) == first
        }),
{
    reveal(store32);
    reveal(device_store32);
    let hi = sp.wrapping_sub(4);
    let lo = sp.wrapping_sub(8);
    regions_are_ok(hi);
    regions_are_ok(lo);
    starting_a_store_keeps_devices(b, hi, 4);
    let b1 = store32(b, hi, first);
    starting_a_store_keeps_devices(b1, lo, 4);
    match (region_of(lo), region_of(hi)) {
        (MemRegion::HighRam(p), MemRegion::HighRam(q)) => {
            let s0 = b.ram.high_ram;
            let s1 = wr32(s0, q as int, HIGH_RAM_SIZE as int, first);
            long_store_then_load(s0, q as int, HIGH_RAM_SIZE as int, first);
            long_store_then_load(s1, p as int, HIGH_RAM_SIZE as int, second);
            long_store_keeps_the_next(s1, p as int, HIGH_RAM_SIZE as int, second);
        },
        (MemRegion::LowRam(p), MemRegion::LowRam(q)) => {
            let s0 = b.ram.low_ram;
            let s1 = wr32(s0, q as int, LOW_RAM_SIZE as int, first);
            long_store_then_load(s0, q as int, LOW_RAM_SIZE as int, first);
            long_store_then_load(s1, p as int, LOW_RAM_SIZE as int, second);
            long_store_keeps_the_next(s1, p as int, LOW_RAM_SIZE as int, second);
        },
        _ => {},
    }
}

/// RTE undoes the entry into an exception: it goes back to the instruction that was
/// interrupted, with the stack pointer and all other registers as they were, and the
/// status register up to the bits that it cannot hold.
pub proof fn return_undoes_exception_entry(m: Machine, vector: int, sr: u32)
    requires
        m.wf(),
        stack_in_ram(m.r[15]),
        0 <= vector < 256,
    ensures
        branch_of(entered(m, vector, sr), 0x002B) matches Some((back, target)) && {
            &&& target == m.pc
            &&& back.r == m.r
            &&& back.sr == m.sr & SR_WRITE_MASK
            &&& back.pr == m.pr
            &&& back.gbr == m.gbr
            &&& back.vbr == m.vbr
            &&& back.mach == m.mach
            &&& back.macl == m.macl
        },
{
    reveal(entered);
    reveal(branch_of);
    let sp = m.r[15];
    let hi = sp.wrapping_sub(4);
    let lo = hi.wrapping_sub(4);
    assert(lo == sp.wrapping_sub(8));
    two_pushes(m.bus, sp, m.sr, m.pc);
    let b = store32(store32(m.bus, hi, m.sr), lo, m.pc);
    let table = m.vbr.wrapping_add((vector * 4) as u32);
    let e = entered(m, vector, sr);
    loads_keep_ram(b, table);
    loads_keep_ram(e.bus, lo);
    let b1 = load32(e.bus, lo).0;
    assert(load32(e.bus, lo).1 == m.pc) by {
        reveal(load32);
        starting_a_read_keeps_devices(e.bus, lo, 4);
    }
    assert(load32(b1, hi).1 == m.sr) by {
        reveal(load32);
        starting_a_read_keeps_devices(b1, hi, 4);
    }
    assert(lo.wrapping_add(4) == hi);
    assert(lo.wrapping_add(8) == sp);
    assert(m.r.update(15, lo).update(15, sp) =~= m.r);
}

/// A masked interrupt stays pending: the program goes on, and the queue keeps it.
pub proof fn masked_interrupt_stays_pending(m: Machine)
    requires
        match queue_top(sound_line_polled(m.bus.irq).queue()) {
            Some(top) => !accepted(top.level, m.sr),
            None => true,
        },
    ensures
        serviced(m).pc == m.pc,
        serviced(m).sr == m.sr,
        serviced(m).r == m.r,
        same_devices(serviced(m).bus, m.bus),
        serviced(m).bus.irq.queue() == sound_line_polled(m.bus.irq).queue(),
{
    reveal(serviced);
}

/// The mask field of a status register after an interrupt was accepted.
proof fn mask_field(sr: u32, level: u32, field: u32)
    requires
        level <= 15,
        field == level * 16,
    ensures
        ((sr & !0xF0u32) | field) / 16 % 16 == level,
        ((sr & !0xF0u32) | field) & !0xF0u32 == sr & !0xF0u32,
{
    assert(((sr & !0xF0u32) | field) / 16 % 16 == level) by (bit_vector)
        requires
            level <= 15,
            field == level * 16,
    ;
    assert(((sr & !0xF0u32) | field) & !0xF0u32 == sr & !0xF0u32) by (bit_vector)
        requires
            level <= 15,
            field == level * 16,
    ;
}

/// Serving an interrupt raises the mask to its level and keeps all other bits of the
/// status register, so that it is not interrupted by its own level or a lower one. Only
/// the non-maskable interrupt is accepted under every mask.
pub proof fn served_interrupt_masks_its_level(sr: u32, level: u8, other: u8)
    requires
        level <= NMI_LEVEL,
        other < NMI_LEVEL,
    ensures
        masked_sr(sr, level) / 16 % 16 == if level == NMI_LEVEL {
            15
        } else {
            level as int
        },
        masked_sr(sr, level) & !0xF0u32 == sr & !0xF0u32,
        other <= level ==> !accepted(other, masked_sr(sr, level)),
        level < NMI_LEVEL && other > level ==> accepted(other, masked_sr(sr, level)),
        accepted(NMI_LEVEL, masked_sr(sr, level)),
{
    let l: u32 = if level == NMI_LEVEL {
        15
    } else {
        level as u32
    };
    mask_field(sr, l, (l * 16) as u32);
}

/// Among the pending interrupts the one of the highest level is served: no other pending
/// interrupt has a higher level than the one whose vector is taken.
pub proof fn highest_level_is_served_first(m: Machine)
    requires
        m.wf(),
        queue_top(sound_line_polled(m.bus.irq).queue()) matches Some(top) && accepted(
            top.level,
            m.sr,
        ),
    ensures
        queue_top(sound_line_polled(m.bus.irq).queue()) matches Some(top) && {
            &&& serviced(m).sr == masked_sr(m.sr, top.level)
            &&& serviced(m).r == m.r.update(15, m.r[15].wrapping_sub(8))
            &&& forall|i: int|
                0 <= i < sound_line_polled(m.bus.irq).queue().len() ==> (
                #[trigger] sound_line_polled(m.bus.irq).queue()[i]).level <= top.level
        },
{
    reveal(serviced);
    reveal(entered);
    reveal(sound_line_polled);
    send_keeps_order(m.bus.irq.queue(), SOUND_REQ_IRQ_VECTOR, SOUND_REQ_IRQ_LEVEL);
    remove_keeps_order(m.bus.irq.queue(), SOUND_REQ_IRQ_VECTOR);
    top_has_highest_level(sound_line_polled(m.bus.irq).queue());
}

/// After a reset every interrupt is masked but the non-maskable one.
pub proof fn reset_masks_interrupts(m: Machine, level: u8)
    requires
        level <= NMI_LEVEL,
    ensures
        accepted(level, was_reset(m).sr) <==> level == NMI_LEVEL,
{
    reveal(was_reset);
}

} // verus!
