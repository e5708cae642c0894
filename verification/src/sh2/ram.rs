//! The shared memories as the SH-2's bus sees them.

use crate::bytes::{
    byte16, byte32, get16, get32, get8, put16, put32, put8, rd16, rd32, rd8, wr16, wr32, wr8,
};
use crate::sh2::region::{region_ok, MemRegion};
use crate::shared_buffers::{
    Memory, WorkRam, BACKUP_RAM_SIZE, CS2_REGS_SIZE, HIGH_RAM_SIZE, LOW_RAM_SIZE,
    SCSP_MEM4B_OFFSET, SCSP_REGS_SIZE, SCU_REGS_SIZE, SMPC_REGS_SIZE, SOUND_RAM_SIZE,
    SOUND_RAM_SMALL, VDP1_FB_WINDOW, VDP1_REGS_SIZE, VDP1_VRAM_SIZE, VDP2_CRAM_SIZE,
    VDP2_REGS_SIZE, VDP2_VRAM_SIZE,
};
use vstd::prelude::*;

verus! {

/// Half of colour RAM: with 1024 colours the two halves hold the same.
pub const CRAM_HALF: usize = 0x800;

/// Where sound RAM is accessed: in 2 Mbit mode it repeats every 256 KB.
pub open spec fn sound_offset(m: Memory, off: int) -> int {
    if m.mem4b {
        off % 0x10_0000
    } else {
        off % (SOUND_RAM_SMALL as int)
    }
}

/// Whether there is sound RAM at an offset.
pub open spec fn sound_present(m: Memory, off: int) -> bool {
    sound_offset(m, off) < SOUND_RAM_SIZE
}

/// Whether colour RAM holds 1024 colours, twice.
pub open spec fn cram_mirrors(m: Memory) -> bool {
    m.vdp2_regs[0x0E] / 16 % 4 == 0
}

/// The word a VDP2 register takes. A vertical resolution of 3 does not exist, so
/// TVMD keeps the one it has.
pub open spec fn vdp2_reg_word(m: Memory, off: int, val: u16) -> u16 {
    if off % (VDP2_REGS_SIZE as int) == 0 && val / 16 % 4 == 3 {
        (val - 0x30 + m.vdp2_regs[1] / 16 % 4 * 16) as u16
    } else {
        val
    }
}

/// What a 8-bit read of the memory behind a region gives. Regions without memory
/// give 0.
pub open spec fn mem_read8(m: Memory, g: MemRegion) -> u8 {
    match g {
        MemRegion::LowRam(off) => rd8(m.low_ram, off as int, LOW_RAM_SIZE as int),
        MemRegion::HighRam(off) => rd8(m.high_ram, off as int, HIGH_RAM_SIZE as int),
        MemRegion::Vdp1Vram(off) => rd8(m.vdp1_vram, off as int, VDP1_VRAM_SIZE as int),
        MemRegion::Vdp1Framebuffer(off) => rd8(m.vdp1_framebuffer, off as int, VDP1_FB_WINDOW as int),
        MemRegion::Vdp1Regs(off) => rd8(m.vdp1_regs, off as int, VDP1_REGS_SIZE as int),
        MemRegion::Vdp2Vram(off) => rd8(m.vdp2_vram, off as int, VDP2_VRAM_SIZE as int),
        MemRegion::Smpc(off) => rd8(m.smpc_regs, off as int, SMPC_REGS_SIZE as int),
        MemRegion::ScspRegs(off) => rd8(m.scsp_regs, off as int, SCSP_REGS_SIZE as int),
        MemRegion::Vdp2Cram(off) => rd8(m.vdp2_cram, off as int, VDP2_CRAM_SIZE as int),
        MemRegion::Vdp2Regs(off) => rd8(m.vdp2_regs, off as int, VDP2_REGS_SIZE as int),
        MemRegion::ScuRegs(off) => rd8(m.scu_regs, off as int, SCU_REGS_SIZE as int),
        MemRegion::BackupRam(off) => rd8(m.backup_ram, off as int, BACKUP_RAM_SIZE as int),
        MemRegion::SoundRam(off) => if sound_present(m, off as int) {
            rd8(m.sound_ram, sound_offset(m, off as int), SOUND_RAM_SIZE as int)
        } else {
            0xFFu8
        },
        MemRegion::Cs2Regs(off) => if off % 0x10_0000 < CS2_REGS_SIZE {
            rd8(m.cs2_regs, off as int % 0x10_0000, CS2_REGS_SIZE as int)
        } else {
            0
        },
        _ => 0,
    }
}

/// What a 16-bit read of the memory behind a region gives. Regions without memory
/// give 0.
pub open spec fn mem_read16(m: Memory, g: MemRegion) -> u16 {
    match g {
        MemRegion::LowRam(off) => rd16(m.low_ram, off as int, LOW_RAM_SIZE as int),
        MemRegion::HighRam(off) => rd16(m.high_ram, off as int, HIGH_RAM_SIZE as int),
        MemRegion::Vdp1Vram(off) => rd16(m.vdp1_vram, off as int, VDP1_VRAM_SIZE as int),
        MemRegion::Vdp1Framebuffer(off) => rd16(m.vdp1_framebuffer, off as int, VDP1_FB_WINDOW as int),
        MemRegion::Vdp1Regs(off) => rd16(m.vdp1_regs, off as int, VDP1_REGS_SIZE as int),
        MemRegion::Vdp2Vram(off) => rd16(m.vdp2_vram, off as int, VDP2_VRAM_SIZE as int),
        MemRegion::Smpc(off) => rd16(m.smpc_regs, off as int, SMPC_REGS_SIZE as int),
        MemRegion::ScspRegs(off) => rd16(m.scsp_regs, off as int, SCSP_REGS_SIZE as int),
        MemRegion::Vdp2Cram(off) => rd16(m.vdp2_cram, off as int, VDP2_CRAM_SIZE as int),
        MemRegion::Vdp2Regs(off) => rd16(m.vdp2_regs, off as int, VDP2_REGS_SIZE as int),
        MemRegion::ScuRegs(off) => rd16(m.scu_regs, off as int, SCU_REGS_SIZE as int),
        MemRegion::BackupRam(off) => rd16(m.backup_ram, off as int, BACKUP_RAM_SIZE as int),
        MemRegion::SoundRam(off) => if sound_present(m, off as int) {
            rd16(m.sound_ram, sound_offset(m, off as int), SOUND_RAM_SIZE as int)
        } else {
            0xFFFFu16
        },
        MemRegion::Cs2Regs(off) => if off % 0x10_0000 < CS2_REGS_SIZE {
            rd16(m.cs2_regs, off as int % 0x10_0000, CS2_REGS_SIZE as int)
        } else {
            0
        },
        _ => 0,
    }
}

/// What a 32-bit read of the memory behind a region gives. Regions without memory
/// give 0.
pub open spec fn mem_read32(m: Memory, g: MemRegion) -> u32 {
    match g {
        MemRegion::LowRam(off) => rd32(m.low_ram, off as int, LOW_RAM_SIZE as int),
        MemRegion::HighRam(off) => rd32(m.high_ram, off as int, HIGH_RAM_SIZE as int),
        MemRegion::Vdp1Vram(off) => rd32(m.vdp1_vram, off as int, VDP1_VRAM_SIZE as int),
        MemRegion::Vdp1Framebuffer(off) => rd32(m.vdp1_framebuffer, off as int, VDP1_FB_WINDOW as int),
        MemRegion::Vdp1Regs(off) => rd32(m.vdp1_regs, off as int, VDP1_REGS_SIZE as int),
        MemRegion::Vdp2Vram(off) => rd32(m.vdp2_vram, off as int, VDP2_VRAM_SIZE as int),
        MemRegion::Smpc(off) => rd32(m.smpc_regs, off as int, SMPC_REGS_SIZE as int),
        MemRegion::ScspRegs(off) => rd32(m.scsp_regs, off as int, SCSP_REGS_SIZE as int),
        MemRegion::Vdp2Cram(off) => rd32(m.vdp2_cram, off as int, VDP2_CRAM_SIZE as int),
        MemRegion::Vdp2Regs(off) => rd32(m.vdp2_regs, off as int, VDP2_REGS_SIZE as int),
        MemRegion::ScuRegs(off) => rd32(m.scu_regs, off as int, SCU_REGS_SIZE as int),
        MemRegion::BackupRam(off) => rd32(m.backup_ram, off as int, BACKUP_RAM_SIZE as int),
        MemRegion::SoundRam(off) => if sound_present(m, off as int) {
            rd32(m.sound_ram, sound_offset(m, off as int), SOUND_RAM_SIZE as int)
        } else {
            0xFFFF_FFFFu32
        },
        MemRegion::Cs2Regs(off) => if off % 0x10_0000 < CS2_REGS_SIZE {
            rd32(m.cs2_regs, off as int % 0x10_0000, CS2_REGS_SIZE as int)
        } else {
            0
        },
        _ => 0,
    }
}

/// The memories after a byte store to a region. Regions without memory take
/// nothing.
pub open spec fn mem_write8(m: Memory, g: MemRegion, val: u8) -> Memory {
    match g {
        MemRegion::LowRam(off) => Memory {
            low_ram: wr8(m.low_ram, off as int, LOW_RAM_SIZE as int, val),
            ..m
        },
        MemRegion::HighRam(off) => Memory {
            high_ram: wr8(m.high_ram, off as int, HIGH_RAM_SIZE as int, val),
            ..m
        },
        MemRegion::Vdp1Vram(off) => Memory {
            vdp1_vram: wr8(m.vdp1_vram, off as int, VDP1_VRAM_SIZE as int, val),
            ..m
        },
        MemRegion::Vdp1Framebuffer(off) => Memory {
            vdp1_framebuffer: wr8(m.vdp1_framebuffer, off as int, VDP1_FB_WINDOW as int, val),
            ..m
        },
        MemRegion::Vdp1Regs(off) => Memory {
            vdp1_regs: wr8(m.vdp1_regs, off as int, VDP1_REGS_SIZE as int, val),
            ..m
        },
        MemRegion::Vdp2Vram(off) => Memory {
            vdp2_vram: wr8(m.vdp2_vram, off as int, VDP2_VRAM_SIZE as int, val),
            ..m
        },
        MemRegion::Smpc(off) => Memory {
            smpc_regs: wr8(m.smpc_regs, off as int, SMPC_REGS_SIZE as int, val),
            ..m
        },
        MemRegion::ScspRegs(off) => Memory {
            scsp_regs: wr8(m.scsp_regs, off as int, SCSP_REGS_SIZE as int, val),
            mem4b: if off % SCSP_REGS_SIZE == SCSP_MEM4B_OFFSET {
                val / 2 % 2 == 1
            } else {
                m.mem4b
            },
            ..m
        },
        MemRegion::Vdp2Cram(off) => Memory {
            vdp2_cram: if cram_mirrors(m) {
                wr8(
                    wr8(m.vdp2_cram, off as int, VDP2_CRAM_SIZE as int, val),
                    off + CRAM_HALF,
                    VDP2_CRAM_SIZE as int,
                    val,
                )
            } else {
                wr8(m.vdp2_cram, off as int, VDP2_CRAM_SIZE as int, val)
            },
            ..m
        },
        MemRegion::Vdp2Regs(off) => Memory {
            vdp2_regs: wr8(m.vdp2_regs, off as int, VDP2_REGS_SIZE as int, val),
            ..m
        },
        MemRegion::ScuRegs(off) => Memory {
            scu_regs: wr8(m.scu_regs, off as int, SCU_REGS_SIZE as int, val),
            ..m
        },
        MemRegion::BackupRam(off) => Memory {
            backup_ram: wr8(m.backup_ram, off / 2 * 2 + 1, BACKUP_RAM_SIZE as int, val),
            ..m
        },
        MemRegion::SoundRam(off) => if sound_present(m, off as int) {
            Memory {
                sound_ram: wr8(
                    m.sound_ram,
                    sound_offset(m, off as int),
                    SOUND_RAM_SIZE as int,
                    val,
                ),
                ..m
            }
        } else {
            m
        },
        MemRegion::Cs2Regs(off) => if off % 0x10_0000 < CS2_REGS_SIZE {
            Memory {
                cs2_regs: wr8(
                    m.cs2_regs,
                    off as int % 0x10_0000,
                    CS2_REGS_SIZE as int,
                    val,
                ),
                ..m
            }
        } else {
            m
        },
        _ => m,
    }
}

/// The memories after a 16-bit store to a region.
pub open spec fn mem_write16(m: Memory, g: MemRegion, val: u16) -> Memory {
    match g {
        MemRegion::LowRam(off) => Memory {
            low_ram: wr16(m.low_ram, off as int, LOW_RAM_SIZE as int, val),
            ..m
        },
        MemRegion::HighRam(off) => Memory {
            high_ram: wr16(m.high_ram, off as int, HIGH_RAM_SIZE as int, val),
            ..m
        },
        MemRegion::Vdp1Vram(off) => Memory {
            vdp1_vram: wr16(m.vdp1_vram, off as int, VDP1_VRAM_SIZE as int, val),
            ..m
        },
        MemRegion::Vdp1Framebuffer(off) => Memory {
            vdp1_framebuffer: wr16(m.vdp1_framebuffer, off as int, VDP1_FB_WINDOW as int, val),
            ..m
        },
        MemRegion::Vdp1Regs(off) => Memory {
            vdp1_regs: wr16(m.vdp1_regs, off as int, VDP1_REGS_SIZE as int, val),
            ..m
        },
        MemRegion::Vdp2Vram(off) => Memory {
            vdp2_vram: wr16(m.vdp2_vram, off as int, VDP2_VRAM_SIZE as int, val),
            ..m
        },
        MemRegion::Smpc(off) => Memory {
            smpc_regs: wr16(m.smpc_regs, off as int, SMPC_REGS_SIZE as int, val),
            ..m
        },
        MemRegion::ScspRegs(off) => mem_write8(mem_write8(m, MemRegion::ScspRegs(off), byte16(val, 0)), MemRegion::ScspRegs((off + 1) as usize), byte16(val, 1)),
        MemRegion::Vdp2Cram(off) => mem_write8(mem_write8(m, MemRegion::Vdp2Cram(off), byte16(val, 0)), MemRegion::Vdp2Cram((off + 1) as usize), byte16(val, 1)),
        MemRegion::Vdp2Regs(off) => Memory {
            vdp2_regs: wr16(
                m.vdp2_regs,
                off as int,
                VDP2_REGS_SIZE as int,
                vdp2_reg_word(m, off as int, val),
            ),
            ..m
        },
        MemRegion::BackupRam(off) => mem_write8(mem_write8(m, MemRegion::BackupRam(off), byte16(val, 0)), MemRegion::BackupRam((off + 1) as usize), byte16(val, 1)),
        MemRegion::ScuRegs(off) => Memory {
            scu_regs: wr16(m.scu_regs, off as int, SCU_REGS_SIZE as int, val),
            ..m
        },
        MemRegion::SoundRam(off) => if sound_present(m, off as int) {
            Memory {
                sound_ram: wr16(
                    m.sound_ram,
                    sound_offset(m, off as int),
                    SOUND_RAM_SIZE as int,
                    val,
                ),
                ..m
            }
        } else {
            m
        },
        MemRegion::Cs2Regs(off) => if off % 0x10_0000 < CS2_REGS_SIZE {
            Memory {
                cs2_regs: wr16(
                    m.cs2_regs,
                    off as int % 0x10_0000,
                    CS2_REGS_SIZE as int,
                    val,
                ),
                ..m
            }
        } else {
            m
        },
        _ => m,
    }
}

/// The memories after a 32-bit store to a region.
pub open spec fn mem_write32(m: Memory, g: MemRegion, val: u32) -> Memory {
    match g {
        MemRegion::LowRam(off) => Memory {
            low_ram: wr32(m.low_ram, off as int, LOW_RAM_SIZE as int, val),
            ..m
        },
        MemRegion::HighRam(off) => Memory {
            high_ram: wr32(m.high_ram, off as int, HIGH_RAM_SIZE as int, val),
            ..m
        },
        MemRegion::Vdp1Vram(off) => Memory {
            vdp1_vram: wr32(m.vdp1_vram, off as int, VDP1_VRAM_SIZE as int, val),
            ..m
        },
        MemRegion::Vdp1Framebuffer(off) => Memory {
            vdp1_framebuffer: wr32(m.vdp1_framebuffer, off as int, VDP1_FB_WINDOW as int, val),
            ..m
        },
        MemRegion::Vdp1Regs(off) => Memory {
            vdp1_regs: wr32(m.vdp1_regs, off as int, VDP1_REGS_SIZE as int, val),
            ..m
        },
        MemRegion::Vdp2Vram(off) => Memory {
            vdp2_vram: wr32(m.vdp2_vram, off as int, VDP2_VRAM_SIZE as int, val),
            ..m
        },
        MemRegion::Smpc(off) => Memory {
            smpc_regs: wr32(m.smpc_regs, off as int, SMPC_REGS_SIZE as int, val),
            ..m
        },
        MemRegion::ScspRegs(off) => mem_write8(mem_write8(mem_write8(mem_write8(m, MemRegion::ScspRegs(off), byte32(val, 0)), MemRegion::ScspRegs((off + 1) as usize), byte32(val, 1)), MemRegion::ScspRegs((off + 2) as usize), byte32(val, 2)), MemRegion::ScspRegs((off + 3) as usize), byte32(val, 3)),
        MemRegion::Vdp2Cram(off) => mem_write8(mem_write8(mem_write8(mem_write8(m, MemRegion::Vdp2Cram(off), byte32(val, 0)), MemRegion::Vdp2Cram((off + 1) as usize), byte32(val, 1)), MemRegion::Vdp2Cram((off + 2) as usize), byte32(val, 2)), MemRegion::Vdp2Cram((off + 3) as usize), byte32(val, 3)),
        MemRegion::Vdp2Regs(off) => Memory {
            vdp2_regs: wr32(m.vdp2_regs, off as int, VDP2_REGS_SIZE as int, val),
            ..m
        },
        MemRegion::BackupRam(off) => mem_write8(mem_write8(mem_write8(mem_write8(m, MemRegion::BackupRam(off), byte32(val, 0)), MemRegion::BackupRam((off + 1) as usize), byte32(val, 1)), MemRegion::BackupRam((off + 2) as usize), byte32(val, 2)), MemRegion::BackupRam((off + 3) as usize), byte32(val, 3)),
        MemRegion::ScuRegs(off) => if off % SCU_REGS_SIZE + 3 < SCU_REGS_SIZE {
            Memory {
                scu_regs: wr32(m.scu_regs, off as int, SCU_REGS_SIZE as int, val),
                ..m
            }
        } else {
            m
        },
        MemRegion::SoundRam(off) => if sound_present(m, off as int) {
            Memory {
                sound_ram: wr32(
                    m.sound_ram,
                    sound_offset(m, off as int),
                    SOUND_RAM_SIZE as int,
                    val,
                ),
                ..m
            }
        } else {
            m
        },
        MemRegion::Cs2Regs(off) => if off % 0x10_0000 < CS2_REGS_SIZE {
            Memory {
                cs2_regs: wr32(
                    m.cs2_regs,
                    off as int % 0x10_0000,
                    CS2_REGS_SIZE as int,
                    val,
                ),
                ..m
            }
        } else {
            m
        },
        _ => m,
    }
}

fn sound_at(ram: &WorkRam, off: usize) -> (r: Option<usize>)
    requires
        ram.wf(),
        off < 0x10_0000,
    ensures
        r is Some <==> sound_present(ram@, off as int),
        r is Some ==> r.unwrap() == sound_offset(ram@, off as int),
        r is Some ==> r.unwrap() < SOUND_RAM_SIZE,
{
    if !ram.mem4b {
        Some(off % SOUND_RAM_SMALL)
    } else if off % 0x10_0000 < SOUND_RAM_SIZE {
        Some(off % 0x10_0000)
    } else {
        None
    }
}

/// Read 8 bits of the memory behind a region.
pub fn ram_read8(ram: &WorkRam, g: MemRegion) -> (r: u8)
    requires
        ram.wf(),
        region_ok_near(g),
    ensures
        r == mem_read8(ram@, g),
{
    match g {
        MemRegion::LowRam(off) => get8(&ram.low_ram, off, LOW_RAM_SIZE),
        MemRegion::HighRam(off) => get8(&ram.high_ram, off, HIGH_RAM_SIZE),
        MemRegion::Vdp1Vram(off) => get8(&ram.vdp1_vram, off, VDP1_VRAM_SIZE),
        MemRegion::Vdp1Framebuffer(off) => get8(&ram.vdp1_framebuffer, off, VDP1_FB_WINDOW),
        MemRegion::Vdp1Regs(off) => get8(&ram.vdp1_regs, off, VDP1_REGS_SIZE),
        MemRegion::Vdp2Vram(off) => get8(&ram.vdp2_vram, off, VDP2_VRAM_SIZE),
        MemRegion::Smpc(off) => get8(&ram.smpc_regs, off, SMPC_REGS_SIZE),
        MemRegion::ScspRegs(off) => get8(&ram.scsp_regs, off, SCSP_REGS_SIZE),
        MemRegion::Vdp2Cram(off) => get8(&ram.vdp2_cram, off, VDP2_CRAM_SIZE),
        MemRegion::Vdp2Regs(off) => get8(&ram.vdp2_regs, off, VDP2_REGS_SIZE),
        MemRegion::ScuRegs(off) => get8(&ram.scu_regs, off, SCU_REGS_SIZE),
        MemRegion::BackupRam(off) => get8(&ram.backup_ram, off, BACKUP_RAM_SIZE),
        MemRegion::SoundRam(off) => match sound_at(ram, off) {
            Some(addr) => get8(&ram.sound_ram, addr, SOUND_RAM_SIZE),
            None => 0xFF,
        },
        MemRegion::Cs2Regs(off) => {
            let masked_off: usize = off % 0x10_0000;
            if masked_off < CS2_REGS_SIZE {
                get8(&ram.cs2_regs, masked_off, CS2_REGS_SIZE)
            } else {
                0
            }
        },
        _ => 0,
    }
}

/// Read 16 bits of the memory behind a region.
pub fn ram_read16(ram: &WorkRam, g: MemRegion) -> (r: u16)
    requires
        ram.wf(),
        region_ok(g),
    ensures
        r == mem_read16(ram@, g),
{
    match g {
        MemRegion::LowRam(off) => get16(&ram.low_ram, off, LOW_RAM_SIZE),
        MemRegion::HighRam(off) => get16(&ram.high_ram, off, HIGH_RAM_SIZE),
        MemRegion::Vdp1Vram(off) => get16(&ram.vdp1_vram, off, VDP1_VRAM_SIZE),
        MemRegion::Vdp1Framebuffer(off) => get16(&ram.vdp1_framebuffer, off, VDP1_FB_WINDOW),
        MemRegion::Vdp1Regs(off) => get16(&ram.vdp1_regs, off, VDP1_REGS_SIZE),
        MemRegion::Vdp2Vram(off) => get16(&ram.vdp2_vram, off, VDP2_VRAM_SIZE),
        MemRegion::Smpc(off) => get16(&ram.smpc_regs, off, SMPC_REGS_SIZE),
        MemRegion::ScspRegs(off) => get16(&ram.scsp_regs, off, SCSP_REGS_SIZE),
        MemRegion::Vdp2Cram(off) => get16(&ram.vdp2_cram, off, VDP2_CRAM_SIZE),
        MemRegion::Vdp2Regs(off) => get16(&ram.vdp2_regs, off, VDP2_REGS_SIZE),
        MemRegion::ScuRegs(off) => get16(&ram.scu_regs, off, SCU_REGS_SIZE),
        MemRegion::BackupRam(off) => get16(&ram.backup_ram, off, BACKUP_RAM_SIZE),
        MemRegion::SoundRam(off) => match sound_at(ram, off) {
            Some(addr) => get16(&ram.sound_ram, addr, SOUND_RAM_SIZE),
            None => 0xFFFF,
        },
        MemRegion::Cs2Regs(off) => {
            let masked_off: usize = off % 0x10_0000;
            if masked_off < CS2_REGS_SIZE {
                get16(&ram.cs2_regs, masked_off, CS2_REGS_SIZE)
            } else {
                0
            }
        },
        _ => 0,
    }
}

/// Read 32 bits of the memory behind a region.
pub fn ram_read32(ram: &WorkRam, g: MemRegion) -> (r: u32)
    requires
        ram.wf(),
        region_ok(g),
    ensures
        r == mem_read32(ram@, g),
{
    match g {
        MemRegion::LowRam(off) => get32(&ram.low_ram, off, LOW_RAM_SIZE),
        MemRegion::HighRam(off) => get32(&ram.high_ram, off, HIGH_RAM_SIZE),
        MemRegion::Vdp1Vram(off) => get32(&ram.vdp1_vram, off, VDP1_VRAM_SIZE),
        MemRegion::Vdp1Framebuffer(off) => get32(&ram.vdp1_framebuffer, off, VDP1_FB_WINDOW),
        MemRegion::Vdp1Regs(off) => get32(&ram.vdp1_regs, off, VDP1_REGS_SIZE),
        MemRegion::Vdp2Vram(off) => get32(&ram.vdp2_vram, off, VDP2_VRAM_SIZE),
        MemRegion::Smpc(off) => get32(&ram.smpc_regs, off, SMPC_REGS_SIZE),
        MemRegion::ScspRegs(off) => get32(&ram.scsp_regs, off, SCSP_REGS_SIZE),
        MemRegion::Vdp2Cram(off) => get32(&ram.vdp2_cram, off, VDP2_CRAM_SIZE),
        MemRegion::Vdp2Regs(off) => get32(&ram.vdp2_regs, off, VDP2_REGS_SIZE),
        MemRegion::ScuRegs(off) => get32(&ram.scu_regs, off, SCU_REGS_SIZE),
        MemRegion::BackupRam(off) => get32(&ram.backup_ram, off, BACKUP_RAM_SIZE),
        MemRegion::SoundRam(off) => match sound_at(ram, off) {
            Some(addr) => get32(&ram.sound_ram, addr, SOUND_RAM_SIZE),
            None => 0xFFFF_FFFF,
        },
        MemRegion::Cs2Regs(off) => {
            let masked_off: usize = off % 0x10_0000;
            if masked_off < CS2_REGS_SIZE {
                get32(&ram.cs2_regs, masked_off, CS2_REGS_SIZE)
            } else {
                0
            }
        },
        _ => 0,
    }
}

/// Store 8 bits to the memory behind a region.
pub fn ram_write8(ram: &mut WorkRam, g: MemRegion, val: u8)
    requires
        old(ram).wf(),
        region_ok_near(g),
    ensures
        final(ram).wf(),
        final(ram)@ == mem_write8(old(ram)@, g, val),
{
    match g {
        MemRegion::LowRam(off) => put8(&mut ram.low_ram, off, LOW_RAM_SIZE, val),
        MemRegion::HighRam(off) => put8(&mut ram.high_ram, off, HIGH_RAM_SIZE, val),
        MemRegion::Vdp1Vram(off) => put8(&mut ram.vdp1_vram, off, VDP1_VRAM_SIZE, val),
        MemRegion::Vdp1Framebuffer(off) => put8(&mut ram.vdp1_framebuffer, off, VDP1_FB_WINDOW, val),
        MemRegion::Vdp1Regs(off) => put8(&mut ram.vdp1_regs, off, VDP1_REGS_SIZE, val),
        MemRegion::Vdp2Vram(off) => put8(&mut ram.vdp2_vram, off, VDP2_VRAM_SIZE, val),
        MemRegion::Smpc(off) => put8(&mut ram.smpc_regs, off, SMPC_REGS_SIZE, val),
        MemRegion::ScspRegs(off) => {
            put8(&mut ram.scsp_regs, off, SCSP_REGS_SIZE, val);
            if off % SCSP_REGS_SIZE == SCSP_MEM4B_OFFSET {
                ram.mem4b = val / 2 % 2 == 1;
            }
        },
        MemRegion::Vdp2Cram(off) => {
            put8(&mut ram.vdp2_cram, off, VDP2_CRAM_SIZE, val);
            if ram.vdp2_regs[0x0E] / 16 % 4 == 0 {
                put8(&mut ram.vdp2_cram, off + CRAM_HALF, VDP2_CRAM_SIZE, val);
            }
        },
        MemRegion::Vdp2Regs(off) => put8(&mut ram.vdp2_regs, off, VDP2_REGS_SIZE, val),
        MemRegion::ScuRegs(off) => put8(&mut ram.scu_regs, off, SCU_REGS_SIZE, val),
        MemRegion::BackupRam(off) => {
            put8(&mut ram.backup_ram, off / 2 * 2 + 1, BACKUP_RAM_SIZE, val)
        },
        MemRegion::SoundRam(off) => match sound_at(ram, off) {
            Some(addr) => put8(&mut ram.sound_ram, addr, SOUND_RAM_SIZE, val),
            None => {},
        },
        MemRegion::Cs2Regs(off) => {
            let masked_off: usize = off % 0x10_0000;
            if masked_off < CS2_REGS_SIZE {
                put8(&mut ram.cs2_regs, masked_off, CS2_REGS_SIZE, val);
            }
        },
        _ => {},
    }
}

/// Store 16 bits to the memory behind a region.
pub fn ram_write16(ram: &mut WorkRam, g: MemRegion, val: u16)
    requires
        old(ram).wf(),
        region_ok(g),
    ensures
        final(ram).wf(),
        final(ram)@ == mem_write16(old(ram)@, g, val),
{
    match g {
        MemRegion::LowRam(off) => put16(&mut ram.low_ram, off, LOW_RAM_SIZE, val),
        MemRegion::HighRam(off) => put16(&mut ram.high_ram, off, HIGH_RAM_SIZE, val),
        MemRegion::Vdp1Vram(off) => put16(&mut ram.vdp1_vram, off, VDP1_VRAM_SIZE, val),
        MemRegion::Vdp1Framebuffer(off) => put16(&mut ram.vdp1_framebuffer, off, VDP1_FB_WINDOW, val),
        MemRegion::Vdp1Regs(off) => put16(&mut ram.vdp1_regs, off, VDP1_REGS_SIZE, val),
        MemRegion::Vdp2Vram(off) => put16(&mut ram.vdp2_vram, off, VDP2_VRAM_SIZE, val),
        MemRegion::Smpc(off) => put16(&mut ram.smpc_regs, off, SMPC_REGS_SIZE, val),
        MemRegion::ScspRegs(off) => {
            ram_write8(ram, MemRegion::ScspRegs(off), (val / 0x100) as u8);
            ram_write8(ram, MemRegion::ScspRegs(off + 1), (val % 0x100) as u8);
        },
        MemRegion::Vdp2Cram(off) => {
            ram_write8(ram, MemRegion::Vdp2Cram(off), (val / 0x100) as u8);
            ram_write8(ram, MemRegion::Vdp2Cram(off + 1), (val % 0x100) as u8);
        },
        MemRegion::Vdp2Regs(off) => {
            let kept: u16 = (ram.vdp2_regs[1] / 16 % 4 * 16) as u16;
            let word: u16 = if off % VDP2_REGS_SIZE == 0 && val / 16 % 4 == 3 {
                val - 0x30 + kept
            } else {
                val
            };
            put16(&mut ram.vdp2_regs, off, VDP2_REGS_SIZE, word);
        },
        MemRegion::BackupRam(off) => {
            ram_write8(ram, MemRegion::BackupRam(off), (val / 0x100) as u8);
            ram_write8(ram, MemRegion::BackupRam(off + 1), (val % 0x100) as u8);
        },
        MemRegion::ScuRegs(off) => put16(&mut ram.scu_regs, off, SCU_REGS_SIZE, val),
        MemRegion::SoundRam(off) => match sound_at(ram, off) {
            Some(addr) => put16(&mut ram.sound_ram, addr, SOUND_RAM_SIZE, val),
            None => {},
        },
        MemRegion::Cs2Regs(off) => {
            let masked_off: usize = off % 0x10_0000;
            if masked_off < CS2_REGS_SIZE {
                put16(&mut ram.cs2_regs, masked_off, CS2_REGS_SIZE, val);
            }
        },
        _ => {},
    }
}

/// Store 32 bits to the memory behind a region.
pub fn ram_write32(ram: &mut WorkRam, g: MemRegion, val: u32)
    requires
        old(ram).wf(),
        region_ok(g),
    ensures
        final(ram).wf(),
        final(ram)@ == mem_write32(old(ram)@, g, val),
{
    match g {
        MemRegion::LowRam(off) => put32(&mut ram.low_ram, off, LOW_RAM_SIZE, val),
        MemRegion::HighRam(off) => put32(&mut ram.high_ram, off, HIGH_RAM_SIZE, val),
        MemRegion::Vdp1Vram(off) => put32(&mut ram.vdp1_vram, off, VDP1_VRAM_SIZE, val),
        MemRegion::Vdp1Framebuffer(off) => put32(&mut ram.vdp1_framebuffer, off, VDP1_FB_WINDOW, val),
        MemRegion::Vdp1Regs(off) => put32(&mut ram.vdp1_regs, off, VDP1_REGS_SIZE, val),
        MemRegion::Vdp2Vram(off) => put32(&mut ram.vdp2_vram, off, VDP2_VRAM_SIZE, val),
        MemRegion::Smpc(off) => put32(&mut ram.smpc_regs, off, SMPC_REGS_SIZE, val),
        MemRegion::ScspRegs(off) => {
            ram_write8(ram, MemRegion::ScspRegs(off), (val / 0x100_0000) as u8);
            ram_write8(ram, MemRegion::ScspRegs(off + 1), (val / 0x1_0000 % 0x100) as u8);
            ram_write8(ram, MemRegion::ScspRegs(off + 2), (val / 0x100 % 0x100) as u8);
            ram_write8(ram, MemRegion::ScspRegs(off + 3), (val % 0x100) as u8);
        },
        MemRegion::Vdp2Cram(off) => {
            ram_write8(ram, MemRegion::Vdp2Cram(off), (val / 0x100_0000) as u8);
            ram_write8(ram, MemRegion::Vdp2Cram(off + 1), (val / 0x1_0000 % 0x100) as u8);
            ram_write8(ram, MemRegion::Vdp2Cram(off + 2), (val / 0x100 % 0x100) as u8);
            ram_write8(ram, MemRegion::Vdp2Cram(off + 3), (val % 0x100) as u8);
        },
        MemRegion::Vdp2Regs(off) => put32(&mut ram.vdp2_regs, off, VDP2_REGS_SIZE, val),
        MemRegion::BackupRam(off) => {
            ram_write8(ram, MemRegion::BackupRam(off), (val / 0x100_0000) as u8);
            ram_write8(ram, MemRegion::BackupRam(off + 1), (val / 0x1_0000 % 0x100) as u8);
            ram_write8(ram, MemRegion::BackupRam(off + 2), (val / 0x100 % 0x100) as u8);
            ram_write8(ram, MemRegion::BackupRam(off + 3), (val % 0x100) as u8);
        },
        MemRegion::ScuRegs(off) => {
            if off % SCU_REGS_SIZE + 3 < SCU_REGS_SIZE {
                put32(&mut ram.scu_regs, off, SCU_REGS_SIZE, val);
            }
        },
        MemRegion::SoundRam(off) => match sound_at(ram, off) {
            Some(addr) => put32(&mut ram.sound_ram, addr, SOUND_RAM_SIZE, val),
            None => {},
        },
        MemRegion::Cs2Regs(off) => {
            let masked_off: usize = off % 0x10_0000;
            if masked_off < CS2_REGS_SIZE {
                put32(&mut ram.cs2_regs, masked_off, CS2_REGS_SIZE, val);
            }
        },
        _ => {},
    }
}

/// A region whose offset may lie up to three bytes behind its window.
pub open spec fn region_ok_near(g: MemRegion) -> bool {
    match g {
        MemRegion::ScspRegs(off) => off < 0x10_0003,
        MemRegion::Vdp2Cram(off) => off < 0x8_0003,
        MemRegion::Vdp2Regs(off) => off < 0x4_0003,
        MemRegion::BackupRam(off) => off < 0x8_0003,
        MemRegion::Smpc(off) => off < 0x83,
        _ => region_ok(g),
    }
}

} // verus!
