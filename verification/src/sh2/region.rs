//! The address map of the SH-2: which device answers, how long it makes the CPU
//! wait, and which accesses miss.

use vstd::prelude::*;

verus! {

/// The device behind an address, with the offset into its window.
#[derive(Debug, Clone, Copy, PartialEq, Eq, Structural)]
pub enum MemRegion {
    Bios(usize),
    LowRam(usize),
    HighRam(usize),
    Smpc(usize),
    BackupRam(usize),
    SoundRam(usize),
    ScspRegs(usize),
    Vdp1Vram(usize),
    Vdp1Framebuffer(usize),
    Vdp1Regs(usize),
    Vdp2Vram(usize),
    Vdp2Cram(usize),
    Vdp2Regs(usize),
    ScuRegs(usize),
    Cs2Regs(usize),
    OnChip(usize),
    /// Cache purge area: reads give all ones, narrow stores pass through.
    PurgeArea,
    AddressArray(usize),
    DataArray(usize),
    Unmapped,
}

/// The device behind an address of the 256 MB bus.
pub open spec fn device_of(a: int) -> MemRegion {
    if a < 0x0010_0000 {
        MemRegion::Bios(a as usize)
    } else if a < 0x0018_0000 {
        MemRegion::Smpc((a % 0x80) as usize)
    } else if a < 0x0020_0000 {
        MemRegion::BackupRam((a - 0x0018_0000) as usize)
    } else if a < 0x0030_0000 {
        MemRegion::LowRam((a - 0x0020_0000) as usize)
    } else if 0x0580_0000 <= a < 0x0590_0000 {
        MemRegion::Cs2Regs((a - 0x0580_0000) as usize)
    } else if 0x05A0_0000 <= a < 0x05B0_0000 {
        MemRegion::SoundRam((a - 0x05A0_0000) as usize)
    } else if 0x05B0_0000 <= a < 0x05C0_0000 {
        MemRegion::ScspRegs((a - 0x05B0_0000) as usize)
    } else if 0x05C0_0000 <= a < 0x05C8_0000 {
        MemRegion::Vdp1Vram((a - 0x05C0_0000) as usize)
    } else if 0x05C8_0000 <= a < 0x05D0_0000 {
        MemRegion::Vdp1Framebuffer((a - 0x05C8_0000) as usize)
    } else if 0x05D0_0000 <= a < 0x05D8_0000 {
        MemRegion::Vdp1Regs((a - 0x05D0_0000) as usize)
    } else if 0x05E0_0000 <= a < 0x05F0_0000 {
        MemRegion::Vdp2Vram((a - 0x05E0_0000) as usize)
    } else if 0x05F0_0000 <= a < 0x05F8_0000 {
        MemRegion::Vdp2Cram((a - 0x05F0_0000) as usize)
    } else if 0x05F8_0000 <= a < 0x05FC_0000 {
        MemRegion::Vdp2Regs((a - 0x05F8_0000) as usize)
    } else if 0x05FE_0000 <= a < 0x05FF_0000 {
        MemRegion::ScuRegs((a - 0x05FE_0000) as usize)
    } else if 0x0600_0000 <= a < 0x0800_0000 {
        MemRegion::HighRam((a - 0x0600_0000) as usize)
    } else {
        MemRegion::Unmapped
    }
}

/// The device behind an address. The top three bits choose the kind of access:
/// 0, 1, 4 and 5 reach the bus, 2 purges the cache, 3 and 6 are the cache arrays.
pub open spec fn region_of(address: u32) -> MemRegion {
    if address >= 0xFFFF_FE00 {
        MemRegion::OnChip((address % 0x200) as usize)
    } else if address / 0x2000_0000 == 2 {
        MemRegion::PurgeArea
    } else if address / 0x2000_0000 == 3 {
        MemRegion::AddressArray((address % 0x400 / 4 * 4) as usize)
    } else if address / 0x2000_0000 == 6 {
        MemRegion::DataArray((address % 0x1000) as usize)
    } else if address / 0x2000_0000 == 7 {
        MemRegion::Unmapped
    } else {
        device_of((address % 0x1000_0000) as int)
    }
}

/// Where a byte or word store goes: through the purge area it reaches the bus.
pub open spec fn store_region(address: u32) -> MemRegion {
    if region_of(address) is PurgeArea {
        device_of((address % 0x1000_0000) as int)
    } else {
        region_of(address)
    }
}

/// The largest offset into any window.
pub open spec fn region_ok(g: MemRegion) -> bool {
    match g {
        MemRegion::Bios(off) => off < 0x10_0000,
        MemRegion::LowRam(off) => off < 0x10_0000,
        MemRegion::HighRam(off) => off < 0x200_0000,
        MemRegion::Smpc(off) => off < 0x80,
        MemRegion::BackupRam(off) => off < 0x8_0000,
        MemRegion::SoundRam(off) => off < 0x10_0000,
        MemRegion::ScspRegs(off) => off < 0x10_0000,
        MemRegion::Vdp1Vram(off) => off < 0x8_0000,
        MemRegion::Vdp1Framebuffer(off) => off < 0x8_0000,
        MemRegion::Vdp1Regs(off) => off < 0x8_0000,
        MemRegion::Vdp2Vram(off) => off < 0x10_0000,
        MemRegion::Vdp2Cram(off) => off < 0x8_0000,
        MemRegion::Vdp2Regs(off) => off < 0x4_0000,
        MemRegion::ScuRegs(off) => off < 0x1_0000,
        MemRegion::Cs2Regs(off) => off < 0x10_0000,
        MemRegion::OnChip(off) => off < 0x200,
        MemRegion::PurgeArea => true,
        MemRegion::AddressArray(off) => off < 0x400,
        MemRegion::DataArray(off) => off < 0x1000,
        MemRegion::Unmapped => true,
    }
}

fn device(a: u32) -> (r: MemRegion)
    requires
        a < 0x1000_0000,
    ensures
        r == device_of(a as int),
        region_ok(r),
        !(r is OnChip),
        !(r is PurgeArea),
{
    if a < 0x0010_0000 {
        MemRegion::Bios(a as usize)
    } else if a < 0x0018_0000 {
        MemRegion::Smpc((a % 0x80) as usize)
    } else if a < 0x0020_0000 {
        MemRegion::BackupRam((a - 0x0018_0000) as usize)
    } else if a < 0x0030_0000 {
        MemRegion::LowRam((a - 0x0020_0000) as usize)
    } else if 0x0580_0000 <= a && a < 0x0590_0000 {
        MemRegion::Cs2Regs((a - 0x0580_0000) as usize)
    } else if 0x05A0_0000 <= a && a < 0x05B0_0000 {
        MemRegion::SoundRam((a - 0x05A0_0000) as usize)
    } else if 0x05B0_0000 <= a && a < 0x05C0_0000 {
        MemRegion::ScspRegs((a - 0x05B0_0000) as usize)
    } else if 0x05C0_0000 <= a && a < 0x05C8_0000 {
        MemRegion::Vdp1Vram((a - 0x05C0_0000) as usize)
    } else if 0x05C8_0000 <= a && a < 0x05D0_0000 {
        MemRegion::Vdp1Framebuffer((a - 0x05C8_0000) as usize)
    } else if 0x05D0_0000 <= a && a < 0x05D8_0000 {
        MemRegion::Vdp1Regs((a - 0x05D0_0000) as usize)
    } else if 0x05E0_0000 <= a && a < 0x05F0_0000 {
        MemRegion::Vdp2Vram((a - 0x05E0_0000) as usize)
    } else if 0x05F0_0000 <= a && a < 0x05F8_0000 {
        MemRegion::Vdp2Cram((a - 0x05F0_0000) as usize)
    } else if 0x05F8_0000 <= a && a < 0x05FC_0000 {
        MemRegion::Vdp2Regs((a - 0x05F8_0000) as usize)
    } else if 0x05FE_0000 <= a && a < 0x05FF_0000 {
        MemRegion::ScuRegs((a - 0x05FE_0000) as usize)
    } else if 0x0600_0000 <= a && a < 0x0800_0000 {
        MemRegion::HighRam((a - 0x0600_0000) as usize)
    } else {
        MemRegion::Unmapped
    }
}

/// The device behind an address.
pub fn translate(address: u32) -> (r: MemRegion)
    ensures
        r == region_of(address),
        region_ok(r),
{
    if address >= 0xFFFF_FE00 {
        return MemRegion::OnChip((address % 0x200) as usize);
    }
    let area: u32 = address / 0x2000_0000;
    if area == 2 {
        MemRegion::PurgeArea
    } else if area == 3 {
        MemRegion::AddressArray((address % 0x400 / 4 * 4) as usize)
    } else if area == 6 {
        MemRegion::DataArray((address % 0x1000) as usize)
    } else if area == 7 {
        MemRegion::Unmapped
    } else {
        device(address % 0x1000_0000)
    }
}

/// Where a byte or word store goes.
pub fn translate_store(address: u32) -> (r: MemRegion)
    ensures
        r == store_region(address),
        region_ok(r),
        !(r is PurgeArea),
{
    match translate(address) {
        MemRegion::PurgeArea => device(address % 0x1000_0000),
        g => g,
    }
}

/// Wait states of a read.
pub open spec fn read_wait(address: u32) -> u32 {
    let phys = address % 0x2000_0000;
    if phys <= 0x001F_FFFF {
        16
    } else if phys <= 0x00FF_FFFF {
        12
    } else if 0x0200_0000 <= phys <= 0x03FF_FFFF || 0x0580_0000 <= phys <= 0x059F_FFFF {
        24
    } else if 0x05A0_0000 <= phys <= 0x05DF_FFFF {
        50
    } else if 0x05E0_0000 <= phys <= 0x05FF_FFFF {
        2
    } else {
        0
    }
}

/// Wait states of a store.
pub open spec fn write_wait(address: u32) -> u32 {
    let phys = address % 0x2000_0000;
    if 0x0020_0000 <= phys <= 0x00FF_FFFF || 0x05A0_0000 <= phys <= 0x05AF_FFFF {
        7
    } else if 0x05C0_0000 <= phys <= 0x05FF_FFFF || 0x0600_0000 <= phys <= 0x060F_FFFF {
        2
    } else {
        0
    }
}

/// Wait states that a read of this address costs.
pub fn mem_cycles_r(addr: u32) -> (r: u32)
    ensures
        r == read_wait(addr),
        r <= 50,
{
    let phys: u32 = addr % 0x2000_0000;
    if phys <= 0x000F_FFFF {
        16
    } else if phys <= 0x001F_FFFF {
        16
    } else if phys <= 0x00FF_FFFF {
        12
    } else if phys >= 0x0200_0000 && phys <= 0x03FF_FFFF {
        24
    } else if phys >= 0x0580_0000 && phys <= 0x059F_FFFF {
        24
    } else if phys >= 0x05A0_0000 && phys <= 0x05DF_FFFF {
        50
    } else if phys >= 0x05E0_0000 && phys <= 0x05FF_FFFF {
        2
    } else {
        0
    }
}

/// Wait states that a store to this address costs.
pub fn mem_cycles_w(addr: u32) -> (r: u32)
    ensures
        r == write_wait(addr),
        r <= 50,
{
    let phys: u32 = addr % 0x2000_0000;
    if phys <= 0x001F_FFFF {
        0
    } else if phys <= 0x00FF_FFFF {
        7
    } else if phys >= 0x05A0_0000 && phys <= 0x05AF_FFFF {
        7
    } else if phys >= 0x05C0_0000 && phys <= 0x05DF_FFFF {
        2
    } else if phys >= 0x05E0_0000 && phys <= 0x05FF_FFFF {
        2
    } else if phys >= 0x0600_0000 && phys <= 0x060F_FFFF {
        2
    } else {
        0
    }
}

/// Why an access does not reach the device its address suggests, or reaches it
/// through a mirror.
#[derive(Debug, Clone, Copy, PartialEq, Eq, Structural)]
pub enum BusMiss {
    CacheArea,
    BelowOnChip,
    Bit28Alias,
    Area4Alias,
    UnmappedCs0,
    UnmappedCs1,
    UnmappedFrtCapture,
    UnmappedHighRam,
    UnmappedHole,
    BiosMirror,
    BackupRamMirror,
    Vdp1RegsMirror,
    Vdp2RegsMirror,
    ScuRegsMirror,
    HighRamMirror,
}

/// Whether an access misses, and why.
pub open spec fn miss_of(address: u32) -> Option<BusMiss> {
    let area = address / 0x2000_0000;
    let a = address % 0x1000_0000;
    if area == 2 || area == 3 || area == 5 || area == 6 {
        Some(BusMiss::CacheArea)
    } else if area == 7 && address < 0xFFFF_FE00 {
        Some(BusMiss::BelowOnChip)
    } else if address / 0x1000_0000 % 2 == 1 {
        Some(BusMiss::Bit28Alias)
    } else if area == 4 {
        Some(BusMiss::Area4Alias)
    } else if region_of(address) is Unmapped {
        Some(
            if 0x0200_0000 <= a < 0x0400_0000 {
                BusMiss::UnmappedCs0
            } else if 0x0400_0000 <= a < 0x0500_0000 {
                BusMiss::UnmappedCs1
            } else if 0x0100_0000 <= a < 0x0200_0000 {
                BusMiss::UnmappedFrtCapture
            } else if 0x0700_0000 <= a < 0x0800_0000 {
                BusMiss::UnmappedHighRam
            } else {
                BusMiss::UnmappedHole
            },
        )
    } else if 0x0008_0000 <= a < 0x0010_0000 {
        Some(BusMiss::BiosMirror)
    } else if 0x0019_0000 <= a < 0x0020_0000 {
        Some(BusMiss::BackupRamMirror)
    } else if 0x05D0_0100 <= a < 0x05D8_0000 {
        Some(BusMiss::Vdp1RegsMirror)
    } else if 0x05F8_0200 <= a < 0x05FC_0000 {
        Some(BusMiss::Vdp2RegsMirror)
    } else if 0x05FE_0100 <= a < 0x05FF_0000 {
        Some(BusMiss::ScuRegsMirror)
    } else if 0x0610_0000 <= a < 0x0700_0000 {
        Some(BusMiss::HighRamMirror)
    } else {
        None
    }
}

/// Whether an access misses, and why. A program that traces the bus asks this of
/// every access.
pub fn check_bus_miss(address: u32) -> (r: Option<BusMiss>)
    ensures
        r == miss_of(address),
{
    let area: u32 = address / 0x2000_0000;
    if area == 2 || area == 3 || area == 5 || area == 6 {
        return Some(BusMiss::CacheArea);
    }
    if area == 7 && address < 0xFFFF_FE00 {
        return Some(BusMiss::BelowOnChip);
    }
    if address / 0x1000_0000 % 2 == 1 {
        return Some(BusMiss::Bit28Alias);
    }
    if area == 4 {
        return Some(BusMiss::Area4Alias);
    }
    let a: u32 = address % 0x1000_0000;
    match translate(address) {
        MemRegion::Unmapped => {
            if 0x0200_0000 <= a && a < 0x0400_0000 {
                Some(BusMiss::UnmappedCs0)
            } else if 0x0400_0000 <= a && a < 0x0500_0000 {
                Some(BusMiss::UnmappedCs1)
            } else if 0x0100_0000 <= a && a < 0x0200_0000 {
                Some(BusMiss::UnmappedFrtCapture)
            } else if 0x0700_0000 <= a && a < 0x0800_0000 {
                Some(BusMiss::UnmappedHighRam)
            } else {
                Some(BusMiss::UnmappedHole)
            }
        },
        _ => {
            if 0x0008_0000 <= a && a < 0x0010_0000 {
                Some(BusMiss::BiosMirror)
            } else if 0x0019_0000 <= a && a < 0x0020_0000 {
                Some(BusMiss::BackupRamMirror)
            } else if 0x05D0_0100 <= a && a < 0x05D8_0000 {
                Some(BusMiss::Vdp1RegsMirror)
            } else if 0x05F8_0200 <= a && a < 0x05FC_0000 {
                Some(BusMiss::Vdp2RegsMirror)
            } else if 0x05FE_0100 <= a && a < 0x05FF_0000 {
                Some(BusMiss::ScuRegsMirror)
            } else if 0x0610_0000 <= a && a < 0x0700_0000 {
                Some(BusMiss::HighRamMirror)
            } else {
                None
            }
        },
    }
}

/// Cycles that moving one unit from `sar` to `dar` by DMA takes.
pub open spec fn dma_unit_cost(sar: u32, dar: u32) -> u32 {
    let s = sar % 0x1000_0000;
    let d = dar % 0x1000_0000;
    let to_high = 0x0600_0000 <= d < 0x0800_0000;
    let to_low = 0x0020_0000 <= d < 0x0030_0000;
    let to_sound = 0x05A0_0000 <= d < 0x05C0_0000;
    let to_vdp1_ram = 0x05C0_0000 <= d < 0x05D0_0000;
    let to_vdp1_regs = 0x05D0_0000 <= d < 0x05D8_0000;
    let to_vdp2_ram = 0x05E0_0000 <= d < 0x05F0_0000;
    let to_vdp2_regs = 0x05F8_0000 <= d < 0x05FC_0000;
    if 0x0580_0000 <= s < 0x05A0_0000 {
        1
    } else if 0x05E0_0000 <= s < 0x05F0_0000 {
        if to_low || to_vdp2_regs {
            50
        } else if to_sound || to_vdp1_ram || to_vdp1_regs {
            427
        } else if to_vdp2_ram {
            1
        } else {
            44
        }
    } else if 0x05C0_0000 <= s < 0x05D0_0000 {
        if to_high || to_low || to_sound || to_vdp2_regs {
            50
        } else if to_vdp1_ram || to_vdp1_regs {
            570
        } else if to_vdp2_ram {
            225
        } else {
            44
        }
    } else if to_sound {
        20
    } else if to_vdp1_regs {
        30
    } else if to_vdp2_ram {
        82
    } else {
        14
    }
}

/// Cycles that moving one unit from `sar` to `dar` by DMA takes.
pub fn get_eat_clock(sar: u32, dar: u32) -> (r: u32)
    ensures
        r == dma_unit_cost(sar, dar),
        1 <= r <= 570,
{
    let s: u32 = sar % 0x1000_0000;
    let d: u32 = dar % 0x1000_0000;
    if 0x0580_0000 <= s && s < 0x05A0_0000 {
        return 1;
    }
    if 0x05E0_0000 <= s && s < 0x05F0_0000 {
        if 0x0600_0000 <= d && d < 0x0800_0000 {
            return 44;
        } else if 0x0020_0000 <= d && d < 0x0030_0000 {
            return 50;
        } else if 0x05A0_0000 <= d && d < 0x05D8_0000 {
            return 427;
        } else if 0x05E0_0000 <= d && d < 0x05F0_0000 {
            return 1;
        } else if 0x05F8_0000 <= d && d < 0x05FC_0000 {
            return 50;
        } else {
            return 44;
        }
    }
    if 0x05C0_0000 <= s && s < 0x05D0_0000 {
        if (0x0600_0000 <= d && d < 0x0800_0000) || (0x0020_0000 <= d && d < 0x0030_0000) || (
        0x05A0_0000 <= d && d < 0x05C0_0000) || (0x05F8_0000 <= d && d < 0x05FC_0000) {
            return 50;
        } else if 0x05C0_0000 <= d && d < 0x05D8_0000 {
            return 570;
        } else if 0x05E0_0000 <= d && d < 0x05F0_0000 {
            return 225;
        } else {
            return 44;
        }
    }
    if 0x05A0_0000 <= d && d < 0x05C0_0000 {
        20
    } else if 0x05D0_0000 <= d && d < 0x05D8_0000 {
        30
    } else if 0x05E0_0000 <= d && d < 0x05F0_0000 {
        82
    } else {
        14
    }
}

/// The cached and the uncached view of the bus are the same: every area that
/// reaches the bus reaches the same device.
pub proof fn bus_areas_agree(a: u32)
    requires
        a < 0x1000_0000,
    ensures
        region_of(a) == device_of(a as int),
        region_of((a + 0x2000_0000) as u32) == region_of(a),
        region_of((a + 0x8000_0000) as u32) == region_of(a),
        region_of((a + 0xA000_0000) as u32) == region_of(a),
        store_region((a + 0x4000_0000) as u32) == region_of(a),
{
}

} // verus!
