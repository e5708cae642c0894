//! The bus of one SH-2: everything an access can reach, and the timers that
//! accesses drive.

use crate::bytes::{be16, be32, from_be16, from_be32, get16, get32, get8, rd16, rd32, rd8};
use crate::sh2::irq::{IrqLines, IrqView, SMPC_IRQ_LEVEL, SMPC_IRQ_VECTOR};
use crate::sh2::onchip::{
    frt_unit, onchip_read16, onchip_read32, onchip_read8, read_onchip, read_onchip_byte,
    read_onchip_word, timer_unit,
};
use crate::sh2::ram::{
    mem_read16, mem_read32, mem_read8, ram_read16, ram_read32, ram_read8, region_ok_near,
};
use crate::sh2::region::{
    mem_cycles_r, mem_cycles_w, read_wait, region_of, region_ok, translate, write_wait, MemRegion,
};
use crate::sh2_onchip::Sh2OnChip;
use crate::shared_buffers::{Memory, WorkRam, SMPC_REGS_SIZE, VDP2_REGS_SIZE};
use crate::smpc::{
    cmd, command_done, command_effects, oregs_filled, reg, register_written, sf_value, Smpc,
    SmpcEffects, SmpcView, SmpcWorld,
};
use crate::vdp::{Vdp1State, Vdp1Status};
use std::sync::Arc;
use crate::sh2::trace::{traced, MissEntry, MissLog};
use crate::telemetry::{count_wram_reads, reads_counted, Telemetry};
use vstd::prelude::*;

verus! {

/// Microseconds between two VBLANK-IN interrupts.
pub const VBLANK_INTERVAL: u64 = 16_666;
/// Microseconds that vertical blanking lasts.
pub const VBLANK_DURATION: u64 = 2_417;
/// The bit of TVSTAT that shows vertical blanking.
pub const TVSTAT_VBLANK_BIT: u16 = 0x0008;
/// The BIOS ROM.
pub const BIOS_SIZE: usize = 0x8_0000;
/// The cache's data array.
pub const DATA_ARRAY_SIZE: usize = 0x1000;

/// A value written to one of the SCU DSP's ports.
#[derive(Debug, Clone, Copy, PartialEq, Eq, Structural)]
pub struct DspWrite {
    /// Offset of the port among the SCU registers.
    pub port: usize,
    pub val: u32,
}

/// What the CPU and the SCU DSP exchange.
pub struct ScuDspPorts {
    /// What the program control port reads as.
    pub control: u32,
    /// What the data RAM port reads as.
    pub data: u32,
    /// What the CPU has written since the DSP last looked.
    pub writes: Vec<DspWrite>,
}

/// The value of the DSP's ports.
pub struct DspView {
    pub control: u32,
    pub data: u32,
    pub writes: Seq<DspWrite>,
}

impl ScuDspPorts {
    pub open spec fn view(&self) -> DspView {
        DspView { control: self.control, data: self.data, writes: self.writes@ }
    }
}

/// Everything that an access of one SH-2 can reach.
pub struct Sh2Bus {
    pub work_ram: WorkRam,
    /// BIOS ROM. Reads behind its end give 0.
    pub bios: Arc<Vec<u8>>,
    /// The SMPC, if one is connected.
    pub smpc: Option<Smpc>,
    /// VDP1, if one is connected.
    pub vdp1: Option<Vdp1State>,
    /// The ports of the SCU DSP, if one is connected.
    pub scu_dsp: Option<ScuDspPorts>,
    pub onchip: Sh2OnChip,
    pub irq: IrqLines,
    /// The cache's address array.
    pub address_array: [u32; 256],
    /// The cache's data array.
    pub data_array: Vec<u8>,
    pub cycles: u64,
    /// Cycles that have not made a tick of the free-running timer yet.
    pub frc_leftover: u32,
    /// The timer's prescaler; above 7 it stands still.
    pub frc_shift: u32,
    pub unaligned_access_flag: bool,
    pub cdrom_command_executed: bool,
    /// Whether the sound CPU runs, if one is connected.
    pub m68k_control: Option<bool>,
    /// The cycle count to go on from, where the core had to wait for the bus.
    pub bus_grant: Option<u64>,
    /// The host's time in microseconds, as last reported.
    pub now_us: u64,
    /// When the next VBLANK-IN is due.
    pub next_vblank_due: Option<u64>,
    /// Whether nested DMA transfers or delay slots went deeper than
    /// `NESTING_LIMIT` and were cut off.
    pub nesting_overrun: bool,
    /// What has been counted of the accesses to high Work RAM.
    pub telemetry: Telemetry,
    /// The misses, where they are traced.
    pub trace: Option<MissLog>,
}

/// The value of a bus.
pub struct BusView {
    pub ram: Memory,
    pub bios: Seq<u8>,
    pub smpc: Option<SmpcView>,
    pub vdp1: Option<Vdp1State>,
    pub scu_dsp: Option<DspView>,
    pub onchip: Sh2OnChip,
    pub irq: IrqView,
    pub address_array: Seq<u32>,
    pub data_array: Seq<u8>,
    pub cycles: u64,
    pub frc_leftover: u32,
    pub frc_shift: u32,
    pub unaligned_access_flag: bool,
    pub cdrom_command_executed: bool,
    pub m68k_control: Option<bool>,
    pub bus_grant: Option<u64>,
    pub now_us: u64,
    pub next_vblank_due: Option<u64>,
    pub nesting_overrun: bool,
    pub telemetry: Telemetry,
    pub trace: Option<Seq<MissEntry>>,
}

impl BusView {
    pub open spec fn wf(self) -> bool {
        &&& self.ram.wf()
        &&& self.irq.wf()
        &&& self.smpc is Some ==> self.smpc.unwrap().wf()
        &&& self.address_array.len() == 256
        &&& self.data_array.len() == DATA_ARRAY_SIZE
        &&& self.frc_leftover < 0x1_0000
    }

    /// After an interrupt was raised.
    pub open spec fn raised(self, vector: u8, level: u8) -> BusView {
        BusView { irq: self.irq.sent(vector, level), ..self }
    }

    /// With the memories and the SMPC as a command left them.
    pub open spec fn with_world(self, w: SmpcWorld) -> BusView {
        BusView {
            smpc: Some(w.chip),
            ram: Memory { smpc_regs: w.regs, ..self.ram },
            ..self
        }
    }
}

/// TVSTAT: the VBLANK bit is set for the first part of each frame.
pub open spec fn tvstat_of(b: BusView) -> u16 {
    match b.next_vblank_due {
        None => 0,
        Some(due) => if due >= VBLANK_INTERVAL && due - VBLANK_INTERVAL <= b.now_us < due
            - VBLANK_INTERVAL + VBLANK_DURATION {
            TVSTAT_VBLANK_BIT
        } else {
            0
        },
    }
}

/// What a VDP1 register reads as: the status registers show their value, MODR
/// shows what the mode registers are set to, everything else is write-only.
pub open spec fn vdp1_reg(v: Vdp1State, off: int) -> u16 {
    let o = off % 0x100;
    if o == 0x10 {
        v.edsr
    } else if o == 0x12 {
        v.lopr
    } else if o == 0x14 {
        v.copr
    } else if o == 0x16 {
        (0x1000 + v.ptmr / 2 % 2 * 0x100 + v.fbcr / 2 % 16 * 16 + v.tvmr % 16) as u16
    } else {
        0
    }
}

/// VDP1 after a word was written to one of its registers. A write to ENDR stops
/// it; the status registers take nothing.
pub open spec fn vdp1_reg_written(v: Vdp1State, off: int, val: u16) -> Vdp1State {
    let o = off % 0x100;
    if o == 0x00 {
        Vdp1State { tvmr: val, ..v }
    } else if o == 0x02 {
        Vdp1State { fbcr: val, ..v }
    } else if o == 0x04 {
        Vdp1State { ptmr: val, ..v }
    } else if o == 0x06 {
        Vdp1State { ewdr: val, ..v }
    } else if o == 0x08 {
        Vdp1State { ewlr: val, ..v }
    } else if o == 0x0A {
        Vdp1State { ewrr: val, ..v }
    } else if o == 0x0C {
        Vdp1State { endr: val, status: Vdp1Status::IDLE, ..v }
    } else {
        v
    }
}

/// The BIOS byte at an offset of its window, 0 where the image ends early.
pub open spec fn bios_byte(bios: Seq<u8>, off: int) -> u8 {
    if off % (BIOS_SIZE as int) < bios.len() {
        bios[off % (BIOS_SIZE as int)]
    } else {
        0
    }
}

/// A byte read.
pub open spec fn read8(b: BusView, g: MemRegion) -> u8 {
    match g {
        MemRegion::Bios(off) => bios_byte(b.bios, off as int),
        MemRegion::Vdp1Regs(off) => if b.vdp1 is Some {
            0
        } else {
            mem_read8(b.ram, g)
        },
        MemRegion::Vdp2Regs(off) => if off % VDP2_REGS_SIZE == 4 {
            (tvstat_of(b) / 256) as u8
        } else if off % VDP2_REGS_SIZE == 5 {
            (tvstat_of(b) % 256) as u8
        } else {
            mem_read8(b.ram, g)
        },
        MemRegion::Smpc(off) => if off == reg::SF {
            match b.smpc {
                Some(s) => sf_value(SmpcWorld { chip: s, regs: b.ram.smpc_regs }),
                None => 0,
            }
        } else {
            mem_read8(b.ram, g)
        },
        MemRegion::PurgeArea => 0xFF,
        MemRegion::DataArray(off) => rd8(b.data_array, off as int, DATA_ARRAY_SIZE as int),
        MemRegion::OnChip(off) => onchip_read8(b.onchip, off as int),
        _ => mem_read8(b.ram, g),
    }
}

/// The bus after a byte read: reading the SMPC's busy flag drives its data bus, and reading
/// high Work RAM is counted.
pub open spec fn after_read8(b: BusView, g: MemRegion) -> BusView {
    match (g, b.smpc) {
        (MemRegion::HighRam(_), _) => BusView { telemetry: reads_counted(b.telemetry, 1), ..b },
        (MemRegion::Smpc(off), Some(s)) => if off == reg::SF {
            BusView { smpc: Some(SmpcView { bustmp: read8(b, g), ..s }), ..b }
        } else {
            b
        },
        _ => b,
    }
}

/// A word read.
pub open spec fn read16(b: BusView, g: MemRegion) -> u16 {
    match g {
        MemRegion::Bios(off) => if off % BIOS_SIZE + 1 < b.bios.len() {
            be16(b.bios[off as int % (BIOS_SIZE as int)], b.bios[off as int % (BIOS_SIZE as int) + 1])
        } else {
            0
        },
        MemRegion::Vdp1Regs(off) => match b.vdp1 {
            Some(v) => vdp1_reg(v, off as int),
            None => mem_read16(b.ram, g),
        },
        MemRegion::Vdp2Regs(off) => be16(
            read8(b, MemRegion::Vdp2Regs(off)),
            read8(b, MemRegion::Vdp2Regs((off + 1) as usize)),
        ),
        MemRegion::Smpc(off) => be16(
            read8(b, MemRegion::Smpc(off)),
            read8(b, MemRegion::Smpc((off + 1) as usize)),
        ),
        MemRegion::PurgeArea => 0xFFFF,
        MemRegion::DataArray(off) => rd16(b.data_array, off as int, DATA_ARRAY_SIZE as int),
        MemRegion::OnChip(off) => onchip_read16(b.onchip, off as int),
        _ => mem_read16(b.ram, g),
    }
}

/// The bus after a word read.
pub open spec fn after_read16(b: BusView, g: MemRegion) -> BusView {
    match g {
        MemRegion::HighRam(_) => BusView { telemetry: reads_counted(b.telemetry, 2), ..b },
        MemRegion::Smpc(off) => after_read8(
            after_read8(b, MemRegion::Smpc(off)),
            MemRegion::Smpc((off + 1) as usize),
        ),
        _ => b,
    }
}

/// A long word read.
pub open spec fn read32(b: BusView, g: MemRegion) -> u32 {
    match g {
        MemRegion::Bios(off) => {
            let i = off as int % (BIOS_SIZE as int);
            if i + 3 < b.bios.len() {
                be32(b.bios[i], b.bios[i + 1], b.bios[i + 2], b.bios[i + 3])
            } else {
                0
            }
        },
        MemRegion::Vdp1Regs(off) => if b.vdp1 is Some {
            0
        } else {
            mem_read32(b.ram, g)
        },
        MemRegion::Vdp2Regs(off) => be32(
            read8(b, MemRegion::Vdp2Regs(off)),
            read8(b, MemRegion::Vdp2Regs((off + 1) as usize)),
            read8(b, MemRegion::Vdp2Regs((off + 2) as usize)),
            read8(b, MemRegion::Vdp2Regs((off + 3) as usize)),
        ),
        MemRegion::Smpc(off) => be32(
            read8(b, MemRegion::Smpc(off)),
            read8(b, MemRegion::Smpc((off + 1) as usize)),
            read8(b, MemRegion::Smpc((off + 2) as usize)),
            read8(b, MemRegion::Smpc((off + 3) as usize)),
        ),
        MemRegion::ScuRegs(off) => match dsp_port_read(b, off as int % 0x100) {
            Some(v) => v,
            None => mem_read32(b.ram, g),
        },
        MemRegion::PurgeArea => 0xFFFF_FFFF,
        MemRegion::AddressArray(off) => b.address_array[off as int / 4],
        MemRegion::DataArray(off) => rd32(b.data_array, off as int, DATA_ARRAY_SIZE as int),
        MemRegion::OnChip(off) => onchip_read32(b.onchip, off as int),
        _ => mem_read32(b.ram, g),
    }
}

/// The bus after a long word read: reading a DMA channel's control register
/// acknowledges the end of its transfer.
pub open spec fn after_read32(b: BusView, g: MemRegion) -> BusView {
    match g {
        MemRegion::HighRam(_) => BusView { telemetry: reads_counted(b.telemetry, 4), ..b },
        MemRegion::Smpc(off) => after_read8(
            after_read8(
                after_read8(
                    after_read8(b, MemRegion::Smpc(off)),
                    MemRegion::Smpc((off + 1) as usize),
                ),
                MemRegion::Smpc((off + 2) as usize),
            ),
            MemRegion::Smpc((off + 3) as usize),
        ),
        MemRegion::OnChip(off) => if off == 0x18C {
            BusView { onchip: Sh2OnChip { chcr0m: 0, ..b.onchip }, ..b }
        } else if off == 0x19C {
            BusView { onchip: Sh2OnChip { chcr1m: 0, ..b.onchip }, ..b }
        } else {
            b
        },
        _ => b,
    }
}

/// What a long word read of an SCU DSP port gives, if that is one.
pub open spec fn dsp_port_read(b: BusView, off: int) -> Option<u32> {
    match b.scu_dsp {
        Some(d) => if off == 0x80 {
            Some(d.control)
        } else if off == 0x8C {
            Some(d.data)
        } else {
            None
        },
        None => None,
    }
}

/// Whether an offset is an SCU DSP port that can be written.
pub open spec fn is_dsp_port(off: int) -> bool {
    off == 0x80 || off == 0x84 || off == 0x88 || off == 0x8C
}

/// The bus after a long word was written to an SCU DSP port. Starting the DSP
/// wakes its core.
pub open spec fn dsp_port_written(b: BusView, off: int, val: u32) -> BusView {
    let d = b.scu_dsp.unwrap();
    let b1 = BusView {
        scu_dsp: Some(
            DspView { writes: d.writes.push(DspWrite { port: off as usize, val }), ..d },
        ),
        ..b
    };
    if off == 0x80 && val / 0x1_0000 % 2 == 1 {
        BusView { irq: b1.irq.asked(6, true), ..b1 }
    } else {
        b1
    }
}

/// What a command of the SMPC does outside of it.
pub open spec fn effects_applied(b: BusView, e: SmpcEffects) -> BusView {
    let i1 = if e.start_slave {
        b.irq.asked(1, true)
    } else {
        b.irq
    };
    let i2 = if e.stop_slave {
        i1.asked(1, false)
    } else {
        i1
    };
    let i3 = if e.system_manager_irq {
        i2.sent(SMPC_IRQ_VECTOR, SMPC_IRQ_LEVEL)
    } else {
        i2
    };
    BusView {
        irq: i3,
        m68k_control: if b.m68k_control is Some && e.sound_off {
            Some(false)
        } else if b.m68k_control is Some && e.sound_on {
            Some(true)
        } else {
            b.m68k_control
        },
        ..b
    }
}

/// What INTBACK answers where no SMPC is connected: a system in good order, made
/// for Japan.
pub open spec fn fallback_status() -> Seq<u8> {
    seq![0x80u8, 0u8, 0u8, 0u8, 0u8, 0u8, 0u8, 0u8, 0u8, 1u8, 0x34u8, 0u8]
}

/// The bus after a command where no SMPC is connected.
pub open spec fn fallback_command(b: BusView, command: u8) -> BusView {
    if command == cmd::SSHON {
        BusView { irq: b.irq.asked(1, true), ..b }
    } else if command == cmd::SSHOFF {
        BusView { irq: b.irq.asked(1, false), ..b }
    } else if command == cmd::SNDON && b.m68k_control is Some {
        BusView { m68k_control: Some(true), ..b }
    } else if command == cmd::SNDOFF && b.m68k_control is Some {
        BusView { m68k_control: Some(false), ..b }
    } else if command == cmd::INTBACK {
        BusView {
            ram: Memory {
                smpc_regs: oregs_filled(b.ram.smpc_regs, fallback_status()).update(
                    reg::SR as int,
                    0x6F,
                ),
                ..b.ram
            },
            ..b
        }.raised(SMPC_IRQ_VECTOR, SMPC_IRQ_LEVEL)
    } else {
        b
    }
}

/// The bus after a byte was written to an SMPC register. A write to COMREG
/// carries out the command.
#[verifier::opaque]
pub open spec fn smpc_written(b: BusView, off: int, val: u8) -> BusView {
    let old_val = b.ram.smpc_regs[off];
    let regs = b.ram.smpc_regs.update(off, val);
    match b.smpc {
        Some(s) => {
            let w = register_written(SmpcWorld { chip: s, regs }, off, val, old_val);
            if off == reg::COMREG {
                effects_applied(b.with_world(command_done(w, val)), command_effects(val))
            } else {
                b.with_world(w)
            }
        },
        None => {
            let b1 = BusView { ram: Memory { smpc_regs: regs, ..b.ram }, ..b };
            if off == reg::COMREG {
                fallback_command(b1, val)
            } else {
                b1
            }
        },
    }
}

/// Vector and level of the timer's compare interrupts.
pub open spec fn compare_raised(b: BusView) -> BusView {
    b.raised((b.onchip.vcrc & 0x7F) as u8, ((b.onchip.iprb >> 8) & 0xF) as u8)
}

/// Whether the timer can count that many cycles at once.
pub open spec fn timer_fits(b: BusView, cycles: int) -> bool {
    b.frc_shift <= 7 ==> {
        &&& cycles + b.frc_leftover <= u32::MAX
        &&& b.onchip.frc + (cycles + b.frc_leftover) / frt_unit(b.frc_shift as int) <= u32::MAX
    }
}

/// It can always count what an instruction or an access takes.
pub proof fn timer_fits_short_waits(b: BusView, cycles: int)
    requires
        b.wf(),
        0 <= cycles <= 0x1_0000,
    ensures
        timer_fits(b, cycles),
{
}

/// The bus after the free-running timer ran for some cycles.
#[verifier::opaque]
pub open spec fn timer_run(b: BusView, cycles: int) -> BusView {
    if b.frc_shift > 7 {
        b
    } else {
        let unit = frt_unit(b.frc_shift as int);
        let total = cycles + b.frc_leftover;
        let before = b.onchip.frc as int;
        let raw = before + total / unit;
        let count = raw % 0x1_0000;
        // Output compare A, which may also clear the counter.
        let hit_a = count >= b.onchip.ocra && before < b.onchip.ocra;
        let cleared = hit_a && b.onchip.ftcsr & 0x01 != 0;
        let b1 = if hit_a {
            let m = BusView {
                onchip: Sh2OnChip { ftcsr: b.onchip.ftcsr | 0x08, ..b.onchip },
                ..b
            };
            if b.onchip.tier & 0x08 != 0 {
                compare_raised(m)
            } else {
                m
            }
        } else {
            b
        };
        let count1 = if cleared {
            0
        } else {
            count
        };
        // Output compare B.
        let hit_b = count1 >= b.onchip.ocrb && before < b.onchip.ocrb;
        let b2 = if hit_b {
            let m = BusView {
                onchip: Sh2OnChip { ftcsr: b1.onchip.ftcsr | 0x04, ..b1.onchip },
                ..b1
            };
            if b.onchip.tier & 0x04 != 0 {
                compare_raised(m)
            } else {
                m
            }
        } else {
            b1
        };
        // Overflow.
        let b3 = if raw > 0xFFFF {
            let m = BusView {
                onchip: Sh2OnChip { ftcsr: b2.onchip.ftcsr | 0x02, ..b2.onchip },
                ..b2
            };
            if b.onchip.tier & 0x02 != 0 {
                m.raised(
                    ((b.onchip.vcrd >> 8) & 0x7F) as u8,
                    ((b.onchip.iprb >> 8) & 0xF) as u8,
                )
            } else {
                m
            }
        } else {
            b2
        };
        BusView {
            onchip: Sh2OnChip { frc: count1 as u16, ..b3.onchip },
            frc_leftover: if cleared {
                0
            } else {
                (total % unit) as u32
            },
            ..b3
        }
    }
}

/// The bus after the core has the bus: it goes on from the granted cycle.
pub open spec fn bus_granted(b: BusView) -> BusView {
    match b.bus_grant {
        Some(c) => BusView { cycles: c, bus_grant: None, ..b },
        None => b,
    }
}

/// The bus after some wait states.
pub open spec fn waited(b: BusView, wait: u32) -> BusView {
    if wait > 0 {
        timer_run(BusView { cycles: b.cycles.wrapping_add(wait as u64), ..b }, wait as int)
    } else {
        b
    }
}

/// The bus as an access begins: an address off the grid is noted, and a miss is traced.
pub open spec fn access_begun(b: BusView, address: u32, is_write: bool, width: int) -> BusView {
    BusView {
        unaligned_access_flag: b.unaligned_access_flag || address as int % width != 0,
        trace: traced(b.trace, address, is_write, width as u8),
        ..b
    }
}

/// The bus before the data of a read are fetched.
pub open spec fn read_started(b: BusView, address: u32, width: int) -> BusView {
    waited(bus_granted(access_begun(b, address, false, width)), read_wait(address))
}

/// The bus before the data of a store go out. A store that covers address
/// 0x06001000 is noted.
pub open spec fn write_started(b: BusView, address: u32, width: int) -> BusView {
    let b1 = waited(bus_granted(access_begun(b, address, true, width)), write_wait(address));
    if address == 0x0600_1000 || (width == 4 && address <= 0x0600_1000 && address + 4
        > 0x0600_1000) {
        BusView { cdrom_command_executed: true, ..b1 }
    } else {
        b1
    }
}

impl Sh2Bus {
    pub open spec fn view(&self) -> BusView {
        BusView {
            ram: self.work_ram@,
            bios: self.bios@,
            smpc: match self.smpc {
                Some(s) => Some(s@),
                None => None,
            },
            vdp1: self.vdp1,
            scu_dsp: match self.scu_dsp {
                Some(d) => Some(d@),
                None => None,
            },
            onchip: self.onchip,
            irq: self.irq@,
            address_array: self.address_array@,
            data_array: self.data_array@,
            cycles: self.cycles,
            frc_leftover: self.frc_leftover,
            frc_shift: self.frc_shift,
            unaligned_access_flag: self.unaligned_access_flag,
            cdrom_command_executed: self.cdrom_command_executed,
            m68k_control: self.m68k_control,
            bus_grant: self.bus_grant,
            now_us: self.now_us,
            next_vblank_due: self.next_vblank_due,
            nesting_overrun: self.nesting_overrun,
            telemetry: self.telemetry,
            trace: match self.trace {
                Some(log) => Some(log@),
                None => None,
            },
        }
    }

    pub open spec fn wf(&self) -> bool {
        self@.wf()
    }

    /// TVSTAT, from where the frame is.
    pub fn tvstat_word(&self) -> (r: u16)
        ensures
            r == tvstat_of(self@),
    {
        match self.next_vblank_due {
            None => 0,
            Some(due) => {
                if due < VBLANK_INTERVAL {
                    return 0;
                }
                let period_start: u64 = due - VBLANK_INTERVAL;
                if self.now_us >= period_start && self.now_us - period_start < VBLANK_DURATION {
                    TVSTAT_VBLANK_BIT
                } else {
                    0
                }
            },
        }
    }

    /// Raise an interrupt.
    pub fn queue_send(&mut self, vector: u8, level: u8)
        requires
            old(self).wf(),
        ensures
            final(self).wf(),
            final(self)@ == old(self)@.raised(vector, level),
    {
        self.irq.send(vector, level);
    }

    /// Let the free-running timer run for some cycles.
    #[verifier::rlimit(30)]
    pub fn frt_exec(&mut self, cycles: u32)
        requires
            old(self).wf(),
            timer_fits(old(self)@, cycles as int),
        ensures
            final(self).wf(),
            final(self)@ == timer_run(old(self)@, cycles as int),
    {
        reveal(timer_run);
        if self.frc_shift > 7 {
            return;
        }
        let unit: u32 = timer_unit(self.frc_shift);
        let frcold: u32 = self.onchip.frc as u32;
        let total: u32 = cycles + self.frc_leftover;
        let raw: u32 = frcold + total / unit;
        let mut left: u32 = total % unit;
        let mut count: u32 = raw % 0x1_0000;
        let cclra: bool = self.onchip.ftcsr & 0x01 != 0;
        if count >= self.onchip.ocra as u32 && frcold < self.onchip.ocra as u32 {
            self.onchip.ftcsr = self.onchip.ftcsr | 0x08;
            if self.onchip.tier & 0x08 != 0 {
                let vector: u8 = (self.onchip.vcrc & 0x7F) as u8;
                let level: u8 = ((self.onchip.iprb >> 8) & 0xF) as u8;
                self.irq.send(vector, level);
            }
            if cclra {
                count = 0;
                left = 0;
            }
        }
        if count >= self.onchip.ocrb as u32 && frcold < self.onchip.ocrb as u32 {
            self.onchip.ftcsr = self.onchip.ftcsr | 0x04;
            if self.onchip.tier & 0x04 != 0 {
                let vector: u8 = (self.onchip.vcrc & 0x7F) as u8;
                let level: u8 = ((self.onchip.iprb >> 8) & 0xF) as u8;
                self.irq.send(vector, level);
            }
        }
        if raw > 0xFFFF {
            self.onchip.ftcsr = self.onchip.ftcsr | 0x02;
            if self.onchip.tier & 0x02 != 0 {
                let vector: u8 = ((self.onchip.vcrd >> 8) & 0x7F) as u8;
                let level: u8 = ((self.onchip.iprb >> 8) & 0xF) as u8;
                self.irq.send(vector, level);
            }
        }
        self.onchip.frc = count as u16;
        self.frc_leftover = left;
    }

    /// Begin an access: note an address off the grid, and trace a miss.
    fn begin_access(&mut self, address: u32, is_write: bool, width: u32)
        requires
            old(self).wf(),
            width == 1 || width == 2 || width == 4,
        ensures
            final(self).wf(),
            final(self)@ == access_begun(old(self)@, address, is_write, width as int),
    {
        reveal(traced);
        match &mut self.trace {
            Some(log) => log.note(address, is_write, width as u8),
            None => {},
        }
        if address % width != 0 {
            self.unaligned_access_flag = true;
        }
    }

    /// Wait for the bus.
    pub fn bus_wait(&mut self)
        requires
            old(self).wf(),
        ensures
            final(self).wf(),
            final(self)@ == bus_granted(old(self)@),
    {
        if let Some(caught_up) = self.bus_grant {
            self.cycles = caught_up;
            self.bus_grant = None;
        }
    }

    fn add_wait(&mut self, wait: u32)
        requires
            old(self).wf(),
            wait <= 50,
        ensures
            final(self).wf(),
            final(self)@ == waited(old(self)@, wait),
    {
        if wait > 0 {
            self.cycles = self.cycles.wrapping_add(wait as u64);
            proof {
                timer_fits_short_waits(self@, wait as int);
            }
            self.frt_exec(wait);
        }
    }

    /// Charge the wait states of a read.
    fn add_wait_states_r(&mut self, address: u32)
        requires
            old(self).wf(),
        ensures
            final(self).wf(),
            final(self)@ == waited(old(self)@, read_wait(address)),
    {
        let wait: u32 = mem_cycles_r(address);
        self.add_wait(wait);
    }

    /// Charge the wait states of a store.
    fn add_wait_states_w(&mut self, address: u32)
        requires
            old(self).wf(),
        ensures
            final(self).wf(),
            final(self)@ == waited(old(self)@, write_wait(address)),
    {
        let wait: u32 = mem_cycles_w(address);
        self.add_wait(wait);
    }

    /// Read a byte of a region.
    pub fn raw_read_byte_region(&mut self, region: MemRegion) -> (r: u8)
        requires
            old(self).wf(),
            region_ok_near(region),
        ensures
            final(self).wf(),
            r == read8(old(self)@, region),
            final(self)@ == after_read8(old(self)@, region),
    {
        match region {
            MemRegion::Bios(off) => {
                let index: usize = off % BIOS_SIZE;
                if index < self.bios.len() {
                    self.bios[index]
                } else {
                    0
                }
            },
            MemRegion::Vdp1Regs(_) => {
                if self.vdp1.is_some() {
                    0
                } else {
                    ram_read8(&self.work_ram, region)
                }
            },
            MemRegion::Vdp2Regs(off) => {
                let masked_off: usize = off % VDP2_REGS_SIZE;
                if masked_off == 4 {
                    (self.tvstat_word() / 256) as u8
                } else if masked_off == 5 {
                    (self.tvstat_word() % 256) as u8
                } else {
                    ram_read8(&self.work_ram, region)
                }
            },
            MemRegion::Smpc(off) => {
                if off == reg::SF {
                    match &mut self.smpc {
                        Some(smpc) => smpc.read_sf(&self.work_ram),
                        None => 0,
                    }
                } else {
                    ram_read8(&self.work_ram, region)
                }
            },
            MemRegion::PurgeArea => 0xFF,
            MemRegion::DataArray(off) => get8(&self.data_array, off, DATA_ARRAY_SIZE),
            MemRegion::OnChip(off) => read_onchip_byte(&self.onchip, off),
            MemRegion::HighRam(_) => {
                count_wram_reads(&mut self.telemetry, 1);
                ram_read8(&self.work_ram, region)
            },
            _ => ram_read8(&self.work_ram, region),
        }
    }

    /// Read a word of a region.
    pub fn raw_read_word_region(&mut self, region: MemRegion) -> (r: u16)
        requires
            old(self).wf(),
            region_ok(region),
        ensures
            final(self).wf(),
            r == read16(old(self)@, region),
            final(self)@ == after_read16(old(self)@, region),
    {
        match region {
            MemRegion::Bios(off) => {
                let index: usize = off % BIOS_SIZE;
                if index + 1 < self.bios.len() {
                    from_be16(self.bios[index], self.bios[index + 1])
                } else {
                    0
                }
            },
            MemRegion::Vdp1Regs(off) => {
                match &self.vdp1 {
                    Some(v) => read_vdp1_reg(v, off),
                    None => ram_read16(&self.work_ram, region),
                }
            },
            MemRegion::Vdp2Regs(off) => {
                let b0: u8 = self.raw_read_byte_region(MemRegion::Vdp2Regs(off));
                let b1: u8 = self.raw_read_byte_region(MemRegion::Vdp2Regs(off + 1));
                from_be16(b0, b1)
            },
            MemRegion::Smpc(off) => {
                let b0: u8 = self.raw_read_byte_region(MemRegion::Smpc(off));
                let b1: u8 = self.raw_read_byte_region(MemRegion::Smpc(off + 1));
                from_be16(b0, b1)
            },
            MemRegion::PurgeArea => 0xFFFF,
            MemRegion::DataArray(off) => get16(&self.data_array, off, DATA_ARRAY_SIZE),
            MemRegion::OnChip(off) => read_onchip_word(&self.onchip, off),
            MemRegion::HighRam(_) => {
                count_wram_reads(&mut self.telemetry, 2);
                ram_read16(&self.work_ram, region)
            },
            _ => ram_read16(&self.work_ram, region),
        }
    }

    /// Read a long word of a region.
    pub fn raw_read_long_region(&mut self, region: MemRegion) -> (r: u32)
        requires
            old(self).wf(),
            region_ok(region),
        ensures
            final(self).wf(),
            r == read32(old(self)@, region),
            final(self)@ == after_read32(old(self)@, region),
    {
        match region {
            MemRegion::Bios(off) => {
                let index: usize = off % BIOS_SIZE;
                if index + 3 < self.bios.len() {
                    from_be32(
                        self.bios[index],
                        self.bios[index + 1],
                        self.bios[index + 2],
                        self.bios[index + 3],
                    )
                } else {
                    0
                }
            },
            MemRegion::Vdp1Regs(_) => {
                if self.vdp1.is_some() {
                    0
                } else {
                    ram_read32(&self.work_ram, region)
                }
            },
            MemRegion::Vdp2Regs(off) => {
                let b0: u8 = self.raw_read_byte_region(MemRegion::Vdp2Regs(off));
                let b1: u8 = self.raw_read_byte_region(MemRegion::Vdp2Regs(off + 1));
                let b2: u8 = self.raw_read_byte_region(MemRegion::Vdp2Regs(off + 2));
                let b3: u8 = self.raw_read_byte_region(MemRegion::Vdp2Regs(off + 3));
                from_be32(b0, b1, b2, b3)
            },
            MemRegion::Smpc(off) => {
                let b0: u8 = self.raw_read_byte_region(MemRegion::Smpc(off));
                let b1: u8 = self.raw_read_byte_region(MemRegion::Smpc(off + 1));
                let b2: u8 = self.raw_read_byte_region(MemRegion::Smpc(off + 2));
                let b3: u8 = self.raw_read_byte_region(MemRegion::Smpc(off + 3));
                from_be32(b0, b1, b2, b3)
            },
            MemRegion::ScuRegs(off) => {
                match self.read_scu_dsp_port(off % 0x100) {
                    Some(v) => v,
                    None => ram_read32(&self.work_ram, region),
                }
            },
            MemRegion::PurgeArea => 0xFFFF_FFFF,
            MemRegion::AddressArray(off) => self.address_array[off / 4],
            MemRegion::DataArray(off) => get32(&self.data_array, off, DATA_ARRAY_SIZE),
            MemRegion::OnChip(off) => {
                let val: u32 = read_onchip(&self.onchip, off);
                if off == 0x18C {
                    self.onchip.chcr0m = 0;
                } else if off == 0x19C {
                    self.onchip.chcr1m = 0;
                }
                val
            },
            MemRegion::HighRam(_) => {
                count_wram_reads(&mut self.telemetry, 4);
                ram_read32(&self.work_ram, region)
            },
            _ => ram_read32(&self.work_ram, region),
        }
    }

    /// Read a byte, without wait states.
    pub fn raw_read_byte(&mut self, address: u32) -> (r: u8)
        requires
            old(self).wf(),
        ensures
            final(self).wf(),
            r == read8(old(self)@, region_of(address)),
            final(self)@ == after_read8(old(self)@, region_of(address)),
    {
        let region = translate(address);
        self.raw_read_byte_region(region)
    }

    /// Read a word, without wait states.
    pub fn raw_read_word(&mut self, address: u32) -> (r: u16)
        requires
            old(self).wf(),
        ensures
            final(self).wf(),
            r == read16(old(self)@, region_of(address)),
            final(self)@ == after_read16(old(self)@, region_of(address)),
    {
        let region = translate(address);
        self.raw_read_word_region(region)
    }

    /// Read a long word, without wait states.
    pub fn raw_read_long(&mut self, address: u32) -> (r: u32)
        requires
            old(self).wf(),
        ensures
            final(self).wf(),
            r == read32(old(self)@, region_of(address)),
            final(self)@ == after_read32(old(self)@, region_of(address)),
    {
        let region = translate(address);
        self.raw_read_long_region(region)
    }

    /// Read a byte.
    pub fn read_byte(&mut self, address: u32) -> (r: u8)
        requires
            old(self).wf(),
        ensures
            final(self).wf(),
            r == load8(old(self)@, address).1,
            final(self)@ == load8(old(self)@, address).0,
    {
        reveal(load8);
        self.begin_access(address, false, 1);
        self.bus_wait();
        self.add_wait_states_r(address);
        self.raw_read_byte(address)
    }

    /// Read a word. An odd address is noted and read all the same.
    pub fn read_word(&mut self, address: u32) -> (r: u16)
        requires
            old(self).wf(),
        ensures
            final(self).wf(),
            r == load16(old(self)@, address).1,
            final(self)@ == load16(old(self)@, address).0,
    {
        reveal(load16);
        self.begin_access(address, false, 2);
        self.bus_wait();
        self.add_wait_states_r(address);
        self.raw_read_word(address)
    }

    /// Read a long word. An address off the long word grid is noted and read all
    /// the same.
    pub fn read_long(&mut self, address: u32) -> (r: u32)
        requires
            old(self).wf(),
        ensures
            final(self).wf(),
            r == load32(old(self)@, address).1,
            final(self)@ == load32(old(self)@, address).0,
    {
        reveal(load32);
        self.begin_access(address, false, 4);
        self.bus_wait();
        self.add_wait_states_r(address);
        self.raw_read_long(address)
    }

    /// Do what comes before the data of a store.
    pub fn begin_write(&mut self, address: u32, width: u32)
        requires
            old(self).wf(),
            width == 1 || width == 2 || width == 4,
        ensures
            final(self).wf(),
            final(self)@ == write_started(old(self)@, address, width as int),
    {
        self.begin_access(address, true, width);
        self.bus_wait();
        self.add_wait_states_w(address);
        if address == 0x0600_1000 || (width == 4 && address <= 0x0600_1000 && address + 4
            > 0x0600_1000) {
            self.cdrom_command_executed = true;
        }
    }

    /// What a port of the SCU DSP reads as, if the offset is one.
    fn read_scu_dsp_port(&self, off: usize) -> (r: Option<u32>)
        ensures
            r == dsp_port_read(self@, off as int),
    {
        match &self.scu_dsp {
            Some(dsp) => {
                if off == 0x80 {
                    Some(dsp.control)
                } else if off == 0x8C {
                    Some(dsp.data)
                } else {
                    None
                }
            },
            None => None,
        }
    }

    /// Write a port of the SCU DSP. Returns whether the offset is one and a DSP
    /// is connected.
    pub fn write_scu_dsp_port(&mut self, off: usize, val: u32) -> (r: bool)
        requires
            old(self).wf(),
        ensures
            final(self).wf(),
            r == (old(self)@.scu_dsp is Some && is_dsp_port(off as int)),
            r ==> final(self)@ == dsp_port_written(old(self)@, off as int, val),
            !r ==> final(self)@ == old(self)@,
    {
        if !(off == 0x80 || off == 0x84 || off == 0x88 || off == 0x8C) {
            return false;
        }
        match &mut self.scu_dsp {
            Some(dsp) => {
                dsp.writes.push(DspWrite { port: off, val });
            },
            None => {
                return false;
            },
        }
        if off == 0x80 && val / 0x1_0000 % 2 == 1 {
            self.irq.ask(6, true);
        }
        true
    }

    /// Do what a command of the SMPC asks for outside of it.
    pub fn apply_smpc_effects(&mut self, effects: SmpcEffects)
        requires
            old(self).wf(),
        ensures
            final(self).wf(),
            final(self)@ == effects_applied(old(self)@, effects),
    {
        if effects.start_slave {
            self.irq.ask(1, true);
        }
        if effects.stop_slave {
            self.irq.ask(1, false);
        }
        if self.m68k_control.is_some() {
            if effects.sound_on {
                self.m68k_control = Some(true);
            }
            if effects.sound_off {
                self.m68k_control = Some(false);
            }
        }
        if effects.system_manager_irq {
            self.irq.send(SMPC_IRQ_VECTOR, SMPC_IRQ_LEVEL);
        }
    }

    /// Carry out a command where no SMPC is connected.
    fn smpc_execute_command(&mut self, command: u8)
        requires
            old(self).wf(),
        ensures
            final(self).wf(),
            final(self)@ == fallback_command(old(self)@, command),
    {
        if command == cmd::SSHON {
            self.irq.ask(1, true);
        } else if command == cmd::SSHOFF {
            self.irq.ask(1, false);
        } else if command == cmd::SNDON {
            if self.m68k_control.is_some() {
                self.m68k_control = Some(true);
            }
        } else if command == cmd::SNDOFF {
            if self.m68k_control.is_some() {
                self.m68k_control = Some(false);
            }
        } else if command == cmd::INTBACK {
            fallback_oregs(&mut self.work_ram.smpc_regs);
            self.irq.send(SMPC_IRQ_VECTOR, SMPC_IRQ_LEVEL);
        }
    }

    /// Write a byte to an SMPC register.
    #[verifier::rlimit(40)]
    pub fn write_smpc(&mut self, off: usize, val: u8)
        requires
            old(self).wf(),
            off < SMPC_REGS_SIZE,
        ensures
            final(self).wf(),
            final(self)@ == smpc_written(old(self)@, off as int, val),
    {
        reveal(smpc_written);
        let old_val: u8 = self.work_ram.smpc_regs[off];
        self.work_ram.smpc_regs[off] = val;
        let mut effects: Option<SmpcEffects> = None;
        match &mut self.smpc {
            Some(smpc) => {
                smpc.on_register_write(off, val, old_val, &mut self.work_ram);
                if off == reg::COMREG {
                    effects = Some(smpc.execute_command(val, &mut self.work_ram));
                }
            },
            None => {},
        }
        if off == reg::COMREG {
            match effects {
                Some(e) => self.apply_smpc_effects(e),
                None => self.smpc_execute_command(val),
            }
        }
    }
}

/// Read a VDP1 register.
fn read_vdp1_reg(v: &Vdp1State, off: usize) -> (r: u16)
    ensures
        r == vdp1_reg(*v, off as int),
{
    let o: usize = off % 0x100;
    if o == 0x10 {
        v.edsr
    } else if o == 0x12 {
        v.lopr
    } else if o == 0x14 {
        v.copr
    } else if o == 0x16 {
        0x1000 + v.ptmr / 2 % 2 * 0x100 + v.fbcr / 2 % 16 * 16 + v.tvmr % 16
    } else {
        0
    }
}

/// Write a VDP1 register.
pub fn write_vdp1_reg(v: &mut Vdp1State, off: usize, val: u16)
    ensures
        *final(v) == vdp1_reg_written(*old(v), off as int, val),
{
    let o: usize = off % 0x100;
    if o == 0x00 {
        v.tvmr = val;
    } else if o == 0x02 {
        v.fbcr = val;
    } else if o == 0x04 {
        v.ptmr = val;
    } else if o == 0x06 {
        v.ewdr = val;
    } else if o == 0x08 {
        v.ewlr = val;
    } else if o == 0x0A {
        v.ewrr = val;
    } else if o == 0x0C {
        v.endr = val;
        v.status = Vdp1Status::IDLE;
    }
}

/// Fill the output registers with the answer of a missing SMPC.
fn fallback_oregs(regs: &mut Vec<u8>)
    requires
        old(regs)@.len() == SMPC_REGS_SIZE,
    ensures
        final(regs)@ == oregs_filled(old(regs)@, fallback_status()).update(reg::SR as int, 0x6F),
{
    regs[reg::OREG_BASE] = 0x80;
    let mut i: usize = 1;
    while i <= 8
        invariant
            1 <= i <= 9,
            old(regs)@.len() == SMPC_REGS_SIZE,
            regs@ == oregs_filled(old(regs)@, fallback_status().take(i as int)),
        decreases 9 - i,
    {
        regs[reg::OREG_BASE + i * 2] = 0;
        assert(regs@ =~= oregs_filled(old(regs)@, fallback_status().take(i + 1)));
        i += 1;
    }
    regs[reg::OREG_BASE + 18] = 1;
    regs[reg::OREG_BASE + 20] = 0x34;
    regs[reg::OREG_BASE + 22] = 0;
    assert(regs@ =~= oregs_filled(old(regs)@, fallback_status()));
    regs[reg::SR] = 0x6F;
}

/// The bus after a byte read, and the byte.
#[verifier::opaque]
pub open spec fn load8(b: BusView, address: u32) -> (BusView, u8) {
    let b1 = read_started(b, address, 1);
    (after_read8(b1, region_of(address)), read8(b1, region_of(address)))
}

/// The bus after a word read, and the word.
#[verifier::opaque]
pub open spec fn load16(b: BusView, address: u32) -> (BusView, u16) {
    let b1 = read_started(b, address, 2);
    (after_read16(b1, region_of(address)), read16(b1, region_of(address)))
}

/// The bus after a long word read, and the long word.
#[verifier::opaque]
pub open spec fn load32(b: BusView, address: u32) -> (BusView, u32) {
    let b1 = read_started(b, address, 4);
    (after_read32(b1, region_of(address)), read32(b1, region_of(address)))
}

} // verus!
