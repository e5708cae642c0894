//! Fetching and carrying out instructions, delay slots, interrupts and reset.

use crate::bytes::{get16, rd16, zeroed, zeros};
use crate::interrupts::{queue_top, PendingInterrupt};
use crate::sh2::alu::{
    branch_target, sign_extend12, sign_extend8, signed_disp, target_of, SR_WRITE_MASK,
};
use crate::sh2::bus::{
    after_read16, load16, load32, load8, read16, timer_fits, timer_fits_short_waits, timer_run,
    waited, BusView, Sh2Bus, BIOS_SIZE, DATA_ARRAY_SIZE, VBLANK_DURATION, VBLANK_INTERVAL,
};
use crate::sh2::exec::{entered, op_d8, op_n, plain_executed};
use crate::sh2::irq::{
    irq_init, line_taken, sound_line_polled, IrqLines, IrqView, ThreadRequest, NMI_LEVEL,
    NMI_VECTOR, VBLANK_IN_LEVEL, VBLANK_IN_VECTOR, VBLANK_OUT_LEVEL, VBLANK_OUT_VECTOR,
};
use crate::sh2::region::region_of;
use crate::sh2::store::{dma_worked, store16, store32, store8, NESTING_LIMIT};
use crate::sh2::{Machine, Sh2};
use crate::sh2_onchip::{onchip_init, Sh2OnChip};
use crate::shared_buffers::WorkRam;
use std::sync::Arc;
use crate::telemetry::{counts_nothing, Telemetry};
use vstd::prelude::*;

verus! {

/// Cycles that an instruction takes by itself.
pub open spec fn base_cycles(op: u16, t: bool) -> u32 {
    let top = op / 0x1000;
    let high = op / 0x100;
    let low = op % 0x100;
    let d4 = op % 0x10;
    if high == 0xC3 {
        8
    } else if (top == 0x4 && low == 0x1B) || op == 0x002B {
        4
    } else if (top == 0x4 && (low == 0x07 || low == 0x17 || low == 0x27)) || 0xCC <= high <= 0xCF
        || (top == 0x0 && (d4 == 0xF || d4 == 0xE)) || op == 0x001B {
        3
    } else if high == 0x89 {
        if t {
            3
        } else {
            1
        }
    } else if high == 0x8B {
        if t {
            1
        } else {
            3
        }
    } else if high == 0x8D {
        if t {
            2
        } else {
            1
        }
    } else if high == 0x8F {
        if t {
            1
        } else {
            2
        }
    } else if top == 0xA || top == 0xB || (top == 0x4 && (low == 0x2B || low == 0x0B)) || op
        == 0x000B || (top == 0x0 && (low == 0x23 || low == 0x03 || d4 == 0x7)) || (top == 0x3 && (d4
        == 0xD || d4 == 0x5)) {
        2
    } else {
        1
    }
}

/// The machine at the delay slot of a branch, and where the branch goes; nothing
/// for an opcode that does not branch with a delay slot.
#[verifier::opaque]
pub open spec fn branch_of(m: Machine, op: u16) -> Option<(Machine, u32)> {
    let top = op / 0x1000;
    let d8 = op_d8(op);
    let rn = m.r[op_n(op)];
    let next = m.pc.wrapping_add(2);
    if top == 0x0 && d8 == 0x0B {
        // RTS
        Some((m, m.pr))
    } else if top == 0x0 && d8 == 0x23 {
        // BRAF
        Some((m, next.wrapping_add(rn)))
    } else if top == 0x0 && d8 == 0x03 {
        // BSRF
        Some((Machine { pr: next, ..m }, next.wrapping_add(rn)))
    } else if top == 0x0 && d8 == 0x2B {
        // RTE
        let sp = m.r[15];
        let (b1, pc) = load32(m.bus, sp);
        let (b2, sr) = load32(b1, sp.wrapping_add(4));
        Some(
            (
                Machine {
                    r: m.r.update(15, sp.wrapping_add(8)),
                    sr: sr & SR_WRITE_MASK,
                    bus: b2,
                    ..m
                },
                pc,
            ),
        )
    } else if top == 0xA {
        // BRA
        Some((m, branch_target(m.pc, signed_disp(op as int % 0x1000, 0x800))))
    } else if top == 0xB {
        // BSR
        Some(
            (
                Machine { pr: next, ..m },
                branch_target(m.pc, signed_disp(op as int % 0x1000, 0x800)),
            ),
        )
    } else if (op / 0x100 == 0x8D && m.t()) || (op / 0x100 == 0x8F && !m.t()) {
        // BT/S, BF/S
        Some((m, branch_target(m.pc, signed_disp(d8, 0x80))))
    } else if top == 0x4 && d8 == 0x0B {
        // JSR
        Some((Machine { pr: next, ..m }, rn))
    } else if top == 0x4 && d8 == 0x2B {
        // JMP
        Some((m, rn))
    } else {
        None
    }
}

/// The machine after an instruction.
pub open spec fn executed(m: Machine, op: u16, depth: nat) -> Machine
    decreases depth, 1nat,
{
    match branch_of(m, op) {
        Some((m1, target)) => delay_slot(m1, target, depth),
        None => plain_executed(m, op),
    }
}

/// The machine after the instruction in the delay slot ran and the branch was
/// taken.
pub open spec fn delay_slot(m: Machine, target: u32, depth: nat) -> Machine
    decreases depth, 0nat,
{
    if depth == 0 {
        Machine { pc: target, bus: BusView { nesting_overrun: true, ..m.bus }, ..m }
    } else {
        let (b, op) = load16(m.bus, m.pc);
        let m1 = Machine { pc: target.wrapping_sub(2), bus: b, ..m };
        let m2 = executed(m1, op, (depth - 1) as nat);
        Machine {
            pc: m2.pc.wrapping_add(2),
            bus: waited(m2.bus, base_cycles(op, m1.t())),
            ..m2
        }
    }
}

/// The machine after an instruction that is not in a delay slot.
#[verifier::opaque]
pub open spec fn performed(m: Machine, op: u16) -> Machine {
    executed(m, op, NESTING_LIMIT as nat)
}

/// Whether an interrupt of this level is accepted under this status register. The
/// non-maskable interrupt always is.
pub open spec fn accepted(level: u8, sr: u32) -> bool {
    level > sr / 16 % 16 || level == NMI_LEVEL
}

/// The status register while an interrupt of this level is served.
pub open spec fn masked_sr(sr: u32, level: u8) -> u32 {
    (sr & !0xF0u32) | ((if level == NMI_LEVEL {
        15int
    } else {
        level as int
    }) * 16) as u32
}

/// The machine once pending interrupts have been looked at: the one of the highest
/// level is served, if it is accepted.
#[verifier::opaque]
pub open spec fn serviced(m: Machine) -> Machine {
    let i = sound_line_polled(m.bus.irq);
    let m0 = Machine { bus: BusView { irq: i, ..m.bus }, ..m };
    match queue_top(i.queue()) {
        None => m0,
        Some(top) => if accepted(top.level, m.sr) {
            entered(
                Machine { bus: BusView { irq: line_taken(i, top.vector), ..m.bus }, ..m },
                top.vector as int,
                masked_sr(m.sr, top.level),
            )
        } else {
            m0
        },
    }
}

/// The machine with an instruction fetched, and the opcode. Code in the cache's
/// data array is fetched from there.
#[verifier::opaque]
pub open spec fn fetched(m: Machine) -> (Machine, u16) {
    let next = m.pc.wrapping_add(2);
    if m.pc >= 0xC000_0000 {
        (
            Machine { pc: next, ..m },
            rd16(m.bus.data_array, m.pc as int % 0x1000, DATA_ARRAY_SIZE as int),
        )
    } else {
        (
            Machine { pc: next, bus: after_read16(m.bus, region_of(m.pc)), ..m },
            read16(m.bus, region_of(m.pc)),
        )
    }
}

/// The machine one instruction on.
#[verifier::opaque]
pub open spec fn stepped(m: Machine) -> Machine {
    let (m1, op) = fetched(serviced(m));
    let base = base_cycles(op, m1.t());
    let m2 = performed(m1, op);
    Machine { bus: dma_worked(waited(m2.bus, base), base), ..m2 }
}

/// Sixteen registers, all but R15 cleared.
pub open spec fn cleared_registers(r15: u32) -> Seq<u32> {
    Seq::new(
        16,
        |i: int|
            if i == 15 {
                r15
            } else {
                0u32
            },
    )
}

/// The machine after reset: program counter and stack pointer come from the start
/// of the vector table, and all interrupts are masked.
#[verifier::opaque]
pub open spec fn was_reset(m: Machine) -> Machine {
    let (b1, pc) = load32(BusView { cycles: 0, ..m.bus }, 0);
    let (b2, sp) = load32(b1, 4);
    Machine {
        is_slave: m.is_slave,
        r: cleared_registers(sp),
        pc,
        pr: 0,
        sr: 0xF0,
        gbr: 0,
        vbr: 0,
        mach: 0,
        macl: 0,
        illegal: false,
        pending_sync: 0,
        next_vblank_out_due: m.next_vblank_out_due,
        bus: BusView {
            unaligned_access_flag: false,
            irq: IrqView {
                vblank_pending: false,
                vblank_out_pending: false,
                smpc_irq_pending: false,
                sound_req_irq: if b2.irq.sound_req_irq is Some {
                    Some(false)
                } else {
                    None
                },
                ..b2.irq
            },
            onchip: Sh2OnChip {
                bcr1: (b2.onchip.bcr1 & 0x8000) | 0x03F0,
                ..onchip_init(m.is_slave)
            },
            frc_leftover: 0,
            frc_shift: 3,
            ..b2
        },
    }
}

/// A BIOS image cut or padded with zeros to the size of the ROM.
pub open spec fn bios_image(data: Seq<u8>) -> Seq<u8> {
    Seq::new(
        BIOS_SIZE as nat,
        |i: int|
            if i < data.len() {
                data[i]
            } else {
                0u8
            },
    )
}

/// After the timer's input was captured.
pub open spec fn captured(b: BusView) -> BusView {
    let b1 = BusView {
        onchip: Sh2OnChip { ftcsr: b.onchip.ftcsr | 0x80, ficr: b.onchip.frc, ..b.onchip },
        ..b
    };
    if b.onchip.tier & 0x80 != 0 {
        b1.raised(((b.onchip.vcrc >> 8) & 0x7F) as u8, ((b.onchip.iprb >> 8) & 0xF) as u8)
    } else {
        b1
    }
}

/// The machine after it was told the time: VBLANK-IN when its time has come, and
/// VBLANK-OUT a fixed time later.
pub open spec fn clocked(m: Machine, now: u64) -> Machine {
    let m0 = Machine { bus: BusView { now_us: now, ..m.bus }, ..m };
    let m1 = if m.bus.next_vblank_due is Some && now >= m.bus.next_vblank_due.unwrap() {
        Machine {
            next_vblank_out_due: Some((now + VBLANK_DURATION) as u64),
            bus: BusView {
                next_vblank_due: Some((now + VBLANK_INTERVAL) as u64),
                ..m0.bus.raised(VBLANK_IN_VECTOR, VBLANK_IN_LEVEL)
            },
            ..m0
        }
    } else {
        m0
    };
    if m1.next_vblank_out_due is Some && now >= m1.next_vblank_out_due.unwrap() {
        Machine {
            next_vblank_out_due: None,
            bus: m1.bus.raised(VBLANK_OUT_VECTOR, VBLANK_OUT_LEVEL),
            ..m1
        }
    } else {
        m1
    }
}

/// After how many cycles a core meets the others, under this much slack.
pub open spec fn sync_batch(slack_limit: u64) -> u32 {
    if slack_limit > 100 {
        32
    } else if slack_limit > 10 {
        4
    } else {
        1
    }
}

/// A machine at power-on.
pub open spec fn is_fresh(m: Machine, is_slave: bool) -> bool {
    &&& m.is_slave == is_slave
    &&& m.r == cleared_registers(0)
    &&& m.pc == 0 && m.pr == 0 && m.sr == 0 && m.gbr == 0 && m.vbr == 0 && m.mach == 0 && m.macl
        == 0
    &&& !m.illegal
    &&& m.pending_sync == 0
    &&& m.next_vblank_out_due is None
    &&& m.bus.bios.len() == 0
    &&& m.bus.smpc is None && m.bus.vdp1 is None && m.bus.scu_dsp is None
    &&& m.bus.onchip == onchip_init(is_slave)
    &&& m.bus.irq == irq_init(
        if is_slave {
            1
        } else {
            0
        },
    )
    &&& m.bus.address_array == Seq::new(256, |i: int| 0u32)
    &&& m.bus.data_array == zeros(DATA_ARRAY_SIZE as nat)
    &&& m.bus.cycles == 0 && m.bus.frc_leftover == 0 && m.bus.frc_shift == 3
    &&& !m.bus.unaligned_access_flag && !m.bus.cdrom_command_executed && !m.bus.nesting_overrun
    &&& m.bus.m68k_control is None && m.bus.bus_grant is None
    &&& m.bus.now_us == 0 && m.bus.next_vblank_due is None
    &&& counts_nothing(m.bus.telemetry) && m.bus.trace is None
}

impl Sh2 {
    /// A core at power-on, the slave if asked for, on the given memories.
    pub fn new(is_slave: bool, work_ram: WorkRam) -> (r: Self)
        requires
            work_ram.wf(),
        ensures
            r.wf(),
            is_fresh(r@, is_slave),
            r@.bus.ram == work_ram@,
    {
        let core_id: usize = if is_slave {
            1
        } else {
            0
        };
        let r = Sh2 {
            is_slave,
            registers: [0; 16],
            pc: 0,
            pr: 0,
            sr: 0,
            gbr: 0,
            vbr: 0,
            mach: 0,
            macl: 0,
            illegal_instruction_flag: false,
            pending_sync: 0,
            next_vblank_out_due: None,
            bus: Sh2Bus {
                work_ram,
                bios: Arc::new(Vec::new()),
                smpc: None,
                vdp1: None,
                scu_dsp: None,
                onchip: Sh2OnChip::new(is_slave),
                irq: IrqLines::new(core_id),
                address_array: [0; 256],
                data_array: zeroed(DATA_ARRAY_SIZE),
                cycles: 0,
                frc_leftover: 0,
                frc_shift: 3,
                unaligned_access_flag: false,
                cdrom_command_executed: false,
                m68k_control: None,
                bus_grant: None,
                now_us: 0,
                next_vblank_due: None,
                nesting_overrun: false,
                telemetry: Telemetry::new(),
                trace: None,
            },
        };
        assert(r@.r =~= cleared_registers(0));
        assert(r@.bus.address_array =~= Seq::new(256, |i: int| 0u32));
        r
    }

    /// Load a BIOS image, cut or padded to the size of the ROM.
    pub fn load_bios(&mut self, data: Vec<u8>)
        requires
            old(self).wf(),
        ensures
            final(self).wf(),
            final(self)@ == (Machine {
                bus: BusView { bios: bios_image(data@), ..old(self)@.bus },
                ..old(self)@
            }),
    {
        let mut image: Vec<u8> = data;
        image.resize(BIOS_SIZE, 0);
        assert(image@ =~= bios_image(data@));
        self.bus.bios = Arc::new(image);
    }

    /// Use a BIOS image that other cores have too.
    pub fn set_bios_arc(&mut self, bios: Arc<Vec<u8>>)
        requires
            old(self).wf(),
        ensures
            final(self).wf(),
            final(self)@ == (Machine {
                bus: BusView { bios: bios@, ..old(self)@.bus },
                ..old(self)@
            }),
    {
        self.bus.bios = bios;
    }

    /// Raise an interrupt.
    pub fn queue_send(&mut self, vector: u8, level: u8)
        requires
            old(self).wf(),
        ensures
            final(self).wf(),
            final(self)@ == (Machine {
                bus: old(self)@.bus.raised(vector, level),
                ..old(self)@
            }),
    {
        self.bus.queue_send(vector, level);
    }

    /// Take an interrupt back.
    pub fn queue_remove(&mut self, vector: u8)
        requires
            old(self).wf(),
        ensures
            final(self).wf(),
            final(self)@ == (Machine {
                bus: BusView { irq: old(self)@.bus.irq.removed(vector), ..old(self)@.bus },
                ..old(self)@
            }),
    {
        self.bus.irq.remove(vector);
    }

    /// The pending interrupt of the highest level.
    pub fn queue_peek(&self) -> (r: Option<PendingInterrupt>)
        ensures
            r == queue_top(self@.bus.irq.queue()),
    {
        self.bus.irq.peek()
    }

    /// Raise the non-maskable interrupt, and note it in ICR.
    pub fn nmi(&mut self)
        requires
            old(self).wf(),
        ensures
            final(self).wf(),
            final(self)@ == (Machine {
                bus: BusView {
                    onchip: Sh2OnChip {
                        icr: old(self)@.bus.onchip.icr | 0x8000,
                        ..old(self)@.bus.onchip
                    },
                    ..old(self)@.bus
                }.raised(NMI_VECTOR, NMI_LEVEL),
                ..old(self)@
            }),
    {
        self.bus.onchip.icr = self.bus.onchip.icr | 0x8000;
        self.bus.queue_send(NMI_VECTOR, NMI_LEVEL);
    }

    /// Raise VBLANK-IN. It is served at the next step, unless it is masked.
    pub fn request_vblank_interrupt(&mut self)
        requires
            old(self).wf(),
        ensures
            final(self).wf(),
            final(self)@ == (Machine {
                bus: old(self)@.bus.raised(VBLANK_IN_VECTOR, VBLANK_IN_LEVEL),
                ..old(self)@
            }),
    {
        self.bus.queue_send(VBLANK_IN_VECTOR, VBLANK_IN_LEVEL);
    }

    /// Raise VBLANK-OUT.
    pub fn request_vblank_out_interrupt(&mut self)
        requires
            old(self).wf(),
        ensures
            final(self).wf(),
            final(self)@ == (Machine {
                bus: old(self)@.bus.raised(VBLANK_OUT_VECTOR, VBLANK_OUT_LEVEL),
                ..old(self)@
            }),
    {
        self.bus.queue_send(VBLANK_OUT_VECTOR, VBLANK_OUT_LEVEL);
    }

    /// Read a byte.
    pub fn read_byte(&mut self, address: u32) -> (r: u8)
        requires
            old(self).wf(),
        ensures
            final(self).wf(),
            r == load8(old(self)@.bus, address).1,
            final(self)@ == (Machine {
                bus: load8(old(self)@.bus, address).0,
                ..old(self)@
            }),
    {
        self.bus.read_byte(address)
    }

    /// Read a word.
    pub fn read_word(&mut self, address: u32) -> (r: u16)
        requires
            old(self).wf(),
        ensures
            final(self).wf(),
            r == load16(old(self)@.bus, address).1,
            final(self)@ == (Machine {
                bus: load16(old(self)@.bus, address).0,
                ..old(self)@
            }),
    {
        self.bus.read_word(address)
    }

    /// Read a long word.
    pub fn read_long(&mut self, address: u32) -> (r: u32)
        requires
            old(self).wf(),
        ensures
            final(self).wf(),
            r == load32(old(self)@.bus, address).1,
            final(self)@ == (Machine {
                bus: load32(old(self)@.bus, address).0,
                ..old(self)@
            }),
    {
        self.bus.read_long(address)
    }

    /// Store a byte.
    pub fn write_byte(&mut self, address: u32, val: u8)
        requires
            old(self).wf(),
        ensures
            final(self).wf(),
            final(self)@ == (Machine {
                bus: store8(old(self)@.bus, address, val),
                ..old(self)@
            }),
    {
        self.bus.write_byte(address, val);
    }

    /// Store a word.
    pub fn write_word(&mut self, address: u32, val: u16)
        requires
            old(self).wf(),
        ensures
            final(self).wf(),
            final(self)@ == (Machine {
                bus: store16(old(self)@.bus, address, val),
                ..old(self)@
            }),
    {
        self.bus.write_word(address, val);
    }

    /// Store a long word.
    pub fn write_long(&mut self, address: u32, val: u32)
        requires
            old(self).wf(),
        ensures
            final(self).wf(),
            final(self)@ == (Machine {
                bus: store32(old(self)@.bus, address, val),
                ..old(self)@
            }),
    {
        self.bus.write_long(address, val);
    }

    /// Let the free-running timer run for some cycles.
    pub fn frt_exec(&mut self, cycles: u32)
        requires
            old(self).wf(),
            timer_fits(old(self)@.bus, cycles as int),
        ensures
            final(self).wf(),
            final(self)@ == (Machine {
                bus: timer_run(old(self)@.bus, cycles as int),
                ..old(self)@
            }),
    {
        self.bus.frt_exec(cycles);
    }

    /// Capture the free-running timer.
    pub fn frt_input_capture(&mut self)
        requires
            old(self).wf(),
        ensures
            final(self).wf(),
            final(self)@ == (Machine { bus: captured(old(self)@.bus), ..old(self)@ }),
    {
        self.bus.onchip.ftcsr = self.bus.onchip.ftcsr | 0x80;
        self.bus.onchip.ficr = self.bus.onchip.frc;
        if self.bus.onchip.tier & 0x80 != 0 {
            let vector: u8 = ((self.bus.onchip.vcrc >> 8) & 0x7F) as u8;
            let level: u8 = ((self.bus.onchip.iprb >> 8) & 0xF) as u8;
            self.bus.queue_send(vector, level);
        }
    }

    /// Let the DMA controller work for a burst.
    pub fn dma_exec(&mut self)
        requires
            old(self).wf(),
        ensures
            final(self).wf(),
            final(self)@ == (Machine {
                bus: dma_worked(old(self)@.bus, 200),
                ..old(self)@
            }),
    {
        self.dma_proc(200);
    }

    /// Let the DMA controller work for some cycles.
    pub fn dma_proc(&mut self, cycles: u32)
        requires
            old(self).wf(),
        ensures
            final(self).wf(),
            final(self)@ == (Machine {
                bus: dma_worked(old(self)@.bus, cycles),
                ..old(self)@
            }),
    {
        self.bus.dma_proc(cycles);
    }

    /// Reset.
    #[verifier::rlimit(30)]
    pub fn reset(&mut self)
        requires
            old(self).wf(),
        ensures
            final(self).wf(),
            final(self)@ == was_reset(old(self)@),
    {
        reveal(was_reset);
        self.registers = [0; 16];
        self.gbr = 0;
        self.vbr = 0;
        self.mach = 0;
        self.macl = 0;
        self.pr = 0;
        self.bus.cycles = 0;
        self.pc = self.bus.read_long(0);
        self.registers[15] = self.bus.read_long(4);
        self.sr = 0x0000_00F0;
        self.illegal_instruction_flag = false;
        self.bus.unaligned_access_flag = false;
        self.bus.irq.vblank_pending = false;
        self.bus.irq.vblank_out_pending = false;
        self.bus.irq.smpc_irq_pending = false;
        if self.bus.irq.sound_req_irq.is_some() {
            self.bus.irq.sound_req_irq = Some(false);
        }
        self.bus.onchip.reset(self.is_slave);
        self.bus.frc_leftover = 0;
        self.bus.frc_shift = 3;
        self.pending_sync = 0;
        assert(self@.r =~= cleared_registers(self@.r[15]));
    }

    /// Cycles that an instruction takes by itself.
    fn get_base_cycles(&self, opcode: u16) -> (r: u32)
        ensures
            r == base_cycles(opcode, self@.t()),
            1 <= r <= 8,
    {
        let top: u16 = opcode / 0x1000;
        let high: u16 = opcode / 0x100;
        let low: u16 = opcode % 0x100;
        let d4: u16 = opcode % 0x10;
        if high == 0xC3 {
            return 8;
        }
        if (top == 0x4 && low == 0x1B) || opcode == 0x002B {
            return 4;
        }
        if (top == 0x4 && (low == 0x07 || low == 0x17 || low == 0x27)) || (0xCC <= high && high
            <= 0xCF) || (top == 0x0 && (d4 == 0xF || d4 == 0xE)) || opcode == 0x001B {
            return 3;
        }
        if high == 0x89 {
            return if self.t() {
                3
            } else {
                1
            };
        }
        if high == 0x8B {
            return if self.t() {
                1
            } else {
                3
            };
        }
        if high == 0x8D {
            return if self.t() {
                2
            } else {
                1
            };
        }
        if high == 0x8F {
            return if self.t() {
                1
            } else {
                2
            };
        }
        if top == 0xA || top == 0xB || (top == 0x4 && (low == 0x2B || low == 0x0B)) || opcode
            == 0x000B || (top == 0x0 && (low == 0x23 || low == 0x03 || d4 == 0x7)) || (top == 0x3
            && (d4 == 0xD || d4 == 0x5)) {
            return 2;
        }
        1
    }

    /// Do what a branch does before its delay slot, and return where it goes.
    #[verifier::rlimit(40)]
    fn take_branch(&mut self, op: u16) -> (r: Option<u32>)
        requires
            old(self).wf(),
        ensures
            final(self).wf(),
            match branch_of(old(self)@, op) {
                Some((m1, target)) => r == Some(target) && final(self)@ == m1,
                None => r is None && final(self)@ == old(self)@,
            },
    {
        reveal(branch_of);
        let top: u16 = op / 0x1000;
        let high: u16 = op / 0x100;
        let d8: u16 = op % 0x100;
        let n: usize = (high % 16) as usize;
        let rn: u32 = self.registers[n];
        let next: u32 = self.pc.wrapping_add(2);
        if top == 0x0 {
            if d8 == 0x0B {
                Some(self.pr)
            } else if d8 == 0x23 {
                Some(next.wrapping_add(rn))
            } else if d8 == 0x03 {
                self.pr = next;
                Some(next.wrapping_add(rn))
            } else if d8 == 0x2B {
                let sp: u32 = self.registers[15];
                let new_pc: u32 = self.bus.read_long(sp);
                let new_sr: u32 = self.bus.read_long(sp.wrapping_add(4));
                self.registers[15] = sp.wrapping_add(8);
                self.sr = new_sr & SR_WRITE_MASK;
                Some(new_pc)
            } else {
                None
            }
        } else if top == 0xA {
            Some(target_of(self.pc, sign_extend12((op % 0x1000) as u32)))
        } else if top == 0xB {
            self.pr = next;
            Some(target_of(self.pc, sign_extend12((op % 0x1000) as u32)))
        } else if high == 0x8D {
            if self.t() {
                Some(target_of(self.pc, sign_extend8(d8 as u32)))
            } else {
                None
            }
        } else if high == 0x8F {
            if !self.t() {
                Some(target_of(self.pc, sign_extend8(d8 as u32)))
            } else {
                None
            }
        } else if top == 0x4 && d8 == 0x0B {
            self.pr = next;
            Some(rn)
        } else if top == 0x4 && d8 == 0x2B {
            Some(rn)
        } else {
            None
        }
    }

    /// Charge the cycles of an instruction.
    fn charge(&mut self, base: u32)
        requires
            old(self).wf(),
            1 <= base <= 8,
        ensures
            final(self).wf(),
            final(self)@ == (Machine { bus: waited(old(self)@.bus, base), ..old(self)@ }),
    {
        self.bus.cycles = self.bus.cycles.wrapping_add(base as u64);
        proof {
            timer_fits_short_waits(self.bus@, base as int);
        }
        self.bus.frt_exec(base);
    }

    /// Carry out the instruction in the delay slot, then jump.
    fn delay_slot_and_jump(&mut self, target: u32, depth: u32)
        requires
            old(self).wf(),
        ensures
            final(self).wf(),
            final(self)@ == delay_slot(old(self)@, target, depth as nat),
        decreases depth, 0nat,
    {
        if depth == 0 {
            self.pc = target;
            self.bus.nesting_overrun = true;
            return;
        }
        let opcode: u16 = self.bus.read_word(self.pc);
        self.pc = target.wrapping_sub(2);
        let base: u32 = self.get_base_cycles(opcode);
        self.execute_at(opcode, depth - 1);
        self.charge(base);
        self.pc = self.pc.wrapping_add(2);
    }

    /// Carry out an instruction, with at most `depth` delay slots in one another.
    fn execute_at(&mut self, opcode: u16, depth: u32)
        requires
            old(self).wf(),
        ensures
            final(self).wf(),
            final(self)@ == executed(old(self)@, opcode, depth as nat),
        decreases depth, 1nat,
    {
        match self.take_branch(opcode) {
            Some(target) => self.delay_slot_and_jump(target, depth),
            None => self.execute_plain(opcode),
        }
    }

    /// Carry out an instruction.
    pub fn execute(&mut self, opcode: u16)
        requires
            old(self).wf(),
        ensures
            final(self).wf(),
            final(self)@ == performed(old(self)@, opcode),
    {
        reveal(performed);
        self.execute_at(opcode, NESTING_LIMIT);
    }

    /// Serve the pending interrupt of the highest level, if it is accepted.
    #[verifier::rlimit(30)]
    pub fn service_pending_interrupt(&mut self)
        requires
            old(self).wf(),
        ensures
            final(self).wf(),
            final(self)@ == serviced(old(self)@),
    {
        reveal(serviced);
        self.bus.irq.poll_sound_line();
        let top: PendingInterrupt = match self.bus.irq.peek() {
            Some(top) => top,
            None => {
                return;
            },
        };
        let current_mask: u32 = self.sr / 16 % 16;
        if top.level as u32 <= current_mask && top.level != NMI_LEVEL {
            return;
        }
        self.bus.irq.take(top.vector);
        let new_mask: u32 = if top.level == NMI_LEVEL {
            15
        } else {
            top.level as u32
        };
        let sr: u32 = (self.sr & !0xF0u32) | (new_mask * 16);
        self.enter_exception(top.vector, sr);
    }

    /// Fetch the next opcode, without wait states.
    fn fetch_opcode(&mut self) -> (r: u16)
        requires
            old(self).wf(),
        ensures
            final(self).wf(),
            (final(self)@, r) == fetched(old(self)@),
    {
        reveal(fetched);
        let opcode: u16 = if self.pc >= 0xC000_0000 {
            get16(&self.bus.data_array, (self.pc % 0x1000) as usize, DATA_ARRAY_SIZE)
        } else {
            self.bus.raw_read_word(self.pc)
        };
        self.pc = self.pc.wrapping_add(2);
        opcode
    }

    /// Run one instruction.
    pub fn step(&mut self)
        requires
            old(self).wf(),
        ensures
            final(self).wf(),
            final(self)@ == stepped(old(self)@),
    {
        reveal(stepped);
        self.service_pending_interrupt();
        let opcode: u16 = self.fetch_opcode();
        let base: u32 = self.get_base_cycles(opcode);
        self.execute(opcode);
        self.charge(base);
        self.bus.dma_proc(base);
    }

    /// Begin counting frames.
    pub fn start_frames(&mut self, now: u64)
        requires
            old(self).wf(),
            now + VBLANK_INTERVAL <= u64::MAX,
        ensures
            final(self).wf(),
            final(self)@ == (Machine {
                bus: BusView {
                    now_us: now,
                    next_vblank_due: Some((now + VBLANK_INTERVAL) as u64),
                    ..old(self)@.bus
                },
                ..old(self)@
            }),
    {
        self.bus.now_us = now;
        self.bus.next_vblank_due = Some(now + VBLANK_INTERVAL);
    }

    /// Tell the core the time in microseconds, so that it raises the VBLANK
    /// interrupts that are due.
    pub fn poll_frame(&mut self, now: u64)
        requires
            old(self).wf(),
            now + VBLANK_INTERVAL <= u64::MAX,
        ensures
            final(self).wf(),
            final(self)@ == clocked(old(self)@, now),
    {
        self.bus.now_us = now;
        if let Some(due) = self.bus.next_vblank_due {
            if now >= due {
                self.request_vblank_interrupt();
                self.bus.next_vblank_due = Some(now + VBLANK_INTERVAL);
                self.next_vblank_out_due = Some(now + VBLANK_DURATION);
            }
        }
        if let Some(out_due) = self.next_vblank_out_due {
            if now >= out_due {
                self.request_vblank_out_interrupt();
                self.next_vblank_out_due = None;
            }
        }
    }

    /// Count the cycles of a step. Returns whether it is time to meet the other
    /// cores.
    pub fn sync_due(&mut self, delta: u32, slack_limit: u64) -> (r: bool)
        requires
            old(self).wf(),
            old(self).pending_sync + delta <= u32::MAX,
        ensures
            final(self).wf(),
            r == (old(self).pending_sync + delta >= sync_batch(slack_limit)),
            final(self)@ == (Machine {
                pending_sync: if r {
                    0
                } else {
                    (old(self).pending_sync + delta) as u32
                },
                ..old(self)@
            }),
    {
        let batch: u32 = if slack_limit > 100 {
            32
        } else if slack_limit > 10 {
            4
        } else {
            1
        };
        self.pending_sync = self.pending_sync + delta;
        if self.pending_sync >= batch {
            self.pending_sync = 0;
            true
        } else {
            false
        }
    }

    /// Take over what the core has asked the synchroniser for.
    pub fn take_sync_requests(&mut self) -> (r: Vec<ThreadRequest>)
        requires
            old(self).wf(),
        ensures
            final(self).wf(),
            r@ == old(self)@.bus.irq.sync_requests,
            final(self)@ == (Machine {
                bus: BusView {
                    irq: IrqView { sync_requests: Seq::empty(), ..old(self)@.bus.irq },
                    ..old(self)@.bus
                },
                ..old(self)@
            }),
    {
        let mut taken: Vec<ThreadRequest> = Vec::new();
        std::mem::swap(&mut taken, &mut self.bus.irq.sync_requests);
        assert(self@.bus.irq.sync_requests =~= Seq::<ThreadRequest>::empty());
        taken
    }
}

} // verus!
