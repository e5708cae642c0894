//! The SH-2: registers, instructions, interrupts and the bus.

pub mod alu;
pub mod bus;
pub mod control_laws;
pub mod dma_laws;
pub mod exec;
pub mod flow_laws;
pub mod irq;
pub mod laws;
pub mod map_laws;
pub mod memory_laws;
pub mod onchip;
pub mod onchip_write;
pub mod opcode_laws;
pub mod ram;
pub mod region;
pub mod status_laws;
pub mod step;
pub mod store;
pub mod trace;
pub mod unit_laws;

use crate::sh2::alu::{extend_byte, extend_word, set_sr_bit, sext16, sext8, sr_has, sr_with, SR_M, SR_Q, SR_S, SR_T};
use crate::sh2::bus::{load16, load32, load8, BusView, Sh2Bus};
use crate::sh2::store::{store16, store32, store8};
use vstd::prelude::*;

verus! {

/// One SH-2 with everything it reaches.
pub struct Sh2 {
    pub is_slave: bool,
    pub registers: [u32; 16],
    pub pc: u32,
    pub pr: u32,
    pub sr: u32,
    pub gbr: u32,
    pub vbr: u32,
    pub mach: u32,
    pub macl: u32,
    pub illegal_instruction_flag: bool,
    /// Cycles since the core last met the others.
    pub pending_sync: u32,
    /// When the next VBLANK-OUT is due.
    pub next_vblank_out_due: Option<u64>,
    pub bus: Sh2Bus,
}

/// The value of an SH-2.
pub struct Machine {
    pub is_slave: bool,
    pub r: Seq<u32>,
    pub pc: u32,
    pub pr: u32,
    pub sr: u32,
    pub gbr: u32,
    pub vbr: u32,
    pub mach: u32,
    pub macl: u32,
    pub illegal: bool,
    pub pending_sync: u32,
    pub next_vblank_out_due: Option<u64>,
    pub bus: BusView,
}

impl Machine {
    pub open spec fn wf(self) -> bool {
        &&& self.r.len() == 16
        &&& self.bus.wf()
    }

    /// With a register set.
    pub open spec fn with_r(self, n: int, v: u32) -> Machine {
        Machine { r: self.r.update(n, v), ..self }
    }

    /// With a flag of the status register set.
    pub open spec fn with_flag(self, bit: u32, on: bool) -> Machine {
        Machine { sr: sr_with(self.sr, bit, on), ..self }
    }

    /// With T set to the outcome of a test.
    pub open spec fn with_t(self, on: bool) -> Machine {
        self.with_flag(SR_T, on)
    }

    pub open spec fn t(self) -> bool {
        sr_has(self.sr, SR_T)
    }
}

/// A byte loaded into a register, its sign extended.
pub open spec fn ld8(m: Machine, n: int, a: u32) -> Machine {
    let (b, v) = load8(m.bus, a);
    Machine { bus: b, r: m.r.update(n, sext8(v)), ..m }
}

/// A word loaded into a register, its sign extended.
pub open spec fn ld16(m: Machine, n: int, a: u32) -> Machine {
    let (b, v) = load16(m.bus, a);
    Machine { bus: b, r: m.r.update(n, sext16(v)), ..m }
}

/// A long word loaded into a register.
pub open spec fn ld32(m: Machine, n: int, a: u32) -> Machine {
    let (b, v) = load32(m.bus, a);
    Machine { bus: b, r: m.r.update(n, v), ..m }
}

/// The low byte of a register stored.
pub open spec fn st8(m: Machine, a: u32, v: u32) -> Machine {
    Machine { bus: store8(m.bus, a, (v % 0x100) as u8), ..m }
}

/// The low word of a register stored.
pub open spec fn st16(m: Machine, a: u32, v: u32) -> Machine {
    Machine { bus: store16(m.bus, a, (v % 0x1_0000) as u16), ..m }
}

/// A register stored.
pub open spec fn st32(m: Machine, a: u32, v: u32) -> Machine {
    Machine { bus: store32(m.bus, a, v), ..m }
}

impl Sh2 {
    pub open spec fn view(&self) -> Machine {
        Machine {
            is_slave: self.is_slave,
            r: self.registers@,
            pc: self.pc,
            pr: self.pr,
            sr: self.sr,
            gbr: self.gbr,
            vbr: self.vbr,
            mach: self.mach,
            macl: self.macl,
            illegal: self.illegal_instruction_flag,
            pending_sync: self.pending_sync,
            next_vblank_out_due: self.next_vblank_out_due,
            bus: self.bus@,
        }
    }

    pub open spec fn wf(&self) -> bool {
        self.bus.wf()
    }

    /// The S flag: whether multiply-accumulate saturates.
    pub fn s(&self) -> (r: bool)
        ensures
            r == sr_has(self.sr, SR_S),
    {
        self.sr & SR_S != 0
    }

    pub fn set_s(&mut self, val: bool)
        ensures
            final(self)@ == old(self)@.with_flag(SR_S, val),
    {
        self.sr = set_sr_bit(self.sr, SR_S, val);
    }

    /// The T flag: the outcome of the last test.
    pub fn t(&self) -> (r: bool)
        ensures
            r == self@.t(),
    {
        self.sr & SR_T != 0
    }

    pub fn set_t(&mut self, val: bool)
        ensures
            final(self)@ == old(self)@.with_t(val),
    {
        self.sr = set_sr_bit(self.sr, SR_T, val);
    }

    /// The Q flag of the division steps.
    pub fn q(&self) -> (r: bool)
        ensures
            r == sr_has(self.sr, SR_Q),
    {
        self.sr & SR_Q != 0
    }

    pub fn set_q(&mut self, val: bool)
        ensures
            final(self)@ == old(self)@.with_flag(SR_Q, val),
    {
        self.sr = set_sr_bit(self.sr, SR_Q, val);
    }

    /// The M flag of the division steps.
    pub fn m(&self) -> (r: bool)
        ensures
            r == sr_has(self.sr, SR_M),
    {
        self.sr & SR_M != 0
    }

    pub fn set_m(&mut self, val: bool)
        ensures
            final(self)@ == old(self)@.with_flag(SR_M, val),
    {
        self.sr = set_sr_bit(self.sr, SR_M, val);
    }

    fn set_reg(&mut self, n: usize, v: u32)
        requires
            old(self).wf(),
            n < 16,
        ensures
            final(self).wf(),
            final(self)@ == old(self)@.with_r(n as int, v),
    {
        self.registers[n] = v;
    }

    fn load_byte(&mut self, n: usize, a: u32)
        requires
            old(self).wf(),
            n < 16,
        ensures
            final(self).wf(),
            final(self)@ == ld8(old(self)@, n as int, a),
    {
        let v: u8 = self.bus.read_byte(a);
        self.registers[n] = extend_byte(v);
    }

    fn load_word(&mut self, n: usize, a: u32)
        requires
            old(self).wf(),
            n < 16,
        ensures
            final(self).wf(),
            final(self)@ == ld16(old(self)@, n as int, a),
    {
        let v: u16 = self.bus.read_word(a);
        self.registers[n] = extend_word(v);
    }

    fn load_long(&mut self, n: usize, a: u32)
        requires
            old(self).wf(),
            n < 16,
        ensures
            final(self).wf(),
            final(self)@ == ld32(old(self)@, n as int, a),
    {
        let v: u32 = self.bus.read_long(a);
        self.registers[n] = v;
    }

    fn store_byte(&mut self, a: u32, v: u32)
        requires
            old(self).wf(),
        ensures
            final(self).wf(),
            final(self)@ == st8(old(self)@, a, v),
    {
        self.bus.write_byte(a, (v % 0x100) as u8);
    }

    fn store_word(&mut self, a: u32, v: u32)
        requires
            old(self).wf(),
        ensures
            final(self).wf(),
            final(self)@ == st16(old(self)@, a, v),
    {
        self.bus.write_word(a, (v % 0x1_0000) as u16);
    }

    fn store_long(&mut self, a: u32, v: u32)
        requires
            old(self).wf(),
        ensures
            final(self).wf(),
            final(self)@ == st32(old(self)@, a, v),
    {
        self.bus.write_long(a, v);
    }
}

} // verus!
