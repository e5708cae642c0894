//! The memories that the processors of the console share.

pub mod frames;

use crate::bytes::{
    clear, from_be16, from_be32, get8, put8, rd16, rd32, rd8, wr16, wr32, wr8, zeroed, zeros,
};
use vstd::prelude::*;

pub use crate::shared_buffers::frames::{DoubleBufferedFramebuffer, Framebuffer};

verus! {

/// Low Work RAM (0x00200000-0x002FFFFF).
pub const LOW_RAM_SIZE: usize = 0x10_0000;
/// High Work RAM (0x06000000-0x07FFFFFF, mirrored every megabyte).
pub const HIGH_RAM_SIZE: usize = 0x10_0000;
/// SCSP sound RAM (0x05A00000-0x05AFFFFF).
pub const SOUND_RAM_SIZE: usize = 0x8_0000;
/// The part of sound RAM that answers while the 4 Mbit mode is off.
pub const SOUND_RAM_SMALL: usize = 0x4_0000;
/// SCSP register block (0x05B00000-0x05BFFFFF).
pub const SCSP_REGS_SIZE: usize = 0x1000;
/// The SCSP register whose bit 1 switches the 4 Mbit mode.
pub const SCSP_MEM4B_OFFSET: usize = 0x400;
/// VDP1 VRAM (0x05C00000-0x05C7FFFF).
pub const VDP1_VRAM_SIZE: usize = 0x8_0000;
/// Storage behind the VDP1 framebuffer window (0x05C80000-0x05CFFFFF).
pub const VDP1_FB_SIZE: usize = 0x8_0000;
/// The part of that storage the CPU reaches.
pub const VDP1_FB_WINDOW: usize = 0x4_0000;
/// VDP1 registers (0x05D00000-0x05D7FFFF).
pub const VDP1_REGS_SIZE: usize = 0x100;
/// VDP2 VRAM (0x05E00000-0x05EFFFFF).
pub const VDP2_VRAM_SIZE: usize = 0x8_0000;
/// VDP2 colour RAM (0x05F00000-0x05F7FFFF).
pub const VDP2_CRAM_SIZE: usize = 0x1000;
/// VDP2 registers (0x05F80000-0x05FBFFFF).
pub const VDP2_REGS_SIZE: usize = 0x200;
/// Scan lines for which the VDP2 registers are latched.
pub const VDP2_LINE_COUNT: usize = 270;
/// SCU registers (0x05FE0000-0x05FEFFFF).
pub const SCU_REGS_SIZE: usize = 0x100;
/// CD block registers (0x05800000-0x058FFFFF).
pub const CS2_REGS_SIZE: usize = 0x1000;
/// Internal backup RAM (0x00180000-0x001FFFFF), of which only odd bytes exist.
pub const BACKUP_RAM_SIZE: usize = 0x1_0000;
/// SMPC register file (0x00100000-0x0017FFFF).
pub const SMPC_REGS_SIZE: usize = 0x80;
/// One bank of the VDP1 frame buffer.
pub const VDP1_BANK_SIZE: usize = 0x4_0000;

/// The two banks of the VDP1 frame buffer. VDP1 draws into bank `back`; the
/// other one is on display.
pub struct Vdp1Framebuffers {
    pub banks: [Vec<u8>; 2],
    pub back: usize,
}

impl Vdp1Framebuffers {
    pub open spec fn wf(&self) -> bool {
        &&& self.back < 2
        &&& self.banks[0]@.len() == VDP1_BANK_SIZE
        &&& self.banks[1]@.len() == VDP1_BANK_SIZE
    }

    /// Two cleared banks, the first one at the back.
    pub fn new() -> (r: Self)
        ensures
            r.wf(),
            r.back == 0,
            r.banks[0]@ == zeros(VDP1_BANK_SIZE as nat),
            r.banks[1]@ == zeros(VDP1_BANK_SIZE as nat),
    {
        Self { banks: [zeroed(VDP1_BANK_SIZE), zeroed(VDP1_BANK_SIZE)], back: 0 }
    }
}

/// The contents of all shared memories.
pub struct Memory {
    pub low_ram: Seq<u8>,
    pub high_ram: Seq<u8>,
    pub sound_ram: Seq<u8>,
    pub scsp_regs: Seq<u8>,
    pub vdp1_vram: Seq<u8>,
    pub vdp1_framebuffer: Seq<u8>,
    pub vdp1_regs: Seq<u8>,
    pub vdp2_vram: Seq<u8>,
    pub vdp2_cram: Seq<u8>,
    pub vdp2_regs: Seq<u8>,
    pub scu_regs: Seq<u8>,
    pub cs2_regs: Seq<u8>,
    pub backup_ram: Seq<u8>,
    pub smpc_regs: Seq<u8>,
    pub mem4b: bool,
    pub bank0: Seq<u8>,
    pub bank1: Seq<u8>,
    pub back: usize,
    pub vdp2_lines: Seq<[u8; 512]>,
}

impl Memory {
    /// Every memory has its fixed size.
    pub open spec fn wf(self) -> bool {
        &&& self.low_ram.len() == LOW_RAM_SIZE
        &&& self.high_ram.len() == HIGH_RAM_SIZE
        &&& self.sound_ram.len() == SOUND_RAM_SIZE
        &&& self.scsp_regs.len() == SCSP_REGS_SIZE
        &&& self.vdp1_vram.len() == VDP1_VRAM_SIZE
        &&& self.vdp1_framebuffer.len() == VDP1_FB_SIZE
        &&& self.vdp1_regs.len() == VDP1_REGS_SIZE
        &&& self.vdp2_vram.len() == VDP2_VRAM_SIZE
        &&& self.vdp2_cram.len() == VDP2_CRAM_SIZE
        &&& self.vdp2_regs.len() == VDP2_REGS_SIZE
        &&& self.scu_regs.len() == SCU_REGS_SIZE
        &&& self.cs2_regs.len() == CS2_REGS_SIZE
        &&& self.backup_ram.len() == BACKUP_RAM_SIZE
        &&& self.smpc_regs.len() == SMPC_REGS_SIZE
        &&& self.bank0.len() == VDP1_BANK_SIZE
        &&& self.bank1.len() == VDP1_BANK_SIZE
        &&& self.back < 2
        &&& self.vdp2_lines.len() == VDP2_LINE_COUNT
    }
}

/// Storage of every memory that more than one processor can reach.
pub struct WorkRam {
    /// Low Work RAM.
    pub low_ram: Vec<u8>,
    /// High Work RAM.
    pub high_ram: Vec<u8>,
    /// SCSP sound RAM.
    pub sound_ram: Vec<u8>,
    /// SCSP registers.
    pub scsp_regs: Vec<u8>,
    /// VDP1 VRAM.
    pub vdp1_vram: Vec<u8>,
    /// What the CPU sees of the VDP1 frame buffer.
    pub vdp1_framebuffer: Vec<u8>,
    /// VDP1 registers.
    pub vdp1_regs: Vec<u8>,
    /// VDP2 VRAM.
    pub vdp2_vram: Vec<u8>,
    /// VDP2 colour RAM.
    pub vdp2_cram: Vec<u8>,
    /// VDP2 registers.
    pub vdp2_regs: Vec<u8>,
    /// SCU registers.
    pub scu_regs: Vec<u8>,
    /// CD block registers.
    pub cs2_regs: Vec<u8>,
    /// Internal backup RAM.
    pub backup_ram: Vec<u8>,
    /// SMPC register file, registers on odd bytes only.
    pub smpc_regs: Vec<u8>,
    /// Whether sound RAM answers with its full 4 Mbit.
    pub mem4b: bool,
    /// The two banks VDP1 draws into.
    pub vdp1_framebuffers: Vdp1Framebuffers,
    /// The VDP2 registers as latched at each scan line.
    pub vdp2_lines: Vec<[u8; 512]>,
}

/// Whether every memory is cleared, sound RAM is small, and VDP1 draws into the first bank.
pub open spec fn all_cleared(m: Memory) -> bool {
    &&& m.low_ram == zeros(LOW_RAM_SIZE as nat)
    &&& m.high_ram == zeros(HIGH_RAM_SIZE as nat)
    &&& m.sound_ram == zeros(SOUND_RAM_SIZE as nat)
    &&& m.scsp_regs == zeros(SCSP_REGS_SIZE as nat)
    &&& m.vdp1_vram == zeros(VDP1_VRAM_SIZE as nat)
    &&& m.vdp1_framebuffer == zeros(VDP1_FB_SIZE as nat)
    &&& m.vdp1_regs == zeros(VDP1_REGS_SIZE as nat)
    &&& m.vdp2_vram == zeros(VDP2_VRAM_SIZE as nat)
    &&& m.vdp2_cram == zeros(VDP2_CRAM_SIZE as nat)
    &&& m.vdp2_regs == zeros(VDP2_REGS_SIZE as nat)
    &&& m.scu_regs == zeros(SCU_REGS_SIZE as nat)
    &&& m.cs2_regs == zeros(CS2_REGS_SIZE as nat)
    &&& m.backup_ram == zeros(BACKUP_RAM_SIZE as nat)
    &&& m.smpc_regs == zeros(SMPC_REGS_SIZE as nat)
    &&& !m.mem4b
    &&& m.back == 0
    &&& m.bank0 == zeros(VDP1_BANK_SIZE as nat)
    &&& m.bank1 == zeros(VDP1_BANK_SIZE as nat)
    &&& m.vdp2_lines.len() == VDP2_LINE_COUNT
    &&& forall|y: int, i: int|
        0 <= y < VDP2_LINE_COUNT && 0 <= i < 512 ==> m.vdp2_lines[y][i] == 0
}

impl WorkRam {
    pub open spec fn view(&self) -> Memory {
        Memory {
            low_ram: self.low_ram@,
            high_ram: self.high_ram@,
            sound_ram: self.sound_ram@,
            scsp_regs: self.scsp_regs@,
            vdp1_vram: self.vdp1_vram@,
            vdp1_framebuffer: self.vdp1_framebuffer@,
            vdp1_regs: self.vdp1_regs@,
            vdp2_vram: self.vdp2_vram@,
            vdp2_cram: self.vdp2_cram@,
            vdp2_regs: self.vdp2_regs@,
            scu_regs: self.scu_regs@,
            cs2_regs: self.cs2_regs@,
            backup_ram: self.backup_ram@,
            smpc_regs: self.smpc_regs@,
            mem4b: self.mem4b,
            bank0: self.vdp1_framebuffers.banks[0]@,
            bank1: self.vdp1_framebuffers.banks[1]@,
            back: self.vdp1_framebuffers.back,
            vdp2_lines: self.vdp2_lines@,
        }
    }

    pub open spec fn wf(&self) -> bool {
        self@.wf()
    }

    /// All memories cleared.
    pub fn new() -> (r: Self)
        ensures
            r.wf(),
            all_cleared(r@),
    {
        let vdp2_lines: Vec<[u8; 512]> = vec![[0; 512]; VDP2_LINE_COUNT];
        Self {
            low_ram: zeroed(LOW_RAM_SIZE),
            high_ram: zeroed(HIGH_RAM_SIZE),
            sound_ram: zeroed(SOUND_RAM_SIZE),
            scsp_regs: zeroed(SCSP_REGS_SIZE),
            vdp1_vram: zeroed(VDP1_VRAM_SIZE),
            vdp1_framebuffer: zeroed(VDP1_FB_SIZE),
            vdp1_regs: zeroed(VDP1_REGS_SIZE),
            vdp2_vram: zeroed(VDP2_VRAM_SIZE),
            vdp2_cram: zeroed(VDP2_CRAM_SIZE),
            vdp2_regs: zeroed(VDP2_REGS_SIZE),
            scu_regs: zeroed(SCU_REGS_SIZE),
            cs2_regs: zeroed(CS2_REGS_SIZE),
            backup_ram: zeroed(BACKUP_RAM_SIZE),
            smpc_regs: zeroed(SMPC_REGS_SIZE),
            mem4b: false,
            vdp1_framebuffers: Vdp1Framebuffers::new(),
            vdp2_lines,
        }
    }

    /// Clear low work RAM.
    pub fn clear_low_ram(&mut self)
        requires
            old(self).wf(),
        ensures
            final(self).wf(),
            final(self)@ == (Memory { low_ram: zeros(LOW_RAM_SIZE as nat), ..old(self)@ }),
    {
        clear(&mut self.low_ram);
    }

    /// Clear high work RAM.
    pub fn clear_high_ram(&mut self)
        requires
            old(self).wf(),
        ensures
            final(self).wf(),
            final(self)@ == (Memory { high_ram: zeros(HIGH_RAM_SIZE as nat), ..old(self)@ }),
    {
        clear(&mut self.high_ram);
    }

    pub fn read_high_ram_byte(&self, off: usize) -> (r: u8)
        requires
            self.wf(),
        ensures
            r == rd8(self@.high_ram, off as int, HIGH_RAM_SIZE as int),
    {
        get8(&self.high_ram, off, HIGH_RAM_SIZE)
    }

    pub fn write_high_ram_byte(&mut self, off: usize, val: u8)
        requires
            old(self).wf(),
        ensures
            final(self).wf(),
            final(self)@ == (Memory {
                high_ram: wr8(old(self)@.high_ram, off as int, HIGH_RAM_SIZE as int, val),
                ..old(self)@
            }),
    {
        put8(&mut self.high_ram, off, HIGH_RAM_SIZE, val);
    }

    pub fn read_high_ram_word(&self, off: usize) -> (r: u16)
        requires
            self.wf(),
            off + 1 <= usize::MAX,
        ensures
            r == rd16(self@.high_ram, off as int, HIGH_RAM_SIZE as int),
    {
        from_be16(self.read_high_ram_byte(off), self.read_high_ram_byte(off + 1))
    }

    pub fn write_high_ram_word(&mut self, off: usize, val: u16)
        requires
            old(self).wf(),
            off + 1 <= usize::MAX,
        ensures
            final(self).wf(),
            final(self)@ == (Memory {
                high_ram: wr16(old(self)@.high_ram, off as int, HIGH_RAM_SIZE as int, val),
                ..old(self)@
            }),
    {
        self.write_high_ram_byte(off, (val / 0x100) as u8);
        self.write_high_ram_byte(off + 1, (val % 0x100) as u8);
    }

    pub fn read_high_ram_long(&self, off: usize) -> (r: u32)
        requires
            self.wf(),
            off + 3 <= usize::MAX,
        ensures
            r == rd32(self@.high_ram, off as int, HIGH_RAM_SIZE as int),
    {
        from_be32(
            self.read_high_ram_byte(off),
            self.read_high_ram_byte(off + 1),
            self.read_high_ram_byte(off + 2),
            self.read_high_ram_byte(off + 3),
        )
    }

    pub fn write_high_ram_long(&mut self, off: usize, val: u32)
        requires
            old(self).wf(),
            off + 3 <= usize::MAX,
        ensures
            final(self).wf(),
            final(self)@ == (Memory {
                high_ram: wr32(old(self)@.high_ram, off as int, HIGH_RAM_SIZE as int, val),
                ..old(self)@
            }),
    {
        self.write_high_ram_byte(off, (val / 0x100_0000) as u8);
        self.write_high_ram_byte(off + 1, (val / 0x1_0000 % 0x100) as u8);
        self.write_high_ram_byte(off + 2, (val / 0x100 % 0x100) as u8);
        self.write_high_ram_byte(off + 3, (val % 0x100) as u8);
    }
}

impl Default for WorkRam {
    fn default() -> (r: Self)
        ensures
            r.wf(),
            all_cleared(r@),
    {
        Self::new()
    }
}

/// One bank of VRAM.
pub const VRAM_BANK_SIZE: usize = 0x4_0000;

/// Two banks of VRAM, one after the other.
pub struct Vram {
    pub vram_a: Vec<u8>,
    pub vram_b: Vec<u8>,
}

impl Vram {
    /// The bytes of both banks in address order.
    pub open spec fn view(&self) -> Seq<u8> {
        self.vram_a@ + self.vram_b@
    }

    pub open spec fn wf(&self) -> bool {
        &&& self.vram_a@.len() == VRAM_BANK_SIZE
        &&& self.vram_b@.len() == VRAM_BANK_SIZE
    }

    /// Both banks cleared.
    pub fn new() -> (r: Self)
        ensures
            r.wf(),
            r@ == zeros((2 * VRAM_BANK_SIZE) as nat),
    {
        let r = Self { vram_a: zeroed(VRAM_BANK_SIZE), vram_b: zeroed(VRAM_BANK_SIZE) };
        assert(r@ =~= zeros((2 * VRAM_BANK_SIZE) as nat));
        r
    }

    /// Clear both banks.
    pub fn clear_on_command(&mut self)
        requires
            old(self).wf(),
        ensures
            final(self).wf(),
            final(self)@ == zeros((2 * VRAM_BANK_SIZE) as nat),
    {
        clear(&mut self.vram_a);
        clear(&mut self.vram_b);
        assert(self@ =~= zeros((2 * VRAM_BANK_SIZE) as nat));
    }

    /// Store one byte. An address behind the second bank is refused and changes
    /// nothing.
    pub fn write_byte(&mut self, addr: usize, val: u8) -> (r: Result<(), String>)
        requires
            old(self).wf(),
        ensures
            final(self).wf(),
            r is Ok <==> addr < 2 * VRAM_BANK_SIZE,
            r is Ok ==> final(self)@ == old(self)@.update(addr as int, val),
            r is Err ==> final(self)@ == old(self)@ && r.unwrap_err()@ == "VRAM out of bounds"@,
    {
        if addr >= 2 * VRAM_BANK_SIZE {
            return Err("VRAM out of bounds".to_string());
        }
        if addr < VRAM_BANK_SIZE {
            self.vram_a[addr] = val;
        } else {
            self.vram_b[addr - VRAM_BANK_SIZE] = val;
        }
        assert(self@ =~= old(self)@.update(addr as int, val));
        Ok(())
    }
}

impl Default for Vram {
    fn default() -> (r: Self)
        ensures
            r.wf(),
            r@ == zeros((2 * VRAM_BANK_SIZE) as nat),
    {
        Self::new()
    }
}

} // verus!
