//! The registers of VDP2.

use crate::bytes::{be16, be32, from_be16, from_be32};
use crate::vdp::color::{rgb555_to_xrgb8888, screen_color};
use vstd::prelude::*;

verus! {

/// A snapshot of all registers.
pub struct Vdp2Registers {
    pub regs: [u16; 256],
}

impl Vdp2Registers {
    /// The register at a byte offset.
    pub open spec fn word(&self, off: int) -> u16 {
        self.regs@[off / 2]
    }

    /// All registers zero.
    pub fn new() -> (r: Self)
        ensures
            forall|i: int| 0 <= i < 256 ==> r.regs@[i] == 0,
    {
        Self { regs: [0; 256] }
    }

    /// The registers whose big-endian bytes are given.
    pub fn from_bytes(regs_bytes: &[u8; 512]) -> (r: Self)
        ensures
            forall|i: int|
                0 <= i < 256 ==> r.regs@[i] == be16(regs_bytes[i * 2], regs_bytes[i * 2 + 1]),
    {
        let mut snapshot = Self::new();
        let mut i: usize = 0;
        while i < 256
            invariant
                i <= 256,
                forall|k: int|
                    0 <= k < i ==> snapshot.regs@[k] == be16(
                        regs_bytes[k * 2],
                        regs_bytes[k * 2 + 1],
                    ),
            decreases 256 - i,
        {
            snapshot.regs[i] = from_be16(regs_bytes[i * 2], regs_bytes[i * 2 + 1]);
            i += 1;
        }
        snapshot
    }

    pub fn tvmd(&self) -> (r: u16)
        ensures
            r == self.word(0x000),
    {
        self.regs[0]
    }

    pub fn exten(&self) -> (r: u16)
        ensures
            r == self.word(0x002),
    {
        self.regs[1]
    }

    pub fn tvstat(&self) -> (r: u16)
        ensures
            r == self.word(0x004),
    {
        self.regs[2]
    }

    pub fn vrsize(&self) -> (r: u16)
        ensures
            r == self.word(0x006),
    {
        self.regs[3]
    }

    pub fn hcnt(&self) -> (r: u16)
        ensures
            r == self.word(0x008),
    {
        self.regs[4]
    }

    pub fn vcnt(&self) -> (r: u16)
        ensures
            r == self.word(0x00a),
    {
        self.regs[5]
    }

    pub fn ramctl(&self) -> (r: u16)
        ensures
            r == self.word(0x00e),
    {
        self.regs[7]
    }

    pub fn cyca0l(&self) -> (r: u16)
        ensures
            r == self.word(0x010),
    {
        self.regs[8]
    }

    pub fn cyca0u(&self) -> (r: u16)
        ensures
            r == self.word(0x012),
    {
        self.regs[9]
    }

    pub fn cyca1l(&self) -> (r: u16)
        ensures
            r == self.word(0x014),
    {
        self.regs[10]
    }

    pub fn cyca1u(&self) -> (r: u16)
        ensures
            r == self.word(0x016),
    {
        self.regs[11]
    }

    pub fn cycb0l(&self) -> (r: u16)
        ensures
            r == self.word(0x018),
    {
        self.regs[12]
    }

    pub fn cycb0u(&self) -> (r: u16)
        ensures
            r == self.word(0x01a),
    {
        self.regs[13]
    }

    pub fn cycb1l(&self) -> (r: u16)
        ensures
            r == self.word(0x01c),
    {
        self.regs[14]
    }

    pub fn cycb1u(&self) -> (r: u16)
        ensures
            r == self.word(0x01e),
    {
        self.regs[15]
    }

    pub fn bgon(&self) -> (r: u16)
        ensures
            r == self.word(0x020),
    {
        self.regs[16]
    }

    pub fn mzctl(&self) -> (r: u16)
        ensures
            r == self.word(0x022),
    {
        self.regs[17]
    }

    pub fn sfsel(&self) -> (r: u16)
        ensures
            r == self.word(0x024),
    {
        self.regs[18]
    }

    pub fn craofb(&self) -> (r: u16)
        ensures
            r == self.word(0x0ca),
    {
        self.regs[101]
    }

    pub fn craofa(&self) -> (r: u16)
        ensures
            r == self.word(0x0e4),
    {
        self.regs[114]
    }

    pub fn spctl(&self) -> (r: u16)
        ensures
            r == self.word(0x0f0),
    {
        self.regs[120]
    }

    pub fn prinb(&self) -> (r: u16)
        ensures
            r == self.word(0x0fa),
    {
        self.regs[125]
    }

    pub fn chctlb(&self) -> (r: u16)
        ensures
            r == self.word(0x02a),
    {
        self.regs[21]
    }

    pub fn pncn3(&self) -> (r: u16)
        ensures
            r == self.word(0x036),
    {
        self.regs[27]
    }

    pub fn plsz(&self) -> (r: u16)
        ensures
            r == self.word(0x03a),
    {
        self.regs[29]
    }

    pub fn mpofn(&self) -> (r: u16)
        ensures
            r == self.word(0x03c),
    {
        self.regs[30]
    }

    pub fn chctla(&self) -> (r: u16)
        ensures
            r == self.word(0x028),
    {
        self.regs[20]
    }

    pub fn pncn0(&self) -> (r: u16)
        ensures
            r == self.word(0x030),
    {
        self.regs[24]
    }

    pub fn pncn1(&self) -> (r: u16)
        ensures
            r == self.word(0x032),
    {
        self.regs[25]
    }

    pub fn pncn2(&self) -> (r: u16)
        ensures
            r == self.word(0x034),
    {
        self.regs[26]
    }

    pub fn mpabn0(&self) -> (r: u16)
        ensures
            r == self.word(0x040),
    {
        self.regs[32]
    }

    pub fn mpcdn0(&self) -> (r: u16)
        ensures
            r == self.word(0x042),
    {
        self.regs[33]
    }

    pub fn mpabn1(&self) -> (r: u16)
        ensures
            r == self.word(0x044),
    {
        self.regs[34]
    }

    pub fn mpcdn1(&self) -> (r: u16)
        ensures
            r == self.word(0x046),
    {
        self.regs[35]
    }

    pub fn mpabn2(&self) -> (r: u16)
        ensures
            r == self.word(0x048),
    {
        self.regs[36]
    }

    pub fn mpcdn2(&self) -> (r: u16)
        ensures
            r == self.word(0x04a),
    {
        self.regs[37]
    }

    pub fn mpabn3(&self) -> (r: u16)
        ensures
            r == self.word(0x04c),
    {
        self.regs[38]
    }

    pub fn mpcdn3(&self) -> (r: u16)
        ensures
            r == self.word(0x04e),
    {
        self.regs[39]
    }

    pub fn scxn0(&self) -> (r: u16)
        ensures
            r == self.word(0x070),
    {
        self.regs[56]
    }

    pub fn scyn0(&self) -> (r: u16)
        ensures
            r == self.word(0x072),
    {
        self.regs[57]
    }

    pub fn scxn1(&self) -> (r: u16)
        ensures
            r == self.word(0x080),
    {
        self.regs[64]
    }

    pub fn scyn1(&self) -> (r: u16)
        ensures
            r == self.word(0x082),
    {
        self.regs[65]
    }

    pub fn scxn2(&self) -> (r: u16)
        ensures
            r == self.word(0x090),
    {
        self.regs[72]
    }

    pub fn scyn2(&self) -> (r: u16)
        ensures
            r == self.word(0x092),
    {
        self.regs[73]
    }

    pub fn scxn3(&self) -> (r: u16)
        ensures
            r == self.word(0x094),
    {
        self.regs[74]
    }

    pub fn scyn3(&self) -> (r: u16)
        ensures
            r == self.word(0x096),
    {
        self.regs[75]
    }

    pub fn prina(&self) -> (r: u16)
        ensures
            r == self.word(0x0f8),
    {
        self.regs[124]
    }

    pub fn bmpna(&self) -> (r: u16)
        ensures
            r == self.word(0x02c),
    {
        self.regs[22]
    }

    pub fn hreso(&self) -> (r: u16)
        ensures
            r == self.word(0x000) % 0x8,
    {
        self.tvmd() % 0x8
    }

    pub fn vreso(&self) -> (r: u16)
        ensures
            r == self.word(0x000) / 0x10 % 4,
    {
        self.tvmd() / 0x10 % 4
    }

    pub fn lsmd(&self) -> (r: u16)
        ensures
            r == self.word(0x000) / 0x40 % 4,
    {
        self.tvmd() / 0x40 % 4
    }

    pub fn bdclmd(&self) -> (r: u16)
        ensures
            r == self.word(0x000) / 0x100 % 2,
    {
        self.tvmd() / 0x100 % 2
    }

    pub fn disp(&self) -> (r: u16)
        ensures
            r == self.word(0x000) / 0x8000 % 2,
    {
        self.tvmd() / 0x8000 % 2
    }

    pub fn color_mode(&self) -> (r: u16)
        ensures
            r == self.word(0x00e) / 0x1000 % 4,
    {
        self.ramctl() / 0x1000 % 4
    }

    pub fn vram_a_partitioned(&self) -> (r: bool)
        ensures
            r == (self.word(0x00e) / 0x100 % 2 == 1),
    {
        self.ramctl() / 0x100 % 2 == 1
    }

    pub fn vram_b_partitioned(&self) -> (r: bool)
        ensures
            r == (self.word(0x00e) / 0x200 % 2 == 1),
    {
        self.ramctl() / 0x200 % 2 == 1
    }

    pub fn vram_8mbit(&self) -> (r: bool)
        ensures
            r == (self.word(0x006) / 0x8000 == 1),
    {
        self.vrsize() / 0x8000 == 1
    }

    pub fn n3on(&self) -> (r: bool)
        ensures
            r == (self.word(0x020) / 0x8 % 2 == 1),
    {
        self.bgon() / 0x8 % 2 == 1
    }

    pub fn n3_transparency_enable(&self) -> (r: bool)
        ensures
            r == (self.word(0x020) / 0x800 % 2 == 0),
    {
        self.bgon() / 0x800 % 2 == 0
    }

    pub fn n3chsz(&self) -> (r: u16)
        ensures
            r == self.word(0x02a) / 0x10 % 2,
    {
        self.chctlb() / 0x10 % 2
    }

    pub fn n3chcn(&self) -> (r: u16)
        ensures
            r == self.word(0x02a) / 0x20 % 2,
    {
        self.chctlb() / 0x20 % 2
    }

    pub fn pncn3_supplementary_char(&self) -> (r: u16)
        ensures
            r == self.word(0x036) % 0x20,
    {
        self.pncn3() % 0x20
    }

    pub fn pncn3_supplementary_palette(&self) -> (r: u16)
        ensures
            r == self.word(0x036) / 0x20 % 8,
    {
        self.pncn3() / 0x20 % 8
    }

    pub fn pncn3_auxmode(&self) -> (r: u16)
        ensures
            r == self.word(0x036) / 0x4000 % 2,
    {
        self.pncn3() / 0x4000 % 2
    }

    pub fn pncn3_patterndatasize(&self) -> (r: u16)
        ensures
            r == self.word(0x036) / 0x8000,
    {
        self.pncn3() / 0x8000
    }

    pub fn plsz_nbg3(&self) -> (r: u16)
        ensures
            r == self.word(0x03a) / 0x40 % 4,
    {
        self.plsz() / 0x40 % 4
    }

    pub fn mpofn_nbg3(&self) -> (r: u16)
        ensures
            r == self.word(0x03c) / 0x1000 % 8 * 0x40,
    {
        self.mpofn() / 0x1000 % 8 * 0x40
    }

    pub fn craofa_nbg3(&self) -> (r: u16)
        ensures
            r == self.word(0x0e4) / 0x1000 % 8 * 0x100,
    {
        self.craofa() / 0x1000 % 8 * 0x100
    }

    pub fn prinb_nbg3(&self) -> (r: u16)
        ensures
            r == self.word(0x0fa) / 0x100 % 8,
    {
        self.prinb() / 0x100 % 8
    }

    pub fn n2on(&self) -> (r: bool)
        ensures
            r == (self.word(0x020) / 0x4 % 2 == 1),
    {
        self.bgon() / 0x4 % 2 == 1
    }

    pub fn n2_transparency_enable(&self) -> (r: bool)
        ensures
            r == (self.word(0x020) / 0x400 % 2 == 0),
    {
        self.bgon() / 0x400 % 2 == 0
    }

    pub fn chctlb_nbg2_pattern_size(&self) -> (r: u16)
        ensures
            r == self.word(0x02a) % 0x2,
    {
        self.chctlb() % 0x2
    }

    pub fn n2chcn(&self) -> (r: u16)
        ensures
            r == self.word(0x02a) / 0x2 % 2,
    {
        self.chctlb() / 0x2 % 2
    }

    pub fn pncn2_supplementary_char(&self) -> (r: u16)
        ensures
            r == self.word(0x034) % 0x20,
    {
        self.pncn2() % 0x20
    }

    pub fn pncn2_supplementary_palette(&self) -> (r: u16)
        ensures
            r == self.word(0x034) / 0x20 % 8,
    {
        self.pncn2() / 0x20 % 8
    }

    pub fn pncn2_auxmode(&self) -> (r: u16)
        ensures
            r == self.word(0x034) / 0x4000 % 2,
    {
        self.pncn2() / 0x4000 % 2
    }

    pub fn pncn2_patterndatasize(&self) -> (r: u16)
        ensures
            r == self.word(0x034) / 0x8000,
    {
        self.pncn2() / 0x8000
    }

    pub fn plsz_nbg2(&self) -> (r: u16)
        ensures
            r == self.word(0x03a) / 0x10 % 4,
    {
        self.plsz() / 0x10 % 4
    }

    pub fn mpofn_nbg2(&self) -> (r: u16)
        ensures
            r == self.word(0x03c) / 0x100 % 8 * 0x40,
    {
        self.mpofn() / 0x100 % 8 * 0x40
    }

    pub fn craofa_nbg2(&self) -> (r: u16)
        ensures
            r == self.word(0x0e4) / 0x100 % 8 * 0x100,
    {
        self.craofa() / 0x100 % 8 * 0x100
    }

    pub fn prinb_nbg2(&self) -> (r: u16)
        ensures
            r == self.word(0x0fa) % 0x8,
    {
        self.prinb() % 0x8
    }

    pub fn n1on(&self) -> (r: bool)
        ensures
            r == (self.word(0x020) / 0x2 % 2 == 1),
    {
        self.bgon() / 0x2 % 2 == 1
    }

    pub fn n1_transparency_enable(&self) -> (r: bool)
        ensures
            r == (self.word(0x020) / 0x200 % 2 == 0),
    {
        self.bgon() / 0x200 % 2 == 0
    }

    pub fn chctla_nbg1_pattern_size(&self) -> (r: u16)
        ensures
            r == self.word(0x028) / 0x100 % 2,
    {
        self.chctla() / 0x100 % 2
    }

    pub fn n1bmen(&self) -> (r: bool)
        ensures
            r == (self.word(0x028) / 0x200 % 2 == 1),
    {
        self.chctla() / 0x200 % 2 == 1
    }

    pub fn n1bmsz(&self) -> (r: u16)
        ensures
            r == self.word(0x028) / 0x400 % 4,
    {
        self.chctla() / 0x400 % 4
    }

    pub fn n1chcn(&self) -> (r: u16)
        ensures
            r == self.word(0x028) / 0x1000 % 4,
    {
        self.chctla() / 0x1000 % 4
    }

    pub fn pncn1_supplementary_char(&self) -> (r: u16)
        ensures
            r == self.word(0x032) % 0x20,
    {
        self.pncn1() % 0x20
    }

    pub fn pncn1_supplementary_palette(&self) -> (r: u16)
        ensures
            r == self.word(0x032) / 0x20 % 8,
    {
        self.pncn1() / 0x20 % 8
    }

    pub fn pncn1_auxmode(&self) -> (r: u16)
        ensures
            r == self.word(0x032) / 0x4000 % 2,
    {
        self.pncn1() / 0x4000 % 2
    }

    pub fn pncn1_patterndatasize(&self) -> (r: u16)
        ensures
            r == self.word(0x032) / 0x8000,
    {
        self.pncn1() / 0x8000
    }

    pub fn plsz_nbg1(&self) -> (r: u16)
        ensures
            r == self.word(0x03a) / 0x4 % 4,
    {
        self.plsz() / 0x4 % 4
    }

    pub fn mpofn_nbg1(&self) -> (r: u16)
        ensures
            r == self.word(0x03c) / 0x10 % 8 * 0x40,
    {
        self.mpofn() / 0x10 % 8 * 0x40
    }

    pub fn craofa_nbg1(&self) -> (r: u16)
        ensures
            r == self.word(0x0e4) / 0x10 % 8 * 0x100,
    {
        self.craofa() / 0x10 % 8 * 0x100
    }

    pub fn prina_nbg1(&self) -> (r: u16)
        ensures
            r == self.word(0x0f8) / 0x100 % 8,
    {
        self.prina() / 0x100 % 8
    }

    pub fn n0on(&self) -> (r: bool)
        ensures
            r == (self.word(0x020) % 2 == 1),
    {
        self.bgon() % 2 == 1
    }

    pub fn n0_transparency_enable(&self) -> (r: bool)
        ensures
            r == (self.word(0x020) / 0x100 % 2 == 0),
    {
        self.bgon() / 0x100 % 2 == 0
    }

    pub fn chctla_nbg0_pattern_size(&self) -> (r: u16)
        ensures
            r == self.word(0x028) % 0x2,
    {
        self.chctla() % 0x2
    }

    pub fn n0bmen(&self) -> (r: bool)
        ensures
            r == (self.word(0x028) / 0x2 % 2 == 1),
    {
        self.chctla() / 0x2 % 2 == 1
    }

    pub fn n0bmsz(&self) -> (r: u16)
        ensures
            r == self.word(0x028) / 0x4 % 4,
    {
        self.chctla() / 0x4 % 4
    }

    pub fn n0chcn(&self) -> (r: u16)
        ensures
            r == self.word(0x028) / 0x10 % 8,
    {
        self.chctla() / 0x10 % 8
    }

    pub fn pncn0_supplementary_char(&self) -> (r: u16)
        ensures
            r == self.word(0x030) % 0x20,
    {
        self.pncn0() % 0x20
    }

    pub fn pncn0_supplementary_palette(&self) -> (r: u16)
        ensures
            r == self.word(0x030) / 0x20 % 8,
    {
        self.pncn0() / 0x20 % 8
    }

    pub fn pncn0_auxmode(&self) -> (r: u16)
        ensures
            r == self.word(0x030) / 0x4000 % 2,
    {
        self.pncn0() / 0x4000 % 2
    }

    pub fn pncn0_patterndatasize(&self) -> (r: u16)
        ensures
            r == self.word(0x030) / 0x8000,
    {
        self.pncn0() / 0x8000
    }

    pub fn plsz_nbg0(&self) -> (r: u16)
        ensures
            r == self.word(0x03a) % 0x4,
    {
        self.plsz() % 0x4
    }

    pub fn mpofn_nbg0(&self) -> (r: u16)
        ensures
            r == self.word(0x03c) % 8 * 0x40,
    {
        self.mpofn() % 8 * 0x40
    }

    pub fn craofa_nbg0(&self) -> (r: u16)
        ensures
            r == self.word(0x0e4) % 8 * 0x100,
    {
        self.craofa() % 8 * 0x100
    }

    pub fn prina_nbg0(&self) -> (r: u16)
        ensures
            r == self.word(0x0f8) % 0x8,
    {
        self.prina() % 0x8
    }

    pub fn bktau(&self) -> (r: u16)
        ensures
            r == self.word(0x0ac),
    {
        self.regs[86]
    }

    pub fn bktal(&self) -> (r: u16)
        ensures
            r == self.word(0x0ae),
    {
        self.regs[87]
    }

    pub fn sfcode(&self) -> (r: u16)
        ensures
            r == self.word(0x026),
    {
        self.regs[19]
    }

    pub fn sfprmd(&self) -> (r: u16)
        ensures
            r == self.word(0x0ea),
    {
        self.regs[117]
    }

    pub fn sfccmd(&self) -> (r: u16)
        ensures
            r == self.word(0x0ee),
    {
        self.regs[119]
    }

    /// The back screen's address register, as wide as the size of VRAM asks for.
    pub fn back_screen_addr(&self) -> (r: u32)
        ensures
            r == (self.word(0x0AC) * 0x1_0000 + self.word(0x0AE)) % (if self.word(0x006) / 0x8000
                == 1 {
                0x8_0000int
            } else {
                0x4_0000
            }),
    {
        let addr: u32 = self.bktau() as u32 * 0x1_0000 + self.bktal() as u32;
        if self.vram_8mbit() {
            addr % 0x8_0000
        } else {
            addr % 0x4_0000
        }
    }

    /// Whether the back screen has a colour of its own on every line.
    pub fn back_screen_enabled(&self) -> (r: bool)
        ensures
            r == (self.word(0x0AC) / 0x8000 == 1),
    {
        self.bktau() / 0x8000 == 1
    }
}

impl Default for Vdp2Registers {
    fn default() -> (r: Self)
        ensures
            forall|i: int| 0 <= i < 256 ==> r.regs@[i] == 0,
    {
        Self::new()
    }
}

/// Whether colour RAM holds an entry.
pub open spec fn cram_holds(index: u16, mode: u16, len: int) -> bool {
    &&& mode <= 1 ==> index * 2 % 0x1000 + 1 < len
    &&& mode == 2 ==> index * 4 % 0x1000 + 3 < len
}

/// An entry of colour RAM. In modes 0 and 1 it is a 15-bit colour, whose top bit
/// goes to the top; in mode 2 it is a long word; mode 3 has none.
pub open spec fn cram_color(index: u16, mode: u16, cram: Seq<u8>) -> u32 {
    if mode <= 1 {
        let a = index * 2 % 0x1000;
        let c = be16(cram[a], cram[a + 1]);
        (c / 0x8000 * 0x8000_0000 + screen_color(c)) as u32
    } else if mode == 2 {
        let a = index * 4 % 0x1000;
        be32(cram[a], cram[a + 1], cram[a + 2], cram[a + 3])
    } else {
        0
    }
}

/// Modes 0 and 1 read colour RAM alike.
pub proof fn modes_0_and_1_agree(index: u16, cram: Seq<u8>)
    ensures
        cram_color(index, 0, cram) == cram_color(index, 1, cram),
{
}

/// Look an entry of colour RAM up.
pub fn cram_lookup(index: u16, mode: u16, cram: &[u8]) -> (r: u32)
    requires
        cram_holds(index, mode, cram@.len() as int),
    ensures
        r == cram_color(index, mode, cram@),
{
    if mode <= 1 {
        let addr: usize = index as usize * 2 % 0x1000;
        let val: u16 = from_be16(cram[addr], cram[addr + 1]);
        let msb: u32 = (val / 0x8000) as u32;
        msb * 0x8000_0000 + rgb555_to_xrgb8888(val)
    } else if mode == 2 {
        let addr: usize = index as usize * 4 % 0x1000;
        from_be32(cram[addr], cram[addr + 1], cram[addr + 2], cram[addr + 3])
    } else {
        0
    }
}

} // verus!
