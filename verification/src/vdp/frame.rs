//! Frames for the screen: the back screen with the VDP1 picture over it, and the
//! frame on display.

use crate::bytes::{be16, from_be16};
use crate::shared_buffers::{Memory, WorkRam};
use crate::vdp::color::{rgb555_to_xrgb8888, screen_color};
use crate::vdp2_regs::Vdp2Registers;
use arc_swap::ArcSwap;
use std::sync::Arc;
use vstd::prelude::*;

verus! {

/// A picture, one XRGB8888 word per pixel, row by row.
pub struct Framebuffer {
    pub width: usize,
    pub height: usize,
    pub pixels: Vec<u32>,
}

/// What a frame shows.
pub ghost struct FrameView {
    pub width: int,
    pub height: int,
    pub pixels: Seq<u32>,
}

/// A frame of one colour.
pub open spec fn plain_frame(width: int, height: int, color: u32) -> FrameView {
    FrameView {
        width,
        height,
        pixels: Seq::new((width * height) as nat, |i: int| color),
    }
}

impl Framebuffer {
    pub open spec fn view(&self) -> FrameView {
        FrameView {
            width: self.width as int,
            height: self.height as int,
            pixels: self.pixels@,
        }
    }

    /// A black frame.
    pub fn new(width: usize, height: usize) -> (r: Self)
        requires
            width * height <= usize::MAX,
        ensures
            r@ == plain_frame(width as int, height as int, 0),
    {
        let pixels: Vec<u32> = vec![0u32; width * height];
        assert(pixels@ =~= plain_frame(width as int, height as int, 0).pixels);
        Self { width, height, pixels }
    }
}

/// The slot that holds the frame on display.
#[verifier::external_body]
pub struct FrameSlot {
    slot: ArcSwap<Framebuffer>,
}

/// The frame in a slot.
pub uninterp spec fn slot_frame(slot: FrameSlot) -> FrameView;

impl FrameSlot {
    /// `ArcSwap::new`: the slot holds the frame that it is made with.
    #[verifier::external_body]
    fn holding(frame: Framebuffer) -> (r: Self)
        ensures
            slot_frame(r) == frame@,
    {
        Self { slot: ArcSwap::new(Arc::new(frame)) }
    }

    /// `ArcSwap::store`: the slot holds the new frame in place of the old one.
    #[verifier::external_body]
    fn store(&mut self, frame: Framebuffer)
        ensures
            slot_frame(*final(self)) == frame@,
    {
        self.slot.store(Arc::new(frame));
    }

    /// `ArcSwap::load_full`: a handle on the frame that the slot holds.
    #[verifier::external_body]
    fn load(&self) -> (r: Arc<Framebuffer>)
        ensures
            r@ == slot_frame(*self),
    {
        self.slot.load_full()
    }
}

/// The display.
pub struct Vdp {
    pub front_buffer: FrameSlot,
}

impl Vdp {
    /// What is on display.
    pub open spec fn view(&self) -> FrameView {
        slot_frame(self.front_buffer)
    }

    /// A black display of the smallest size.
    pub fn new() -> (r: Self)
        ensures
            r@ == plain_frame(320, 224, 0),
    {
        Self { front_buffer: FrameSlot::holding(Framebuffer::new(320, 224)) }
    }

    /// Show a frame.
    pub fn present(&mut self, frame: Framebuffer)
        ensures
            final(self)@ == frame@,
    {
        self.front_buffer.store(frame);
    }

    /// The frame on display.
    pub fn front(&self) -> (r: Arc<Framebuffer>)
        ensures
            r@ == self@,
    {
        self.front_buffer.load()
    }
}

impl Default for Vdp {
    fn default() -> (r: Self)
        ensures
            r@ == plain_frame(320, 224, 0),
    {
        Self::new()
    }
}

/// Pixels per line, by TVMD.
pub open spec fn screen_width(tvmd: u16) -> int {
    let code = tvmd % 8;
    if code == 0 || code == 4 {
        320
    } else if code == 1 || code == 5 {
        352
    } else if code == 2 || code == 6 {
        640
    } else {
        704
    }
}

/// Lines per frame, by TVMD; twice as many with double-density interlace.
pub open spec fn screen_height(tvmd: u16) -> int {
    let code = tvmd / 0x10 % 4;
    let lines = if code == 0 {
        224int
    } else if code == 1 {
        240
    } else {
        256
    };
    if tvmd / 0x40 % 4 == 3 {
        lines * 2
    } else {
        lines
    }
}

/// The size of the screen.
pub fn resolution_from_tvmd(tvmd: u16) -> (r: (usize, usize))
    ensures
        r.0 == screen_width(tvmd),
        r.1 == screen_height(tvmd),
{
    let code: u16 = tvmd % 8;
    let width: usize = if code == 0 || code == 4 {
        320
    } else if code == 1 || code == 5 {
        352
    } else if code == 2 || code == 6 {
        640
    } else {
        704
    };
    let vcode: u16 = tvmd / 0x10 % 4;
    let lines: usize = if vcode == 0 {
        224
    } else if vcode == 1 {
        240
    } else {
        256
    };
    if tvmd / 0x40 % 4 == 3 {
        (width, lines * 2)
    } else {
        (width, lines)
    }
}

/// A register as latched at the first line.
pub open spec fn line0_word(m: Memory, off: int) -> u16 {
    be16(m.vdp2_lines[0][off], m.vdp2_lines[0][off + 1])
}

/// Whether the back screen shows its colour: with the display on, or with a coloured
/// border.
pub open spec fn back_shown(m: Memory) -> bool {
    line0_word(m, 0) / 0x8000 == 1 || line0_word(m, 0) / 0x100 % 2 == 1
}

/// Where the back screen's colour of a line stands in VRAM.
pub open spec fn back_addr(m: Memory, y: int) -> int {
    let upper = line0_word(m, 0xAC);
    let bank = if line0_word(m, 6) / 0x8000 == 1 {
        upper % 8
    } else {
        upper % 4
    };
    let line = if upper / 0x8000 == 1 {
        y
    } else {
        0
    };
    ((bank * 0x1_0000 + line0_word(m, 0xAE)) * 2 + line * 2) % 0x8_0000
}

/// The back screen's colour on a line.
pub open spec fn back_color(m: Memory, y: int) -> u32 {
    if back_shown(m) {
        let a = back_addr(m, y);
        screen_color(be16(m.vdp2_vram[a], m.vdp2_vram[a + 1]))
    } else {
        0
    }
}

/// The bank of the VDP1 frame buffer that is displayed.
pub open spec fn displayed_bank(m: Memory) -> Seq<u8> {
    if m.back == 0 {
        m.bank1
    } else {
        m.bank0
    }
}

/// The dots per line of the VDP1 frame buffer.
pub open spec fn vdp1_line(m: Memory) -> int {
    if be16(m.vdp1_regs[0], m.vdp1_regs[1]) % 4 == 1 {
        1024
    } else {
        512
    }
}

/// The VDP1 dot at a place of the screen; 0 where there is none.
pub open spec fn vdp1_dot(m: Memory, x: int, y: int) -> u16 {
    let at = (y * vdp1_line(m) + x) * 2;
    let bank = displayed_bank(m);
    if at + 1 < bank.len() {
        be16(bank[at], bank[at + 1])
    } else {
        0
    }
}

/// A pixel of the screen: the VDP1 dot, or the back screen where that is 0.
pub open spec fn screen_pixel(m: Memory, x: int, y: int) -> u32 {
    if vdp1_dot(m, x, y) != 0 {
        screen_color(vdp1_dot(m, x, y))
    } else {
        back_color(m, y)
    }
}

/// The whole screen.
pub open spec fn screen(m: Memory) -> FrameView {
    let w = screen_width(line0_word(m, 0));
    let h = screen_height(line0_word(m, 0));
    FrameView {
        width: w,
        height: h,
        pixels: Seq::new((w * h) as nat, |i: int| screen_pixel(m, i % w, i / w)),
    }
}

fn back_line_color(regs: &Vdp2Registers, vram: &Vec<u8>, y: usize, m: Ghost<Memory>) -> (r: u32)
    requires
        vram@ == m@.vdp2_vram,
        vram@.len() == 0x8_0000,
        y < 512,
        forall|i: int| 0 <= i < 256 ==> #[trigger] regs.regs@[i] == line0_word(m@, i * 2),
    ensures
        r == back_color(m@, y as int),
{
    assert(regs.word(0) == line0_word(m@, 0));
    assert(regs.word(6) == line0_word(m@, 6));
    assert(regs.word(0xAC) == line0_word(m@, 0xAC));
    assert(regs.word(0xAE) == line0_word(m@, 0xAE));
    if regs.disp() != 1 && regs.bdclmd() != 1 {
        return 0;
    }
    let upper: u32 = regs.bktau() as u32;
    let bank: u32 = if regs.vram_8mbit() {
        upper % 8
    } else {
        upper % 4
    };
    let line: u32 = if regs.back_screen_enabled() {
        y as u32
    } else {
        0
    };
    let at: usize = (((bank * 0x1_0000 + regs.bktal() as u32) * 2 + line * 2) % 0x8_0000) as usize;
    assert(at % 2 == 0);
    rgb555_to_xrgb8888(from_be16(vram[at], vram[at + 1]))
}

fn picture_dot(bank: &Vec<u8>, line: usize, x: usize, y: usize) -> (r: u16)
    requires
        x < 704,
        y < 512,
        line == 512 || line == 1024,
        bank@.len() == 0x4_0000,
    ensures
        r == ({
            let at = (y * line + x) * 2;
            if at + 1 < bank@.len() {
                be16(bank@[at], bank@[at + 1])
            } else {
                0
            }
        }),
{
    let row: usize = if line == 512 {
        y * 512
    } else {
        y * 1024
    };
    let at: usize = (row + x) * 2;
    if at + 1 < bank.len() {
        from_be16(bank[at], bank[at + 1])
    } else {
        0
    }
}

/// Draw the back screen, and the displayed VDP1 frame buffer over it.
pub fn render_back_screen(ram: &WorkRam) -> (r: Framebuffer)
    requires
        ram.wf(),
    ensures
        r@ == screen(ram@),
{
    let ghost m = ram@;
    let line0: &[u8; 512] = &ram.vdp2_lines[0];
    let regs: Vdp2Registers = Vdp2Registers::from_bytes(line0);
    assert forall|i: int| 0 <= i < 256 implies #[trigger] regs.regs@[i] == line0_word(m, i * 2) by {
        assert(regs.regs@[i] == be16(line0[i * 2], line0[i * 2 + 1]));
    }
    let tvmd: u16 = regs.tvmd();
    assert(tvmd == regs.regs@[0]);
    let (width, height): (usize, usize) = resolution_from_tvmd(tvmd);
    let tvmr: u16 = from_be16(ram.vdp1_regs[0], ram.vdp1_regs[1]);
    let line: usize = if tvmr % 4 == 1 {
        1024
    } else {
        512
    };
    let front: usize = 1 - ram.vdp1_framebuffers.back;
    let bank: &Vec<u8> = &ram.vdp1_framebuffers.banks[front];
    assert(bank@ == displayed_bank(m));
    let mut pixels: Vec<u32> = Vec::new();
    let mut y: usize = 0;
    while y < height
        invariant
            y <= height,
            height <= 512,
            0 < width <= 704,
            width == screen_width(line0_word(m, 0)),
            height == screen_height(line0_word(m, 0)),
            m == ram@,
            ram.wf(),
            bank@ == displayed_bank(m),
            bank@.len() == 0x4_0000,
            line == vdp1_line(m),
            line == 512 || line == 1024,
            forall|i: int| 0 <= i < 256 ==> #[trigger] regs.regs@[i] == line0_word(m, i * 2),
            pixels@.len() == y * width,
            forall|i: int|
                0 <= i < pixels@.len() ==> #[trigger] pixels@[i] == screen_pixel(
                    m,
                    i % (width as int),
                    i / (width as int),
                ),
        decreases height - y,
    {
        let back: u32 = back_line_color(&regs, &ram.vdp2_vram, y, Ghost(m));
        let mut x: usize = 0;
        while x < width
            invariant
                x <= width,
                y < height,
                height <= 512,
                0 < width <= 704,
                bank@ == displayed_bank(m),
                bank@.len() == 0x4_0000,
                line == vdp1_line(m),
                line == 512 || line == 1024,
                back == back_color(m, y as int),
                pixels@.len() == y * width + x,
                forall|i: int|
                    0 <= i < pixels@.len() ==> #[trigger] pixels@[i] == screen_pixel(
                        m,
                        i % (width as int),
                        i / (width as int),
                    ),
            decreases width - x,
        {
            let dot: u16 = picture_dot(bank, line, x, y);
            let pixel: u32 = if dot != 0 {
                rgb555_to_xrgb8888(dot)
            } else {
                back
            };
            proof {
                vstd::arithmetic::div_mod::lemma_fundamental_div_mod_converse(
                    y * width + x,
                    width as int,
                    y as int,
                    x as int,
                );
            }
            pixels.push(pixel);
            x += 1;
        }
        y += 1;
        assert(y * width == (y - 1) * width + width) by (nonlinear_arith)
            requires
                y >= 1,
        ;
    }
    let r = Framebuffer { width, height, pixels };
    assert(width * height == height * width) by (nonlinear_arith);
    assert(r@.pixels =~= screen(m).pixels);
    r
}

} // verus!
