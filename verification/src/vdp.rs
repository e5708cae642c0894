//! VDP1: the command list processor and the rasteriser, and what the two display
//! processors have in common.

pub mod color;
pub mod color_laws;
pub mod frame;
pub mod laws;
pub mod layer_laws;
pub mod layers;
pub mod list;
pub mod list_laws;
pub mod paint_laws;
pub mod quad;
pub mod raster;
pub mod shape_laws;

use crate::bytes::{be16, from_be16};
use vstd::prelude::*;

pub use crate::shared_buffers::Vdp1Framebuffers;
pub use crate::vdp::color::{alphablend16, gouraud_adjust, rgb555_to_xrgb8888};
pub use crate::vdp::frame::{render_back_screen, resolution_from_tvmd, Framebuffer, Vdp};
pub use crate::vdp::layers::render_frame;
pub use crate::vdp::list::{execute_vdp1, vdp1_erase_framebuffer, vdp1_swap_frame_buffers};

verus! {

/// Whether VDP1 is working on a command list.
#[derive(Copy, Clone, Debug, PartialEq, Eq, Structural)]
pub enum Vdp1Status {
    IDLE,
    RUNNING,
}

/// The registers and the drawing state of VDP1.
#[derive(Copy, Clone, Debug, PartialEq, Eq, Structural)]
pub struct Vdp1State {
    pub tvmr: u16,
    pub fbcr: u16,
    pub ptmr: u16,
    pub ewdr: u16,
    pub ewlr: u16,
    pub ewrr: u16,
    pub endr: u16,
    pub edsr: u16,
    pub lopr: u16,
    pub copr: u16,
    /// Byte address of the current command.
    pub addr: usize,
    pub local_x: i16,
    pub local_y: i16,
    pub systemclip_x1: u16,
    pub systemclip_y1: u16,
    pub systemclip_x2: u16,
    pub systemclip_y2: u16,
    pub userclip_x1: u16,
    pub userclip_y1: u16,
    pub userclip_x2: u16,
    pub userclip_y2: u16,
    pub status: Vdp1Status,
    /// Where the outermost call returns to.
    pub return_addr: Option<u32>,
    pub vblank_erase: bool,
    pub current_frame: u8,
    pub swap_frame_buffer: bool,
    pub manualerase: bool,
    pub manualchange: bool,
}

/// VDP1 at power-on: idle, everything zero, clipping wide open.
pub open spec fn vdp1_init() -> Vdp1State {
    Vdp1State {
        tvmr: 0,
        fbcr: 0,
        ptmr: 0,
        ewdr: 0,
        ewlr: 0,
        ewrr: 0,
        endr: 0,
        edsr: 0,
        lopr: 0,
        copr: 0,
        addr: 0,
        local_x: 0,
        local_y: 0,
        systemclip_x1: 0,
        systemclip_y1: 0,
        systemclip_x2: 1024,
        systemclip_y2: 1024,
        userclip_x1: 0,
        userclip_y1: 0,
        userclip_x2: 1024,
        userclip_y2: 1024,
        status: Vdp1Status::IDLE,
        return_addr: None,
        vblank_erase: false,
        current_frame: 0,
        swap_frame_buffer: false,
        manualerase: false,
        manualchange: false,
    }
}

impl Vdp1State {
    pub fn new() -> (r: Self)
        ensures
            r == vdp1_init(),
    {
        Self {
            tvmr: 0,
            fbcr: 0,
            ptmr: 0,
            ewdr: 0,
            ewlr: 0,
            ewrr: 0,
            endr: 0,
            edsr: 0,
            lopr: 0,
            copr: 0,
            addr: 0,
            local_x: 0,
            local_y: 0,
            systemclip_x1: 0,
            systemclip_y1: 0,
            systemclip_x2: 1024,
            systemclip_y2: 1024,
            userclip_x1: 0,
            userclip_y1: 0,
            userclip_x2: 1024,
            userclip_y2: 1024,
            status: Vdp1Status::IDLE,
            return_addr: None,
            vblank_erase: false,
            current_frame: 0,
            swap_frame_buffer: false,
            manualerase: false,
            manualchange: false,
        }
    }
}

/// A command of VDP1's list.
#[derive(Copy, Clone, Debug, PartialEq, Eq, Structural)]
pub struct CmdTable {
    pub cmdctrl: u16,
    pub cmdlink: u16,
    pub cmdpmod: u16,
    pub cmdcolr: u16,
    pub cmdsrca: u16,
    pub cmdsize: u16,
    pub cmdxa: i16,
    pub cmdya: i16,
    pub cmdxb: i16,
    pub cmdyb: i16,
    pub cmdxc: i16,
    pub cmdyc: i16,
    pub cmdxd: i16,
    pub cmdyd: i16,
    pub cmdgrda: u16,
}

/// The signed 16-bit value with the given big-endian bytes.
pub open spec fn be_signed(hi: u8, lo: u8) -> i16 {
    if hi < 0x80 {
        (hi * 0x100 + lo) as i16
    } else {
        (hi * 0x100 + lo - 0x1_0000) as i16
    }
}

fn signed_be(hi: u8, lo: u8) -> (r: i16)
    ensures
        r == be_signed(hi, lo),
{
    if hi < 0x80 {
        (hi as i16) * 0x100 + lo as i16
    } else {
        ((hi as i32) * 0x100 + lo as i32 - 0x1_0000) as i16
    }
}

/// The command at an address: fifteen big-endian words.
#[verifier::opaque]
pub open spec fn command_at(vram: Seq<u8>, a: int) -> CmdTable {
    CmdTable {
        cmdctrl: be16(vram[a], vram[a + 1]),
        cmdlink: be16(vram[a + 2], vram[a + 3]),
        cmdpmod: be16(vram[a + 4], vram[a + 5]),
        cmdcolr: be16(vram[a + 6], vram[a + 7]),
        cmdsrca: be16(vram[a + 8], vram[a + 9]),
        cmdsize: be16(vram[a + 10], vram[a + 11]),
        cmdxa: be_signed(vram[a + 12], vram[a + 13]),
        cmdya: be_signed(vram[a + 14], vram[a + 15]),
        cmdxb: be_signed(vram[a + 16], vram[a + 17]),
        cmdyb: be_signed(vram[a + 18], vram[a + 19]),
        cmdxc: be_signed(vram[a + 20], vram[a + 21]),
        cmdyc: be_signed(vram[a + 22], vram[a + 23]),
        cmdxd: be_signed(vram[a + 24], vram[a + 25]),
        cmdyd: be_signed(vram[a + 26], vram[a + 27]),
        cmdgrda: be16(vram[a + 28], vram[a + 29]),
    }
}

impl CmdTable {
    /// Read the command at an address.
    pub fn read(vram: &Vec<u8>, addr: usize) -> (r: Self)
        requires
            addr + 30 <= vram@.len(),
        ensures
            r == command_at(vram@, addr as int),
    {
        reveal(command_at);
        let size: usize = vram.len();
        assert(addr + 30 <= size);
        Self {
            cmdctrl: from_be16(vram[addr], vram[addr + 1]),
            cmdlink: from_be16(vram[addr + 2], vram[addr + 3]),
            cmdpmod: from_be16(vram[addr + 4], vram[addr + 5]),
            cmdcolr: from_be16(vram[addr + 6], vram[addr + 7]),
            cmdsrca: from_be16(vram[addr + 8], vram[addr + 9]),
            cmdsize: from_be16(vram[addr + 10], vram[addr + 11]),
            cmdxa: signed_be(vram[addr + 12], vram[addr + 13]),
            cmdya: signed_be(vram[addr + 14], vram[addr + 15]),
            cmdxb: signed_be(vram[addr + 16], vram[addr + 17]),
            cmdyb: signed_be(vram[addr + 18], vram[addr + 19]),
            cmdxc: signed_be(vram[addr + 20], vram[addr + 21]),
            cmdyc: signed_be(vram[addr + 22], vram[addr + 23]),
            cmdxd: signed_be(vram[addr + 24], vram[addr + 25]),
            cmdyd: signed_be(vram[addr + 26], vram[addr + 27]),
            cmdgrda: from_be16(vram[addr + 28], vram[addr + 29]),
        }
    }
}

} // verus!
