//! VDP1's command list, and erasing and swapping its frame buffers.

use crate::arith::{divide, trunc_div};
use crate::bytes::byte16;
use crate::shared_buffers::{Memory, WorkRam, VDP1_BANK_SIZE, VDP1_VRAM_SIZE};
use crate::vdp::quad::{draw_quad, quad_drawn, quad_ok, Quad};
use crate::vdp::raster::{draw_line_impl, line_drawn, read_word, vram16, Line, Point};
use crate::vdp::{command_at, CmdTable, Vdp1State, Vdp1Status};
use vstd::prelude::*;

verus! {

/// How many commands a list may hold before it is taken to be running in circles.
pub const LIST_LIMIT: u32 = 4000;

/// The area that erasing clears, in dots: from (x, y), so wide and so high. Nothing
/// if it begins outside the frame buffer.
pub open spec fn erase_area(s: Vdp1State) -> (int, int, int, int) {
    let (width, height) = bank_shape(s);
    let y = s.ewlr as int % 512;
    let x = s.ewlr as int / 512 % 64 * 8;
    let h = s.ewrr as int % 512 + 1;
    let w = if s.tvmr % 2 == 1 {
        s.ewrr as int / 512 * 16
    } else {
        s.ewrr as int / 512 * 8 + 8
    };
    if y >= height || x >= width {
        (0, 0, 0, 0)
    } else {
        (
            x,
            y,
            if w < width - x {
                w
            } else {
                width - x
            },
            if h < height - y {
                h
            } else {
                height - y
            },
        )
    }
}

/// Dots per line and lines of a bank.
pub open spec fn bank_shape(s: Vdp1State) -> (int, int) {
    (
        if s.tvmr % 4 == 1 {
            1024
        } else {
            512
        },
        if s.tvmr % 4 == 3 {
            512
        } else {
            256
        },
    )
}

/// Whether a dot lies in an area.
pub open spec fn in_area(area: (int, int, int, int), x: int, y: int) -> bool {
    area.0 <= x < area.0 + area.2 && area.1 <= y < area.1 + area.3
}

/// Bytes per dot.
pub open spec fn dot_bytes(s: Vdp1State) -> int {
    if s.tvmr % 2 == 1 {
        1
    } else {
        2
    }
}

/// What a byte of the frame buffer is after erasing.
pub open spec fn erased_byte(fb: Seq<u8>, s: Vdp1State, j: int) -> u8 {
    let dot = j / dot_bytes(s);
    let width = bank_shape(s).0;
    if in_area(erase_area(s), dot % width, dot / width) {
        if s.tvmr % 2 == 1 {
            (s.ewdr % 0x100) as u8
        } else {
            byte16(s.ewdr, j % 2)
        }
    } else {
        fb[j]
    }
}

/// The frame buffer after erasing.
pub open spec fn erased(fb: Seq<u8>, s: Vdp1State) -> Seq<u8> {
    Seq::new(fb.len(), |j: int| erased_byte(fb, s, j))
}

/// Erase part of a bank.
#[verifier::rlimit(60)]
fn erase_bank(s: &Vdp1State, fb: &mut Vec<u8>)
    requires
        old(fb)@.len() == VDP1_BANK_SIZE,
    ensures
        final(fb)@ == erased(old(fb)@, *s),
{
    let (width, height): (usize, usize) = (
        if s.tvmr % 4 == 1 {
            1024
        } else {
            512
        },
        if s.tvmr % 4 == 3 {
            512
        } else {
            256
        },
    );
    let bytes: bool = s.tvmr % 2 == 1;
    let y1: usize = (s.ewlr % 512) as usize;
    let x1: usize = (s.ewlr / 512 % 64 * 8) as usize;
    if y1 >= height || x1 >= width {
        assert(fb@ =~= erased(old(fb)@, *s));
        return;
    }
    let mut h: usize = (s.ewrr % 512) as usize + 1;
    if h > height - y1 {
        h = height - y1;
    }
    let mut w: usize = if bytes {
        (s.ewrr / 512) as usize * 16
    } else {
        (s.ewrr / 512) as usize * 8 + 8
    };
    if w > width - x1 {
        w = width - x1;
    }
    let per: usize = if bytes {
        1
    } else {
        2
    };
    let size: usize = VDP1_BANK_SIZE;
    let ghost area = erase_area(*s);
    assert(area == (x1 as int, y1 as int, w as int, h as int));
    let mut j: usize = 0;
    while j < size
        invariant
            j <= size,
            size == VDP1_BANK_SIZE,
            fb@.len() == size,
            old(fb)@.len() == size,
            width == bank_shape(*s).0,
            bytes == (s.tvmr % 2 == 1),
            per == dot_bytes(*s),
            area == erase_area(*s),
            area == (x1 as int, y1 as int, w as int, h as int),
            x1 + w <= width,
            y1 + h <= height,
            height <= 512,
            width <= 1024,
            width >= 512,
            forall|i: int| 0 <= i < j ==> fb@[i] == erased_byte(old(fb)@, *s, i),
            forall|i: int| j <= i < size ==> fb@[i] == old(fb)@[i],
        decreases size - j,
    {
        let dot: usize = j / per;
        let x: usize = dot % width;
        let y: usize = dot / width;
        if x1 <= x && x < x1 + w && y1 <= y && y < y1 + h {
            fb[j] = if bytes {
                (s.ewdr % 0x100) as u8
            } else if j % 2 == 0 {
                (s.ewdr / 0x100) as u8
            } else {
                (s.ewdr % 0x100) as u8
            };
        }
        j = j + 1;
    }
    assert(fb@ =~= erased(old(fb)@, *s));
}

/// The memories with one bank replaced.
pub open spec fn with_bank(m: Memory, back: int, fb: Seq<u8>) -> Memory {
    if back == 0 {
        Memory { bank0: fb, ..m }
    } else {
        Memory { bank1: fb, ..m }
    }
}

/// A bank.
pub open spec fn bank_of(m: Memory, back: int) -> Seq<u8> {
    if back == 0 {
        m.bank0
    } else {
        m.bank1
    }
}

/// Erase the area that the registers select in one bank.
pub fn vdp1_erase_framebuffer(s: &Vdp1State, ram: &mut WorkRam, back: usize)
    requires
        old(ram).wf(),
        back < 2,
    ensures
        final(ram).wf(),
        final(ram)@ == with_bank(
            old(ram)@,
            back as int,
            erased(bank_of(old(ram)@, back as int), *s),
        ),
{
    if back == 0 {
        erase_bank(s, &mut ram.vdp1_framebuffers.banks[0]);
    } else {
        erase_bank(s, &mut ram.vdp1_framebuffers.banks[1]);
    }
}

/// VDP1 after the banks were swapped.
pub open spec fn swapped_state(s: Vdp1State) -> Vdp1State {
    Vdp1State {
        swap_frame_buffer: false,
        current_frame: s.current_frame ^ 1,
        edsr: s.edsr / 2,
        ..s
    }
}

/// The memories after the banks were swapped: the other bank, erased, is drawn into.
pub open spec fn swapped_memory(s: Vdp1State, m: Memory) -> Memory {
    let back = 1 - m.back;
    with_bank(
        Memory { back: back as usize, ..m },
        back,
        erased(bank_of(m, back), swapped_state(s)),
    )
}

/// Put the drawn bank on display, and erase the other one for drawing.
pub fn vdp1_swap_frame_buffers(s: &mut Vdp1State, ram: &mut WorkRam)
    requires
        old(ram).wf(),
    ensures
        final(ram).wf(),
        *final(s) == swapped_state(*old(s)),
        final(ram)@ == swapped_memory(*old(s), old(ram)@),
{
    s.swap_frame_buffer = false;
    s.current_frame = s.current_frame ^ 1;
    s.edsr = s.edsr / 2;
    let new_back: usize = 1 - ram.vdp1_framebuffers.back;
    ram.vdp1_framebuffers.back = new_back;
    vdp1_erase_framebuffer(s, ram, new_back);
}

/// A corner of a command, in the local coordinate system.
pub open spec fn corner(s: Vdp1State, x: i16, y: i16) -> Point {
    Point { x: x.wrapping_add(s.local_x) as i32, y: y.wrapping_add(s.local_y) as i32 }
}

/// The four corners of a distorted sprite or polygon.
pub open spec fn free_quad(s: Vdp1State, cmd: CmdTable) -> Quad {
    Quad {
        tl: corner(s, cmd.cmdxa, cmd.cmdya),
        tr: corner(s, cmd.cmdxb, cmd.cmdyb),
        br: corner(s, cmd.cmdxc, cmd.cmdyc),
        bl: corner(s, cmd.cmdxd, cmd.cmdyd),
    }
}

/// The rectangle with the given corner, so wide and so high.
pub open spec fn box_at(x: int, y: int, w: int, h: int) -> Quad {
    Quad {
        tl: Point { x: x as i32, y: y as i32 },
        tr: Point { x: (x + w - 1) as i32, y: y as i32 },
        bl: Point { x: x as i32, y: (y + h - 1) as i32 },
        br: Point { x: (x + w - 1) as i32, y: (y + h - 1) as i32 },
    }
}

/// The rectangle of a sprite in its own size.
pub open spec fn normal_quad(s: Vdp1State, cmd: CmdTable) -> Quad {
    let p = corner(s, cmd.cmdxa, cmd.cmdya);
    box_at(
        p.x as int,
        p.y as int,
        cmd.cmdsize as int / 0x100 % 64 * 8,
        cmd.cmdsize as int % 0x100,
    )
}

/// How far the reference point lies from the near edge: not at all, half or all of
/// the way across.
pub open spec fn anchor(which: int, size: int) -> int {
    if which == 2 {
        trunc_div(size, 2)
    } else if which == 3 {
        size
    } else {
        0
    }
}

/// The rectangle of a scaled sprite: around a reference point, or between two
/// corners.
pub open spec fn scaled_quad(s: Vdp1State, cmd: CmdTable) -> Quad {
    let p = corner(s, cmd.cmdxa, cmd.cmdya);
    let zp = cmd.cmdctrl as int / 0x100 % 16;
    if zp / 4 == 0 || zp % 4 == 0 {
        box_at(
            p.x as int,
            p.y as int,
            cmd.cmdxc - p.x + s.local_x + 1,
            cmd.cmdyc - p.y + s.local_y + 1,
        )
    } else {
        box_at(
            p.x - anchor(zp % 4, cmd.cmdxb as int),
            p.y - anchor(zp / 4, cmd.cmdyb as int),
            cmd.cmdxb + 1,
            cmd.cmdyb + 1,
        )
    }
}

/// A line of a command from one corner to another, with their shades.
pub open spec fn edge_line(cmd: CmdTable, vram: Seq<u8>, a: Point, i: int, b: Point, j: int) -> Line {
    Line {
        x1: a.x,
        y1: a.y,
        x2: b.x,
        y2: b.y,
        shade1: vram16(vram, (cmd.cmdgrda * 8 + i * 2) % (VDP1_VRAM_SIZE as int)),
        shade2: vram16(vram, (cmd.cmdgrda * 8 + j * 2) % (VDP1_VRAM_SIZE as int)),
    }
}

/// The frame buffer with the shape of a command drawn.
#[verifier::opaque]
pub open spec fn shape_drawn(
    fb: Seq<u8>,
    s: Vdp1State,
    cmd: CmdTable,
    vram: Seq<u8>,
) -> Seq<u8> {
    let shape = cmd.cmdctrl % 8;
    let q = free_quad(s, cmd);
    if shape == 0 {
        quad_drawn(fb, s, cmd, vram, normal_quad(s, cmd))
    } else if shape == 1 {
        quad_drawn(fb, s, cmd, vram, scaled_quad(s, cmd))
    } else if shape <= 4 {
        quad_drawn(fb, s, cmd, vram, q)
    } else if shape == 5 {
        // A polyline: A to B, B to C, D to C, A to D.
        let fb1 = line_drawn(fb, s, cmd, edge_line(cmd, vram, q.tl, 0, q.tr, 1));
        let fb2 = line_drawn(fb1, s, cmd, edge_line(cmd, vram, q.tr, 1, q.br, 2));
        let fb3 = line_drawn(fb2, s, cmd, edge_line(cmd, vram, q.bl, 3, q.br, 2));
        line_drawn(fb3, s, cmd, edge_line(cmd, vram, q.tl, 0, q.bl, 3))
    } else if shape == 6 {
        line_drawn(fb, s, cmd, edge_line(cmd, vram, q.tl, 0, q.tr, 1))
    } else {
        fb
    }
}

fn corner_of(s: &Vdp1State, x: i16, y: i16) -> (r: Point)
    ensures
        r == corner(*s, x, y),
        -0x8000 <= r.x < 0x8000,
        -0x8000 <= r.y < 0x8000,
{
    Point { x: x.wrapping_add(s.local_x) as i32, y: y.wrapping_add(s.local_y) as i32 }
}

fn make_box(x: i32, y: i32, w: i32, h: i32) -> (r: Quad)
    requires
        -0x4_0000 <= x <= 0x4_0000,
        -0x4_0000 <= y <= 0x4_0000,
        -0x4_0000 <= w <= 0x4_0000,
        -0x4_0000 <= h <= 0x4_0000,
    ensures
        r == box_at(x as int, y as int, w as int, h as int),
        quad_ok(r),
{
    Quad {
        tl: Point { x, y },
        tr: Point { x: x + w - 1, y },
        bl: Point { x, y: y + h - 1 },
        br: Point { x: x + w - 1, y: y + h - 1 },
    }
}

fn anchor_of(which: u16, size: i16) -> (r: i32)
    ensures
        r == anchor(which as int, size as int),
        -0x8000 <= r <= 0x8000,
{
    if which == 2 {
        let (half, _): (i64, i64) = divide(size as i64, 2);
        half as i32
    } else if which == 3 {
        size as i32
    } else {
        0
    }
}

fn sprite_box(s: &Vdp1State, cmd: &CmdTable) -> (r: Quad)
    ensures
        r == normal_quad(*s, *cmd),
        quad_ok(r),
{
    let p: Point = corner_of(s, cmd.cmdxa, cmd.cmdya);
    make_box(
        p.x,
        p.y,
        (cmd.cmdsize / 0x100 % 64 * 8) as i32,
        (cmd.cmdsize % 0x100) as i32,
    )
}

fn scaled_box(s: &Vdp1State, cmd: &CmdTable) -> (r: Quad)
    ensures
        r == scaled_quad(*s, *cmd),
        quad_ok(r),
{
    let p: Point = corner_of(s, cmd.cmdxa, cmd.cmdya);
    let zp: u16 = cmd.cmdctrl / 0x100 % 16;
    if zp / 4 == 0 || zp % 4 == 0 {
        make_box(
            p.x,
            p.y,
            cmd.cmdxc as i32 - p.x + s.local_x as i32 + 1,
            cmd.cmdyc as i32 - p.y + s.local_y as i32 + 1,
        )
    } else {
        make_box(
            p.x - anchor_of(zp % 4, cmd.cmdxb),
            p.y - anchor_of(zp / 4, cmd.cmdyb),
            cmd.cmdxb as i32 + 1,
            cmd.cmdyb as i32 + 1,
        )
    }
}

fn line_between(cmd: &CmdTable, vram: &Vec<u8>, a: Point, i: usize, b: Point, j: usize) -> (r: Line)
    requires
        vram@.len() == VDP1_VRAM_SIZE,
        i <= 3,
        j <= 3,
    ensures
        r == edge_line(*cmd, vram@, a, i as int, b, j as int),
{
    let table: usize = cmd.cmdgrda as usize * 8;
    Line {
        x1: a.x,
        y1: a.y,
        x2: b.x,
        y2: b.y,
        shade1: read_word(vram, (table + i * 2) % VDP1_VRAM_SIZE),
        shade2: read_word(vram, (table + j * 2) % VDP1_VRAM_SIZE),
    }
}

/// Draw the shape of a command.
#[verifier::rlimit(30)]
fn draw_shape(s: &Vdp1State, cmd: &CmdTable, vram: &Vec<u8>, fb: &mut Vec<u8>)
    requires
        vram@.len() == VDP1_VRAM_SIZE,
    ensures
        final(fb)@ == shape_drawn(old(fb)@, *s, *cmd, vram@),
        final(fb)@.len() == old(fb)@.len(),
{
    reveal(shape_drawn);
    let shape: u16 = cmd.cmdctrl % 8;
    if shape == 0 {
        let q: Quad = sprite_box(s, cmd);
        draw_quad(s, cmd, vram, fb, &q);
    } else if shape == 1 {
        let q: Quad = scaled_box(s, cmd);
        draw_quad(s, cmd, vram, fb, &q);
    } else if shape <= 6 {
        let tl: Point = corner_of(s, cmd.cmdxa, cmd.cmdya);
        let tr: Point = corner_of(s, cmd.cmdxb, cmd.cmdyb);
        let br: Point = corner_of(s, cmd.cmdxc, cmd.cmdyc);
        let bl: Point = corner_of(s, cmd.cmdxd, cmd.cmdyd);
        if shape <= 4 {
            let q: Quad = Quad { tl, bl, tr, br };
            draw_quad(s, cmd, vram, fb, &q);
        } else if shape == 5 {
            let ab: Line = line_between(cmd, vram, tl, 0, tr, 1);
            draw_line_impl(s, cmd, fb, &ab);
            let bc: Line = line_between(cmd, vram, tr, 1, br, 2);
            draw_line_impl(s, cmd, fb, &bc);
            let dc: Line = line_between(cmd, vram, bl, 3, br, 2);
            draw_line_impl(s, cmd, fb, &dc);
            let ad: Line = line_between(cmd, vram, tl, 0, bl, 3);
            draw_line_impl(s, cmd, fb, &ad);
        } else {
            let ab: Line = line_between(cmd, vram, tl, 0, tr, 1);
            draw_line_impl(s, cmd, fb, &ab);
        }
    }
}

/// VDP1 and the bank it draws into.
pub struct Drawing {
    pub state: Vdp1State,
    pub fb: Seq<u8>,
}

/// What a command does, apart from the jump to the next one: set the local
/// coordinates or a clipping area, or draw. While plotting is off (PTMR is 0),
/// nothing is drawn.
#[verifier::opaque]
pub open spec fn command_effect(d: Drawing, cmd: CmdTable, vram: Seq<u8>) -> Drawing {
    let s = d.state;
    let kind = cmd.cmdctrl % 16;
    if cmd.cmdctrl / 0x4000 % 2 == 1 {
        d
    } else if kind == 10 {
        Drawing { state: Vdp1State { local_x: cmd.cmdxa, local_y: cmd.cmdya, ..s }, ..d }
    } else if kind == 9 {
        Drawing {
            state: Vdp1State {
                systemclip_x1: 0,
                systemclip_y1: 0,
                systemclip_x2: cmd.cmdxc as u16,
                systemclip_y2: cmd.cmdyc as u16,
                ..s
            },
            ..d
        }
    } else if kind == 8 || kind == 11 {
        Drawing {
            state: Vdp1State {
                userclip_x1: cmd.cmdxa as u16,
                userclip_y1: cmd.cmdya as u16,
                userclip_x2: cmd.cmdxc as u16,
                userclip_y2: cmd.cmdyc as u16,
                ..s
            },
            ..d
        }
    } else if s.ptmr == 0 {
        d
    } else {
        Drawing { fb: shape_drawn(d.fb, s, cmd, vram), ..d }
    }
}

/// VDP1 after a command's jump: to the next command, to an assigned one, into a
/// subroutine or back. Only the outermost call is remembered.
#[verifier::opaque]
pub open spec fn jumped(s: Vdp1State, cmd: CmdTable) -> Vdp1State {
    let jp = cmd.cmdctrl / 0x1000 % 4;
    let next = (s.addr + 0x20) as usize;
    let link = (cmd.cmdlink * 8) as usize;
    if jp == 0 {
        Vdp1State { addr: next, ..s }
    } else if jp == 1 {
        Vdp1State { addr: link, ..s }
    } else if jp == 2 {
        Vdp1State {
            addr: link,
            return_addr: if s.return_addr is None {
                Some(next as u32)
            } else {
                s.return_addr
            },
            ..s
        }
    } else {
        match s.return_addr {
            Some(ret) => Vdp1State { addr: ret as usize, return_addr: None, ..s },
            None => Vdp1State { addr: next, ..s },
        }
    }
}

/// Whether VDP1 stops before it looks at a command, and how: at an address outside
/// VRAM, or at the end bit of the status register.
pub open spec fn stops_early(s: Vdp1State) -> bool {
    s.addr > 0x7_FFFF || s.edsr & 0x02 != 0
}

/// VDP1 after it has stopped before looking at a command.
pub open spec fn stopped_early(s: Vdp1State) -> Vdp1State {
    if s.addr > 0x7_FFFF {
        Vdp1State { status: Vdp1Status::IDLE, ..s }
    } else {
        let at = (s.addr / 8) as u16;
        Vdp1State { copr: at, lopr: at, status: Vdp1Status::IDLE, ..s }
    }
}

/// VDP1 and its bank after the list has been worked on from the current command on,
/// `done` commands having been carried out, and whether the list has been drawn.
pub open spec fn list_done(d: Drawing, vram: Seq<u8>, done: int) -> (Drawing, bool)
    decreases LIST_LIMIT + 1 - done,
{
    if done > LIST_LIMIT {
        (d, false)
    } else if stops_early(d.state) {
        (Drawing { state: stopped_early(d.state), ..d }, false)
    } else {
        let s = Vdp1State { copr: (d.state.addr / 8) as u16, ..d.state };
        let d1 = Drawing { state: s, ..d };
        if s.addr + 32 > vram.len() {
            (d1, false)
        } else {
            let cmd = command_at(vram, s.addr as int);
            if cmd.cmdctrl >= 0x8000 {
                // The end of the list; an empty list counts as not drawn.
                if done == 0 {
                    (Drawing { state: Vdp1State { status: Vdp1Status::IDLE, ..s }, ..d1 }, false)
                } else {
                    (
                        Drawing {
                            state: Vdp1State {
                                status: Vdp1Status::IDLE,
                                edsr: s.edsr | 2,
                                ..s
                            },
                            ..d1
                        },
                        true,
                    )
                }
            } else if cmd.cmdctrl % 16 >= 12 {
                // No such command.
                (
                    Drawing {
                        state: Vdp1State {
                            edsr: s.edsr | 2,
                            lopr: (s.addr / 8) as u16,
                            status: Vdp1Status::IDLE,
                            ..s
                        },
                        ..d1
                    },
                    false,
                )
            } else {
                let d2 = command_effect(d1, cmd, vram);
                let d3 = Drawing { state: jumped(d2.state, cmd), ..d2 };
                if d3.state.addr == 0 {
                    (d3, false)
                } else {
                    list_done(d3, vram, done + 1)
                }
            }
        }
    }
}

/// VDP1 when it begins, or goes on with, a list.
pub open spec fn list_started(s: Vdp1State) -> Vdp1State {
    let s1 = Vdp1State {
        vblank_erase: false,
        edsr: if s.ptmr == 1 {
            (s.edsr / 2) as u16
        } else {
            s.edsr
        },
        ..s
    };
    if s.status is IDLE {
        Vdp1State { addr: 0, copr: 0, status: Vdp1Status::RUNNING, ..s1 }
    } else {
        s1
    }
}

/// VDP1's state and the memories after the list has been worked on, and whether it
/// has been drawn.
pub open spec fn list_executed(s: Vdp1State, m: Memory) -> (Vdp1State, Memory, bool) {
    let back = m.back as int;
    let fb = if s.vblank_erase {
        erased(bank_of(m, back), s_without_erase(s))
    } else {
        bank_of(m, back)
    };
    let (d, drawn) = list_done(Drawing { state: list_started(s), fb }, m.vdp1_vram, 0);
    (d.state, with_bank(m, back, d.fb), drawn)
}

/// The state that erasing at the start of a list goes by.
pub open spec fn s_without_erase(s: Vdp1State) -> Vdp1State {
    Vdp1State { vblank_erase: false, ..s }
}

/// Carry out what a command does apart from its jump.
#[verifier::rlimit(30)]
fn apply_command(s: &mut Vdp1State, cmd: &CmdTable, vram: &Vec<u8>, fb: &mut Vec<u8>)
    requires
        vram@.len() == VDP1_VRAM_SIZE,
    ensures
        (Drawing { state: *final(s), fb: final(fb)@ }) == command_effect(
            Drawing { state: *old(s), fb: old(fb)@ },
            *cmd,
            vram@,
        ),
        final(fb)@.len() == old(fb)@.len(),
        final(s).addr == old(s).addr,
        final(s).return_addr == old(s).return_addr,
{
    reveal(command_effect);
    if cmd.cmdctrl / 0x4000 % 2 == 1 {
        return;
    }
    let kind: u16 = cmd.cmdctrl % 16;
    if kind == 10 {
        s.local_x = cmd.cmdxa;
        s.local_y = cmd.cmdya;
    } else if kind == 9 {
        s.systemclip_x1 = 0;
        s.systemclip_y1 = 0;
        s.systemclip_x2 = cmd.cmdxc as u16;
        s.systemclip_y2 = cmd.cmdyc as u16;
    } else if kind == 8 || kind == 11 {
        s.userclip_x1 = cmd.cmdxa as u16;
        s.userclip_y1 = cmd.cmdya as u16;
        s.userclip_x2 = cmd.cmdxc as u16;
        s.userclip_y2 = cmd.cmdyc as u16;
    } else if s.ptmr != 0 {
        draw_shape(s, cmd, vram, fb);
    }
}

/// Follow a command's jump.
fn follow_jump(s: &mut Vdp1State, cmd: &CmdTable)
    requires
        old(s).addr <= 0x7_FFFF,
    ensures
        *final(s) == jumped(*old(s), *cmd),
{
    reveal(jumped);
    let jp: u16 = cmd.cmdctrl / 0x1000 % 4;
    let next: usize = s.addr + 0x20;
    let link: usize = cmd.cmdlink as usize * 8;
    if jp == 0 {
        s.addr = next;
    } else if jp == 1 {
        s.addr = link;
    } else if jp == 2 {
        if s.return_addr.is_none() {
            s.return_addr = Some(next as u32);
        }
        s.addr = link;
    } else {
        match s.return_addr {
            Some(ret) => {
                s.return_addr = None;
                s.addr = ret as usize;
            },
            None => {
                s.addr = next;
            },
        }
    }
}

/// Work on the list from the current command on.
#[verifier::rlimit(40)]
fn run_list(s: &mut Vdp1State, vram: &Vec<u8>, fb: &mut Vec<u8>) -> (r: bool)
    requires
        vram@.len() == VDP1_VRAM_SIZE,
    ensures
        ({
            let (d, drawn) = list_done(Drawing { state: *old(s), fb: old(fb)@ }, vram@, 0);
            &&& *final(s) == d.state
            &&& final(fb)@ == d.fb
            &&& r == drawn
        }),
        final(fb)@.len() == old(fb)@.len(),
{
    let ghost goal = list_done(Drawing { state: *s, fb: fb@ }, vram@, 0);
    let mut done: u32 = 0;
    let mut more: bool = true;
    let mut drawn: bool = false;
    while more && done <= LIST_LIMIT
        invariant
            vram@.len() == VDP1_VRAM_SIZE,
            done <= LIST_LIMIT + 1,
            fb@.len() == old(fb)@.len(),
            more ==> !drawn,
            more ==> goal == list_done(Drawing { state: *s, fb: fb@ }, vram@, done as int),
            !more ==> goal == (Drawing { state: *s, fb: fb@ }, drawn),
        decreases
                LIST_LIMIT + 1 - done + if more {
                    1int
                } else {
                    0
                },
    {
        if s.addr > 0x7_FFFF {
            s.status = Vdp1Status::IDLE;
            more = false;
        } else if s.edsr & 0x02 != 0 {
            let at: u16 = (s.addr / 8) as u16;
            s.copr = at;
            s.lopr = at;
            s.status = Vdp1Status::IDLE;
            more = false;
        } else {
            s.copr = (s.addr / 8) as u16;
            if s.addr + 32 > vram.len() {
                more = false;
            } else {
                let cmd: CmdTable = CmdTable::read(vram, s.addr);
                if cmd.cmdctrl >= 0x8000 {
                    s.status = Vdp1Status::IDLE;
                    if done > 0 {
                        s.edsr = s.edsr | 2;
                        drawn = true;
                    }
                    more = false;
                } else if cmd.cmdctrl % 16 >= 12 {
                    s.edsr = s.edsr | 2;
                    s.lopr = (s.addr / 8) as u16;
                    s.status = Vdp1Status::IDLE;
                    more = false;
                } else {
                    apply_command(s, &cmd, vram, fb);
                    follow_jump(s, &cmd);
                    if s.addr == 0 {
                        more = false;
                        assert(goal == (Drawing { state: *s, fb: fb@ }, drawn));
                    } else {
                        done = done + 1;
                        assert(goal == list_done(
                            Drawing { state: *s, fb: fb@ },
                            vram@,
                            done as int,
                        ));
                    }
                }
            }
        }
    }
    drawn
}

/// Work on the command list: erase first if that is due, then draw into the bank at
/// the back. Returns whether a list has been drawn to its end.
pub fn execute_vdp1(s: &mut Vdp1State, ram: &mut WorkRam) -> (r: bool)
    requires
        old(ram).wf(),
    ensures
        final(ram).wf(),
        (*final(s), final(ram)@, r) == list_executed(*old(s), old(ram)@),
{
    let back: usize = ram.vdp1_framebuffers.back;
    if s.vblank_erase {
        s.vblank_erase = false;
        vdp1_erase_framebuffer(s, ram, back);
    }
    if s.ptmr == 1 {
        s.edsr = s.edsr / 2;
    }
    match s.status {
        Vdp1Status::IDLE => {
            s.addr = 0;
            s.copr = 0;
            s.status = Vdp1Status::RUNNING;
        },
        Vdp1Status::RUNNING => {},
    }
    assert(*s == list_started(*old(s)));
    if back == 0 {
        run_list(s, &ram.vdp1_vram, &mut ram.vdp1_framebuffers.banks[0])
    } else {
        run_list(s, &ram.vdp1_vram, &mut ram.vdp1_framebuffers.banks[1])
    }
}

} // verus!
