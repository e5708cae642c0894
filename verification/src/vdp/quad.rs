//! Drawing quadrangles: sprites and polygons.

use crate::arith::{divide, floor_div, low16, low32, trunc_div, wrap_s16, wrap_s32};
use crate::bytes::from_be16;
use crate::shared_buffers::VDP1_VRAM_SIZE;
use crate::vdp::color::{
    alphablend16, blue, clamp_channel, gouraud_adjust, green, halve, halved, index_shifted, mark,
    marked, mixed, pack, red, shade_shifts_index, shaded, shift_index,
};
use crate::vdp::raster::{
    dot16, dot_index, dot_number, dots_are_bytes, drawable, interpolate, line_scale, may_draw,
    pattern4, pattern8, point_ok, read_pattern_128, read_pattern_16, read_pattern_256,
    read_pattern_64, read_pattern_64k, read_word, shade_at, slope, vram16, with_dot16, Point,
};
use crate::vdp::{CmdTable, Vdp1State};
use vstd::prelude::*;

verus! {

/// The corners of a shape: top left, bottom left, top right, bottom right.
#[derive(Copy, Clone, Debug, PartialEq, Eq, Structural)]
pub struct Quad {
    pub tl: Point,
    pub bl: Point,
    pub tr: Point,
    pub br: Point,
}

pub open spec fn quad_ok(q: Quad) -> bool {
    point_ok(q.tl) && point_ok(q.bl) && point_ok(q.tr) && point_ok(q.br)
}

/// Width of the pattern in dots.
pub open spec fn char_width(cmd: CmdTable) -> int {
    cmd.cmdsize as int / 0x100 % 64 * 8
}

/// Height of the pattern in dots.
pub open spec fn char_height(cmd: CmdTable) -> int {
    cmd.cmdsize as int % 0x100
}

/// Whether a command draws a plain colour.
pub open spec fn untextured(cmd: CmdTable) -> bool {
    4 <= cmd.cmdctrl % 8 <= 6
}

/// Whether a command shades its dots.
pub open spec fn shades(cmd: CmdTable) -> bool {
    cmd.cmdpmod / 4 % 2 == 1 || cmd.cmdctrl % 8 == 5 || cmd.cmdctrl % 8 == 6
}

/// The colour mode of a pattern.
pub open spec fn color_mode(cmd: CmdTable) -> int {
    cmd.cmdpmod as int / 8 % 8
}

/// Whether dots of colour 0 are drawn.
pub open spec fn draws_clear(cmd: CmdTable) -> bool {
    cmd.cmdpmod / 0x40 % 2 == 1
}

/// Whether end codes in the pattern are heeded.
pub open spec fn heeds_end_codes(cmd: CmdTable) -> bool {
    cmd.cmdpmod / 0x80 % 2 == 0
}

/// The shades of the four corners, in the order of the command's corners.
pub open spec fn corner_shade(cmd: CmdTable, vram: Seq<u8>, i: int) -> u16 {
    vram16(vram, (cmd.cmdgrda * 8 + i * 2) % (VDP1_VRAM_SIZE as int))
}

/// What a dot of a pattern is.
#[derive(Copy, Clone, Debug, PartialEq, Eq, Structural)]
pub enum Texel {
    /// Nothing is drawn.
    Clear,
    /// The end of the line, the second time it is met.
    EndCode,
    /// A colour, and whether it differs from the pattern's colour 0.
    Dot(u16, bool),
}

/// The dot of a pattern at the given place.
#[verifier::opaque]
pub open spec fn texel(cmd: CmdTable, vram: Seq<u8>, tx: int, ty: int) -> Texel {
    let mode = color_mode(cmd);
    let w = char_width(cmd);
    let stride = if mode <= 1 {
        w / 2
    } else if mode == 5 {
        w * 2
    } else {
        w
    };
    let base = cmd.cmdsrca * 8;
    let off = ty * stride + tx;
    let colr = cmd.cmdcolr as int;
    if untextured(cmd) {
        Texel::Dot(cmd.cmdcolr, cmd.cmdcolr != 0)
    } else if mode == 0 || mode == 1 {
        let idx = pattern4(vram, base, off);
        let looked_up = vram16(vram, (idx * 2 + colr * 8 % 0x1_0000) % 0x1_0000);
        if heeds_end_codes(cmd) && idx == 15 {
            Texel::EndCode
        } else if idx == 0 && !draws_clear(cmd) {
            Texel::Clear
        } else if mode == 0 {
            Texel::Dot((colr / 16 * 16 + idx) as u16, idx != 0)
        } else {
            Texel::Dot(looked_up, looked_up != 0)
        }
    } else if mode == 2 {
        let idx = pattern8(vram, base, off) % 64;
        if idx == 63 || (idx == 0 && !draws_clear(cmd)) {
            Texel::Clear
        } else {
            Texel::Dot((colr / 64 * 64 + idx) as u16, idx != 0)
        }
    } else if mode == 3 {
        let idx = pattern8(vram, base, off) % 128;
        if idx == 0 && !draws_clear(cmd) {
            Texel::Clear
        } else {
            Texel::Dot((colr / 128 * 128 + idx) as u16, idx != 0)
        }
    } else if mode == 4 {
        let idx = pattern8(vram, base, off);
        if heeds_end_codes(cmd) && idx == 255 {
            Texel::EndCode
        } else if idx == 0 && !draws_clear(cmd) {
            Texel::Clear
        } else {
            Texel::Dot((colr / 256 * 256 + idx) as u16, idx != 0)
        }
    } else if mode == 5 {
        let word = vram16(vram, base + off * 2);
        if heeds_end_codes(cmd) && word == 0x7FFF {
            Texel::EndCode
        } else if word < 0x8000 && !draws_clear(cmd) {
            Texel::Clear
        } else {
            Texel::Dot(word, word != 0)
        }
    } else {
        Texel::Dot(0, false)
    }
}

/// Fetch a dot of a pattern.
#[verifier::rlimit(40)]
fn fetch_texel(cmd: &CmdTable, vram: &Vec<u8>, tx: i64, ty: i64) -> (r: Texel)
    requires
        vram@.len() == VDP1_VRAM_SIZE,
        0 <= tx <= 0x1000,
        0 <= ty <= 0x100,
    ensures
        r == texel(*cmd, vram@, tx as int, ty as int),
{
    reveal(texel);
    let shape: u16 = cmd.cmdctrl % 8;
    if 4 <= shape && shape <= 6 {
        return Texel::Dot(cmd.cmdcolr, cmd.cmdcolr != 0);
    }
    let mode: u16 = cmd.cmdpmod / 8 % 8;
    let spd: bool = cmd.cmdpmod / 0x40 % 2 == 1;
    let ecd: bool = cmd.cmdpmod / 0x80 % 2 == 0;
    let w: usize = (cmd.cmdsize / 0x100 % 64 * 8) as usize;
    let stride: usize = if mode <= 1 {
        w / 2
    } else if mode == 5 {
        w * 2
    } else {
        w
    };
    let base: usize = cmd.cmdsrca as usize * 8;
    assert(0 <= ty * stride <= 0x100 * 1008) by (nonlinear_arith)
        requires
            0 <= ty <= 0x100,
            0 <= stride <= 1008,
    ;
    let off: usize = ty as usize * stride + tx as usize;
    let colr: u16 = cmd.cmdcolr;
    if mode <= 1 {
        let idx: u16 = read_pattern_16(vram, base, off) as u16;
        if ecd && idx == 15 {
            Texel::EndCode
        } else if idx == 0 && !spd {
            Texel::Clear
        } else if mode == 0 {
            Texel::Dot(colr / 16 * 16 + idx, idx != 0)
        } else {
            let lut: u32 = (idx as u32 * 2 + colr as u32 * 8 % 0x1_0000) % 0x1_0000;
            let word: u16 = read_word(vram, lut as usize);
            Texel::Dot(word, word != 0)
        }
    } else if mode == 2 {
        let idx: u16 = read_pattern_64(vram, base, off) as u16;
        if idx == 63 || (idx == 0 && !spd) {
            Texel::Clear
        } else {
            Texel::Dot(colr / 64 * 64 + idx, idx != 0)
        }
    } else if mode == 3 {
        let idx: u16 = read_pattern_128(vram, base, off) as u16;
        if idx == 0 && !spd {
            Texel::Clear
        } else {
            Texel::Dot(colr / 128 * 128 + idx, idx != 0)
        }
    } else if mode == 4 {
        let idx: u16 = read_pattern_256(vram, base, off) as u16;
        if ecd && idx == 255 {
            Texel::EndCode
        } else if idx == 0 && !spd {
            Texel::Clear
        } else {
            Texel::Dot(colr / 256 * 256 + idx, idx != 0)
        }
    } else if mode == 5 {
        let word: u16 = read_pattern_64k(vram, base, off);
        if ecd && word == 0x7FFF {
            Texel::EndCode
        } else if word < 0x8000 && !spd {
            Texel::Clear
        } else {
            Texel::Dot(word, word != 0)
        }
    } else {
        Texel::Dot(0, false)
    }
}

/// A dot of a quadrangle once it has met what is there.
pub open spec fn quad_over(cmd: CmdTable, pixel: u16, shade: u16, below: u16) -> u16 {
    let calc = cmd.cmdpmod % 8;
    if cmd.cmdpmod >= 0x8000 {
        marked(below)
    } else if calc == 0 {
        pixel
    } else if calc == 1 {
        if below >= 0x8000 {
            marked(mixed(below, 0, 128))
        } else {
            below
        }
    } else if calc == 2 {
        halved(pixel)
    } else if calc == 3 {
        if below >= 0x8000 {
            marked(mixed(below, pixel, 128))
        } else {
            pixel
        }
    } else if calc == 4 {
        if color_mode(cmd) != 1 && color_mode(cmd) != 5 && shade_shifts_index(shade) {
            index_shifted(pixel, shade)
        } else {
            shaded(pixel, shade)
        }
    } else {
        marked(mixed(shade, pixel, 128))
    }
}

/// The frame buffer with a dot of a quadrangle drawn.
#[verifier::opaque]
pub open spec fn quad_dot(
    fb: Seq<u8>,
    s: Vdp1State,
    cmd: CmdTable,
    x: int,
    y: int,
    pixel: u16,
    shade: u16,
) -> Seq<u8> {
    let i = dot_index(s, x, y);
    if dots_are_bytes(s) {
        if i < fb.len() {
            fb.update(i, (pixel % 0x100) as u8)
        } else {
            fb
        }
    } else if i * 2 + 1 < fb.len() {
        with_dot16(fb, i, quad_over(cmd, pixel, shade, dot16(fb, i)))
    } else {
        fb
    }
}

/// Draw a dot of a quadrangle.
#[verifier::rlimit(30)]
fn draw_quad_dot(
    s: &Vdp1State,
    cmd: &CmdTable,
    fb: &mut Vec<u8>,
    x: i64,
    y: i64,
    pixel: u16,
    shade: u16,
)
    requires
        drawable(*s, *cmd, x as int, y as int),
    ensures
        final(fb)@ == quad_dot(old(fb)@, *s, *cmd, x as int, y as int, pixel, shade),
        final(fb)@.len() == old(fb)@.len(),
{
    reveal(quad_dot);
    let i: usize = dot_number(s, cmd, x, y);
    if s.tvmr % 2 == 1 {
        if i < fb.len() {
            fb[i] = (pixel % 0x100) as u8;
        }
    } else if i * 2 + 1 < fb.len() {
        let below: u16 = from_be16(fb[i * 2], fb[i * 2 + 1]);
        let calc: u16 = cmd.cmdpmod % 8;
        let mode: u16 = cmd.cmdpmod / 8 % 8;
        let c: u16 = if cmd.cmdpmod >= 0x8000 {
            mark(below)
        } else if calc == 0 {
            pixel
        } else if calc == 1 {
            if below >= 0x8000 {
                mark(alphablend16(below, 0, 128))
            } else {
                below
            }
        } else if calc == 2 {
            halve(pixel)
        } else if calc == 3 {
            if below >= 0x8000 {
                mark(alphablend16(below, pixel, 128))
            } else {
                pixel
            }
        } else if calc == 4 {
            if mode != 1 && mode != 5 && shade / 32 % 32 == 16 && shade / 1024 % 32 == 16 {
                shift_index(pixel, shade)
            } else {
                gouraud_adjust(pixel, shade)
            }
        } else {
            mark(alphablend16(shade, pixel, 128))
        };
        fb[i * 2] = (c / 0x100) as u8;
        fb[i * 2 + 1] = (c % 0x100) as u8;
    }
}

/// One row of a quadrangle: from `lx` to `rx`, with the place in the pattern and
/// the shades (in 65536ths) that belong to its left end and their steps.
#[derive(Copy, Clone, Debug, PartialEq, Eq, Structural)]
pub struct Row {
    pub y: i64,
    pub lx: i64,
    pub rx: i64,
    pub tex_y: i64,
    pub tex_step: i64,
    pub r: i64,
    pub g: i64,
    pub b: i64,
    pub r_step: i64,
    pub g_step: i64,
    pub b_step: i64,
}

/// The value of an edge after `i` of `n` steps, kept in 16 bits.
pub open spec fn edge(start: int, end: int, n: int, i: int) -> int {
    wrap_s16(start + i * slope(start, end, n))
}

/// How much a shade changes per dot of a row.
pub open spec fn shade_step(left: int, right: int, span: int) -> int {
    trunc_div(wrap_s32(right - left), span)
}

/// A number, or 1 if it is smaller.
pub open spec fn at_least_one(v: int) -> int {
    if v < 1 {
        1
    } else {
        v
    }
}

pub open spec fn left_length(q: Quad) -> int {
    q.bl.y - q.tl.y
}

pub open spec fn right_length(q: Quad) -> int {
    q.br.y - q.tr.y
}

/// The last row of a quadrangle, the first being 0.
pub open spec fn last_row(q: Quad) -> int {
    at_least_one(
        if left_length(q) > right_length(q) {
            left_length(q)
        } else {
            right_length(q)
        },
    )
}

/// The line of the pattern that belongs to a row.
pub open spec fn pattern_line(cmd: CmdTable, q: Quad, i: int) -> int {
    let h = char_height(cmd);
    let line = i * (h * 0x1_0000 / last_row(q)) / 0x1_0000;
    if cmd.cmdctrl / 0x20 % 2 == 1 {
        if h - 1 - line < 0 {
            0
        } else {
            h - 1 - line
        }
    } else {
        line
    }
}

/// Row `i` of a quadrangle. The left edge runs from corner 0 to corner 3, the right
/// one from corner 1 to corner 2.
#[verifier::opaque]
pub open spec fn row_of(cmd: CmdTable, vram: Seq<u8>, q: Quad, i: int) -> Row {
    let lx = edge(q.tl.x as int, q.bl.x as int, left_length(q), i);
    let rx = edge(q.tr.x as int, q.br.x as int, right_length(q), i);
    let span = at_least_one(rx - lx);
    let c0 = corner_shade(cmd, vram, 0);
    let c1 = corner_shade(cmd, vram, 1);
    let c2 = corner_shade(cmd, vram, 2);
    let c3 = corner_shade(cmd, vram, 3);
    let lr = edge(red(c0), red(c3), left_length(q), i) * 0x1_0000;
    let lg = edge(green(c0), green(c3), left_length(q), i) * 0x1_0000;
    let lb = edge(blue(c0), blue(c3), left_length(q), i) * 0x1_0000;
    let rr = edge(red(c1), red(c2), right_length(q), i) * 0x1_0000;
    let rg = edge(green(c1), green(c2), right_length(q), i) * 0x1_0000;
    let rb = edge(blue(c1), blue(c2), right_length(q), i) * 0x1_0000;
    let on = shades(cmd);
    Row {
        y: (q.tl.y + i) as i64,
        lx: lx as i64,
        rx: rx as i64,
        tex_y: pattern_line(cmd, q, i) as i64,
        tex_step: (char_width(cmd) * 0x1_0000 / span) as i64,
        r: if on { lr as i64 } else { 0 },
        g: if on { lg as i64 } else { 0 },
        b: if on { lb as i64 } else { 0 },
        r_step: if on { shade_step(lr, rr, span) as i64 } else { 0 },
        g_step: if on { shade_step(lg, rg, span) as i64 } else { 0 },
        b_step: if on { shade_step(lb, rb, span) as i64 } else { 0 },
    }
}

/// The dot of the pattern that belongs to the `k`th dot of a row.
pub open spec fn pattern_dot(cmd: CmdTable, row: Row, k: int) -> int {
    let dot = k * row.tex_step / 0x1_0000;
    if cmd.cmdctrl / 0x10 % 2 == 1 {
        if char_width(cmd) - 1 - dot < 0 {
            0
        } else {
            char_width(cmd) - 1 - dot
        }
    } else {
        dot
    }
}

/// The shade of the `k`th dot of a row.
pub open spec fn row_shade(row: Row, k: int) -> u16 {
    shade_at(
        wrap_s32(row.r + (k + 1) * row.r_step) / 0x1_0000,
        wrap_s32(row.g + (k + 1) * row.g_step) / 0x1_0000,
        wrap_s32(row.b + (k + 1) * row.b_step) / 0x1_0000,
    )
}

/// The frame buffer with a row drawn from its `k`th dot on, where `ends` end codes
/// have been met, the last at dot `last` of the pattern. Neighbouring dots that show
/// the same end code count once.
pub open spec fn row_drawn(
    fb: Seq<u8>,
    s: Vdp1State,
    cmd: CmdTable,
    vram: Seq<u8>,
    row: Row,
    k: int,
    ends: int,
    last: int,
) -> Seq<u8>
    decreases row.rx - row.lx + 1 - k,
{
    let x = row.lx + k;
    let tx = pattern_dot(cmd, row, k);
    if x > row.rx {
        fb
    } else if !drawable(s, cmd, x, row.y as int) {
        row_drawn(fb, s, cmd, vram, row, k + 1, ends, last)
    } else {
        match texel(cmd, vram, tx, row.tex_y as int) {
            Texel::Clear => row_drawn(fb, s, cmd, vram, row, k + 1, ends, last),
            Texel::EndCode => if tx == last {
                row_drawn(fb, s, cmd, vram, row, k + 1, ends, last)
            } else if ends + 1 >= 2 {
                fb
            } else {
                row_drawn(fb, s, cmd, vram, row, k + 1, ends + 1, tx)
            },
            Texel::Dot(pixel, visible) => if visible || draws_clear(cmd) {
                row_drawn(
                    quad_dot(fb, s, cmd, x, row.y as int, pixel, row_shade(row, k)),
                    s,
                    cmd,
                    vram,
                    row,
                    k + 1,
                    ends,
                    last,
                )
            } else {
                row_drawn(fb, s, cmd, vram, row, k + 1, ends, last)
            },
        }
    }
}

/// The frame buffer with the first `n` rows of a quadrangle drawn.
pub open spec fn rows_drawn(
    fb: Seq<u8>,
    s: Vdp1State,
    cmd: CmdTable,
    vram: Seq<u8>,
    q: Quad,
    n: nat,
) -> Seq<u8>
    decreases n,
{
    if n == 0 {
        fb
    } else {
        row_drawn(
            rows_drawn(fb, s, cmd, vram, q, (n - 1) as nat),
            s,
            cmd,
            vram,
            row_of(cmd, vram, q, n - 1),
            0,
            0,
            -1,
        )
    }
}

/// Whether a quadrangle lies beyond one side of the clipping area.
pub open spec fn outside(s: Vdp1State, q: Quad) -> bool {
    let right = s.systemclip_x2 as int;
    let bottom = s.systemclip_y2 * line_scale(s);
    ||| q.tl.x < 0 && q.bl.x < 0 && q.tr.x < 0 && q.br.x < 0
    ||| q.tl.x > right && q.bl.x > right && q.tr.x > right && q.br.x > right
    ||| q.tl.y < 0 && q.bl.y < 0 && q.tr.y < 0 && q.br.y < 0
    ||| q.tl.y > bottom && q.bl.y > bottom && q.tr.y > bottom && q.br.y > bottom
}

/// The frame buffer with a quadrangle drawn.
#[verifier::opaque]
pub open spec fn quad_drawn(
    fb: Seq<u8>,
    s: Vdp1State,
    cmd: CmdTable,
    vram: Seq<u8>,
    q: Quad,
) -> Seq<u8> {
    if outside(s, q) {
        fb
    } else {
        rows_drawn(fb, s, cmd, vram, q, (last_row(q) + 1) as nat)
    }
}

/// An edge after `i` of `n` steps.
fn edge_at(start: i32, end: i32, n: i32, i: i32) -> (r: i64)
    requires
        -0x10_0000 <= start <= 0x10_0000,
        -0x10_0000 <= end <= 0x10_0000,
        0 <= i <= 0x40_0000,
    ensures
        r == edge(start as int, end as int, n as int, i as int),
        -0x8000 <= r < 0x8000,
{
    let step: i32 = interpolate(start, end, n);
    assert(-0x20_0000 <= step <= 0x20_0000);
    assert(-0x8000_0000_0000 <= i * step <= 0x8000_0000_0000) by (nonlinear_arith)
        requires
            0 <= i <= 0x40_0000,
            -0x20_0000 <= step <= 0x20_0000,
    ;
    low16(start as i64 + (i as i64) * (step as i64))
}

/// How much a shade changes per dot of a row.
fn step_between(left: i64, right: i64, span: i64) -> (r: i64)
    requires
        -0x8000_0000 <= left <= 0x8000_0000,
        -0x8000_0000 <= right <= 0x8000_0000,
        span >= 1,
    ensures
        r == shade_step(left as int, right as int, span as int),
        -0x8000_0000 <= r <= 0x8000_0000,
{
    let d: i64 = low32(right - left);
    let (q, _): (i64, i64) = divide(d, span);
    proof {
        let ud = if d >= 0 { d as int } else { -(d as int) };
        assert(0 <= ud / (span as int) <= ud) by (nonlinear_arith)
            requires
                ud >= 0,
                span >= 1,
        ;
    }
    q
}

/// The line of the pattern that belongs to a row.
fn line_of_pattern(cmd: &CmdTable, total: i32, i: i32) -> (r: i64)
    requires
        total >= 1,
        0 <= i <= total,
    ensures
        forall|q: Quad| last_row(q) == total ==> r == #[trigger] pattern_line(*cmd, q, i as int),
        0 <= r <= 255,
{
    let h: i64 = (cmd.cmdsize % 0x100) as i64;
    let step: i64 = h * 0x1_0000 / (total as i64);
    proof {
        scaled_stays_below(i as int, total as int, h * 0x1_0000);
    }
    let line: i64 = (i as i64) * step / 0x1_0000;
    if cmd.cmdctrl / 0x20 % 2 == 1 {
        if h - 1 - line < 0 {
            0
        } else {
            h - 1 - line
        }
    } else {
        line
    }
}

/// A part of a quotient never exceeds the whole.
proof fn scaled_stays_below(i: int, n: int, v: int)
    requires
        n >= 1,
        0 <= i <= n,
        v >= 0,
    ensures
        0 <= v / n <= v,
        0 <= i * (v / n) <= v,
{
    vstd::arithmetic::div_mod::lemma_fundamental_div_mod(v, n);
    let step = v / n;
    assert(0 <= step <= v && 0 <= i * step <= n * step && n * step <= v) by (nonlinear_arith)
        requires
            v == n * step + v % n,
            0 <= v % n,
            0 <= i <= n,
            n >= 1,
            v >= 0,
            step == v / n,
    ;
}

/// Set up a row.
#[verifier::rlimit(40)]
fn set_up_row(cmd: &CmdTable, vram: &Vec<u8>, q: &Quad, total: i32, i: i32) -> (r: Row)
    requires
        vram@.len() == VDP1_VRAM_SIZE,
        quad_ok(*q),
        total == last_row(*q),
        0 <= i <= total,
    ensures
        r == row_of(*cmd, vram@, *q, i as int),
        -0x8000 <= r.lx < 0x8000,
        -0x8000 <= r.rx < 0x8000,
        0 <= r.tex_y <= 255,
        -0x100_0000 <= r.y <= 0x100_0000,
        -0x8000_0000 <= r.r <= 0x8000_0000,
        -0x8000_0000 <= r.g <= 0x8000_0000,
        -0x8000_0000 <= r.b <= 0x8000_0000,
        -0x8000_0000 <= r.r_step <= 0x8000_0000,
        -0x8000_0000 <= r.g_step <= 0x8000_0000,
        -0x8000_0000 <= r.b_step <= 0x8000_0000,
        r.tex_step == char_width(*cmd) * 0x1_0000 / at_least_one(r.rx - r.lx),
{
    reveal(row_of);
    let len_left: i32 = q.bl.y - q.tl.y;
    let len_right: i32 = q.br.y - q.tr.y;
    let lx: i64 = edge_at(q.tl.x, q.bl.x, len_left, i);
    let rx: i64 = edge_at(q.tr.x, q.br.x, len_right, i);
    let span: i64 = if rx - lx < 1 {
        1
    } else {
        rx - lx
    };
    let w: i64 = (cmd.cmdsize / 0x100 % 64 * 8) as i64;
    let mut row = Row {
        y: q.tl.y as i64 + i as i64,
        lx,
        rx,
        tex_y: line_of_pattern(cmd, total, i),
        tex_step: w * 0x1_0000 / span,
        r: 0,
        g: 0,
        b: 0,
        r_step: 0,
        g_step: 0,
        b_step: 0,
    };
    let shape: u16 = cmd.cmdctrl % 8;
    if cmd.cmdpmod / 4 % 2 == 1 || shape == 5 || shape == 6 {
        let table: usize = cmd.cmdgrda as usize * 8;
        let c0: u16 = read_word(vram, table % VDP1_VRAM_SIZE);
        let c1: u16 = read_word(vram, (table + 2) % VDP1_VRAM_SIZE);
        let c2: u16 = read_word(vram, (table + 4) % VDP1_VRAM_SIZE);
        let c3: u16 = read_word(vram, (table + 6) % VDP1_VRAM_SIZE);
        let lr: i64 = edge_at((c0 % 32) as i32, (c3 % 32) as i32, len_left, i) * 0x1_0000;
        let lg: i64 = edge_at((c0 / 32 % 32) as i32, (c3 / 32 % 32) as i32, len_left, i)
            * 0x1_0000;
        let lb: i64 = edge_at((c0 / 1024 % 32) as i32, (c3 / 1024 % 32) as i32, len_left, i)
            * 0x1_0000;
        let rr: i64 = edge_at((c1 % 32) as i32, (c2 % 32) as i32, len_right, i) * 0x1_0000;
        let rg: i64 = edge_at((c1 / 32 % 32) as i32, (c2 / 32 % 32) as i32, len_right, i)
            * 0x1_0000;
        let rb: i64 = edge_at((c1 / 1024 % 32) as i32, (c2 / 1024 % 32) as i32, len_right, i)
            * 0x1_0000;
        row.r = lr;
        row.g = lg;
        row.b = lb;
        row.r_step = step_between(lr, rr, span);
        row.g_step = step_between(lg, rg, span);
        row.b_step = step_between(lb, rb, span);
    }
    row
}

/// The shade of a dot of a row.
fn shade_in_row(row: &Row, k: i64) -> (r: u16)
    requires
        0 <= k <= 0x1_0000,
        -0x8000_0000 <= row.r <= 0x8000_0000,
        -0x8000_0000 <= row.g <= 0x8000_0000,
        -0x8000_0000 <= row.b <= 0x8000_0000,
        -0x8000_0000 <= row.r_step <= 0x8000_0000,
        -0x8000_0000 <= row.g_step <= 0x8000_0000,
        -0x8000_0000 <= row.b_step <= 0x8000_0000,
    ensures
        r == row_shade(*row, k as int),
{
    assert(-0x1_0000_0000_0000 <= (k + 1) * row.r_step <= 0x1_0000_0000_0000
        && -0x1_0000_0000_0000 <= (k + 1) * row.g_step <= 0x1_0000_0000_0000
        && -0x1_0000_0000_0000 <= (k + 1) * row.b_step <= 0x1_0000_0000_0000) by (nonlinear_arith)
        requires
            0 <= k <= 0x1_0000,
            -0x8000_0000 <= row.r_step <= 0x8000_0000,
            -0x8000_0000 <= row.g_step <= 0x8000_0000,
            -0x8000_0000 <= row.b_step <= 0x8000_0000,
    ;
    pack(
        clamp_channel(floor_div(low32(row.r + (k + 1) * row.r_step), 0x1_0000)),
        clamp_channel(floor_div(low32(row.g + (k + 1) * row.g_step), 0x1_0000)),
        clamp_channel(floor_div(low32(row.b + (k + 1) * row.b_step), 0x1_0000)),
    )
}

/// The dot of the pattern that belongs to a dot of a row.
fn dot_of_pattern(cmd: &CmdTable, row: &Row, k: i64) -> (r: i64)
    requires
        0 <= k <= at_least_one(row.rx - row.lx),
        -0x8000 <= row.lx < 0x8000,
        -0x8000 <= row.rx < 0x8000,
        row.tex_step == char_width(*cmd) * 0x1_0000 / at_least_one(row.rx - row.lx),
    ensures
        r == pattern_dot(*cmd, *row, k as int),
        0 <= r <= 504,
{
    let w: i64 = (cmd.cmdsize / 0x100 % 64 * 8) as i64;
    proof {
        scaled_stays_below(k as int, at_least_one(row.rx - row.lx), w * 0x1_0000);
    }
    let dot: i64 = k * row.tex_step / 0x1_0000;
    if cmd.cmdctrl / 0x10 % 2 == 1 {
        if w - 1 - dot < 0 {
            0
        } else {
            w - 1 - dot
        }
    } else {
        dot
    }
}

/// Draw a row.
#[verifier::rlimit(40)]
fn draw_row(s: &Vdp1State, cmd: &CmdTable, vram: &Vec<u8>, fb: &mut Vec<u8>, row: &Row)
    requires
        vram@.len() == VDP1_VRAM_SIZE,
        -0x8000 <= row.lx < 0x8000,
        -0x8000 <= row.rx < 0x8000,
        0 <= row.tex_y <= 255,
        row.tex_step == char_width(*cmd) * 0x1_0000 / at_least_one(row.rx - row.lx),
        -0x8000_0000 <= row.r <= 0x8000_0000,
        -0x8000_0000 <= row.g <= 0x8000_0000,
        -0x8000_0000 <= row.b <= 0x8000_0000,
        -0x8000_0000 <= row.r_step <= 0x8000_0000,
        -0x8000_0000 <= row.g_step <= 0x8000_0000,
        -0x8000_0000 <= row.b_step <= 0x8000_0000,
        -0x100_0000 <= row.y <= 0x100_0000,
    ensures
        final(fb)@ == row_drawn(old(fb)@, *s, *cmd, vram@, *row, 0, 0, -1),
        final(fb)@.len() == old(fb)@.len(),
{
    let ghost goal = row_drawn(fb@, *s, *cmd, vram@, *row, 0, 0, -1);
    let spd: bool = cmd.cmdpmod / 0x40 % 2 == 1;
    let mut k: i64 = 0;
    let mut ends: i64 = 0;
    let mut last: i64 = -1;
    let mut done: bool = false;
    while !done && row.lx + k <= row.rx
        invariant
            vram@.len() == VDP1_VRAM_SIZE,
            -0x8000 <= row.lx < 0x8000,
            -0x8000 <= row.rx < 0x8000,
            0 <= row.tex_y <= 255,
            row.tex_step == char_width(*cmd) * 0x1_0000 / at_least_one(row.rx - row.lx),
            -0x8000_0000 <= row.r <= 0x8000_0000,
            -0x8000_0000 <= row.g <= 0x8000_0000,
            -0x8000_0000 <= row.b <= 0x8000_0000,
            -0x8000_0000 <= row.r_step <= 0x8000_0000,
            -0x8000_0000 <= row.g_step <= 0x8000_0000,
            -0x8000_0000 <= row.b_step <= 0x8000_0000,
            -0x100_0000 <= row.y <= 0x100_0000,
            spd == draws_clear(*cmd),
            0 <= k <= 0x1_0000,
            0 <= ends <= 1,
            fb@.len() == old(fb)@.len(),
            done ==> goal == fb@,
            !done ==> goal == row_drawn(
                fb@,
                *s,
                *cmd,
                vram@,
                *row,
                k as int,
                ends as int,
                last as int,
            ),
        decreases
                row.rx - row.lx + 1 - k + if done {
                    0int
                } else {
                    1
                },
    {
        let x: i64 = row.lx + k;
        if may_draw(s, cmd, x, row.y) {
            let tx: i64 = dot_of_pattern(cmd, row, k);
            match fetch_texel(cmd, vram, tx, row.tex_y) {
                Texel::Clear => {
                    k = k + 1;
                },
                Texel::EndCode => {
                    if tx == last {
                        k = k + 1;
                    } else if ends + 1 >= 2 {
                        done = true;
                    } else {
                        ends = ends + 1;
                        last = tx;
                        k = k + 1;
                    }
                },
                Texel::Dot(pixel, visible) => {
                    if visible || spd {
                        let shade: u16 = shade_in_row(row, k);
                        draw_quad_dot(s, cmd, fb, x, row.y, pixel, shade);
                    }
                    k = k + 1;
                },
            }
        } else {
            k = k + 1;
        }
    }
}

/// Draw a quadrangle.
pub fn draw_quad(s: &Vdp1State, cmd: &CmdTable, vram: &Vec<u8>, fb: &mut Vec<u8>, q: &Quad)
    requires
        vram@.len() == VDP1_VRAM_SIZE,
        quad_ok(*q),
    ensures
        final(fb)@ == quad_drawn(old(fb)@, *s, *cmd, vram@, *q),
        final(fb)@.len() == old(fb)@.len(),
{
    reveal(quad_drawn);
    let right: i32 = s.systemclip_x2 as i32;
    let bottom: i32 = if s.fbcr / 8 % 2 == 1 {
        s.systemclip_y2 as i32 * 2
    } else {
        s.systemclip_y2 as i32
    };
    if (q.tl.x < 0 && q.bl.x < 0 && q.tr.x < 0 && q.br.x < 0) || (q.tl.x > right && q.bl.x > right
        && q.tr.x > right && q.br.x > right) || (q.tl.y < 0 && q.bl.y < 0 && q.tr.y < 0 && q.br.y
        < 0) || (q.tl.y > bottom && q.bl.y > bottom && q.tr.y > bottom && q.br.y > bottom) {
        return;
    }
    let len_left: i32 = q.bl.y - q.tl.y;
    let len_right: i32 = q.br.y - q.tr.y;
    let longest: i32 = if len_left > len_right {
        len_left
    } else {
        len_right
    };
    let total: i32 = if longest < 1 {
        1
    } else {
        longest
    };
    let mut i: i32 = 0;
    while i <= total
        invariant
            vram@.len() == VDP1_VRAM_SIZE,
            quad_ok(*q),
            total == last_row(*q),
            0 <= i <= total + 1,
            total <= 0x20_0000,
            fb@ == rows_drawn(old(fb)@, *s, *cmd, vram@, *q, i as nat),
            fb@.len() == old(fb)@.len(),
        decreases total + 1 - i,
    {
        let row: Row = set_up_row(cmd, vram, q, total, i);
        draw_row(s, cmd, vram, fb, &row);
        i = i + 1;
    }
}

} // verus!
