//! Drawing lines and quadrangles into a frame buffer bank.

use crate::arith::{divide, trunc_div};
use crate::bytes::{be16, byte16, from_be16};
use crate::shared_buffers::VDP1_VRAM_SIZE;
use crate::vdp::color::{
    alphablend16, clamp5, clamp_channel, gouraud_adjust, green, halve, halved, index_shifted, mark,
    marked, mixed, pack, red, rgb5, shade_shifts_index, shaded, shift_index,
};
use crate::vdp::{CmdTable, Vdp1State};
use vstd::prelude::*;

verus! {

/// A corner of a shape.
#[derive(Copy, Clone, Debug, PartialEq, Eq, Structural)]
pub struct Point {
    pub x: i32,
    pub y: i32,
}

/// Corners stay within what commands can express.
pub open spec fn point_ok(p: Point) -> bool {
    -0x10_0000 <= p.x <= 0x10_0000 && -0x10_0000 <= p.y <= 0x10_0000
}

/// The byte of a 4-bit pattern that holds a dot.
pub open spec fn pattern4(vram: Seq<u8>, base: int, off: int) -> int {
    let byte = vram[(base + off / 2) % (VDP1_VRAM_SIZE as int)] as int;
    if off % 2 == 0 {
        byte / 16
    } else {
        byte % 16
    }
}

/// The byte of an 8-bit pattern that holds a dot.
pub open spec fn pattern8(vram: Seq<u8>, base: int, off: int) -> int {
    vram[(base + off) % (VDP1_VRAM_SIZE as int)] as int
}

/// The big-endian word of VRAM at an address, which wraps around.
pub open spec fn vram16(vram: Seq<u8>, addr: int) -> u16 {
    be16(vram[addr % (VDP1_VRAM_SIZE as int)], vram[(addr + 1) % (VDP1_VRAM_SIZE as int)])
}

/// A dot of a pattern of 16 colours.
pub fn read_pattern_16(vram: &Vec<u8>, base: usize, off: usize) -> (r: u8)
    requires
        vram@.len() == VDP1_VRAM_SIZE,
        base + off <= 0x1000_0000,
    ensures
        r == pattern4(vram@, base as int, off as int),
        r < 16,
{
    let byte: u8 = vram[(base + off / 2) % VDP1_VRAM_SIZE];
    if off % 2 == 0 {
        byte / 16
    } else {
        byte % 16
    }
}

/// A dot of a pattern of 64 colours.
pub fn read_pattern_64(vram: &Vec<u8>, base: usize, off: usize) -> (r: u8)
    requires
        vram@.len() == VDP1_VRAM_SIZE,
        base + off <= 0x1000_0000,
    ensures
        r == pattern8(vram@, base as int, off as int) % 64,
{
    vram[(base + off) % VDP1_VRAM_SIZE] % 64
}

/// A dot of a pattern of 128 colours.
pub fn read_pattern_128(vram: &Vec<u8>, base: usize, off: usize) -> (r: u8)
    requires
        vram@.len() == VDP1_VRAM_SIZE,
        base + off <= 0x1000_0000,
    ensures
        r == pattern8(vram@, base as int, off as int) % 128,
{
    vram[(base + off) % VDP1_VRAM_SIZE] % 128
}

/// A dot of a pattern of 256 colours.
pub fn read_pattern_256(vram: &Vec<u8>, base: usize, off: usize) -> (r: u8)
    requires
        vram@.len() == VDP1_VRAM_SIZE,
        base + off <= 0x1000_0000,
    ensures
        r == pattern8(vram@, base as int, off as int),
{
    vram[(base + off) % VDP1_VRAM_SIZE]
}

/// A dot of a pattern of direct colours.
pub fn read_pattern_64k(vram: &Vec<u8>, base: usize, off: usize) -> (r: u16)
    requires
        vram@.len() == VDP1_VRAM_SIZE,
        base + off * 2 <= 0x1000_0000,
    ensures
        r == vram16(vram@, base + off * 2),
{
    read_word(vram, base + off * 2)
}

/// The big-endian word of VRAM at an address, which wraps around.
pub fn read_word(vram: &Vec<u8>, addr: usize) -> (r: u16)
    requires
        vram@.len() == VDP1_VRAM_SIZE,
        addr <= 0x1000_0000,
    ensures
        r == vram16(vram@, addr as int),
{
    from_be16(vram[addr % VDP1_VRAM_SIZE], vram[(addr + 1) % VDP1_VRAM_SIZE])
}

/// The step that leads from `start` to `end` in `n` steps, rounded towards zero. No
/// steps count as a slope of one.
pub open spec fn slope(start: int, end: int, n: int) -> int {
    if n == 0 {
        1
    } else {
        trunc_div(end - start, n)
    }
}

/// The step that leads from `start` to `end` in `n` steps.
pub fn interpolate(start: i32, end: i32, n: i32) -> (r: i32)
    requires
        i32::MIN <= end - start <= i32::MAX,
        !(end - start == i32::MIN && n == -1),
    ensures
        r == slope(start as int, end as int, n as int),
        ({
            let d = if end >= start { end - start } else { start - end };
            n != 0 ==> -d <= r <= d
        }),
{
    if n == 0 {
        1
    } else {
        let d: i64 = end as i64 - start as i64;
        let (q, _): (i64, i64) = divide(d, n as i64);
        proof {
            quotient_bounded(d as int, n as int);
            if d == i32::MIN {
                assert(q < 0x8000_0000) by (nonlinear_arith)
                    requires
                        n != -1,
                        n != 0,
                        q == trunc_div(-0x8000_0000, n as int),
                ;
            }
        }
        q as i32
    }
}

/// A quotient is never further from zero than the dividend.
proof fn quotient_bounded(a: int, b: int)
    requires
        b != 0,
    ensures
        ({
            let d = if a >= 0 { a } else { -a };
            -d <= trunc_div(a, b) <= d
        }),
{
    let ua = if a >= 0 { a } else { -a };
    let ub = if b >= 0 { b } else { -b };
    assert(0 <= ua / ub <= ua) by (nonlinear_arith)
        requires
            ua >= 0,
            ub >= 1,
    ;
}

/// 2 while only every other line is drawn, else 1.
pub open spec fn line_scale(s: Vdp1State) -> int {
    if s.fbcr / 8 % 2 == 1 {
        2
    } else {
        1
    }
}

/// Whether a dot may be drawn: inside the system clipping area, on the field that
/// is drawn, inside or outside the user clipping area, and not a hole of the mesh.
pub open spec fn drawable(s: Vdp1State, cmd: CmdTable, x: int, y: int) -> bool {
    &&& 0 <= x <= s.systemclip_x2
    &&& 0 <= y <= s.systemclip_y2 * line_scale(s)
    &&& line_scale(s) == 2 ==> (y % 2 == 1) == (s.fbcr / 4 % 2 == 1)
    &&& cmd.cmdpmod / 0x400 % 2 == 1 ==> in_user_clip(s, x, y) != (cmd.cmdpmod / 0x200 % 2 == 1)
    &&& cmd.cmdpmod / 0x100 % 2 == 1 ==> (x + y) % 2 == 0
}

/// Whether a dot lies inside the user clipping area.
pub open spec fn in_user_clip(s: Vdp1State, x: int, y: int) -> bool {
    &&& s.userclip_x1 <= x <= s.userclip_x2
    &&& s.userclip_y1 <= y / line_scale(s) <= s.userclip_y2
}

/// Whether a dot may be drawn.
pub fn may_draw(s: &Vdp1State, cmd: &CmdTable, x: i64, y: i64) -> (r: bool)
    ensures
        r == drawable(*s, *cmd, x as int, y as int),
{
    let scale: i64 = if s.fbcr / 8 % 2 == 1 {
        2
    } else {
        1
    };
    if x < 0 || y < 0 || x > s.systemclip_x2 as i64 || y > s.systemclip_y2 as i64 * scale {
        return false;
    }
    if scale == 2 && (y % 2 == 1) != (s.fbcr / 4 % 2 == 1) {
        return false;
    }
    if cmd.cmdpmod / 0x400 % 2 == 1 {
        let line: i64 = y / scale;
        let inside: bool = x >= s.userclip_x1 as i64 && x <= s.userclip_x2 as i64 && line
            >= s.userclip_y1 as i64 && line <= s.userclip_y2 as i64;
        if inside == (cmd.cmdpmod / 0x200 % 2 == 1) {
            return false;
        }
    }
    cmd.cmdpmod / 0x100 % 2 == 0 || (x + y) % 2 == 0
}

/// Dots per line of the frame buffer.
pub open spec fn pitch(s: Vdp1State) -> int {
    if s.tvmr % 4 == 1 {
        1024
    } else {
        512
    }
}

/// Whether a dot is one byte instead of two.
pub open spec fn dots_are_bytes(s: Vdp1State) -> bool {
    s.tvmr % 2 == 1
}

/// The number of a dot in the frame buffer.
pub open spec fn dot_index(s: Vdp1State, x: int, y: int) -> int {
    y / line_scale(s) * pitch(s) + x
}

/// The number of a dot in the frame buffer.
pub fn dot_number(s: &Vdp1State, cmd: &CmdTable, x: i64, y: i64) -> (r: usize)
    requires
        drawable(*s, *cmd, x as int, y as int),
    ensures
        r == dot_index(*s, x as int, y as int),
        r <= 0x1000_0000,
{
    let scale: i64 = if s.fbcr / 8 % 2 == 1 {
        2
    } else {
        1
    };
    let line: i64 = y / scale;
    if s.tvmr % 4 == 1 {
        (line * 1024 + x) as usize
    } else {
        (line * 512 + x) as usize
    }
}

/// What a dot shows at the moment.
pub open spec fn dot16(fb: Seq<u8>, i: int) -> u16 {
    be16(fb[i * 2], fb[i * 2 + 1])
}

/// The frame buffer with a 16-bit dot set; dots outside are dropped.
pub open spec fn with_dot16(fb: Seq<u8>, i: int, c: u16) -> Seq<u8> {
    fb.update(i * 2, byte16(c, 0)).update(i * 2 + 1, byte16(c, 1))
}

/// The shade at the given levels of red, green and blue.
pub open spec fn shade_at(r: int, g: int, b: int) -> u16 {
    rgb5(clamp5(r), clamp5(g), clamp5(b))
}

/// The colour of a line's dot before it meets what is there.
pub open spec fn line_color(cmd: CmdTable, shade: u16) -> u16 {
    let calc = cmd.cmdpmod % 8;
    if calc == 4 {
        if shade_shifts_index(shade) {
            index_shifted(cmd.cmdcolr, shade)
        } else {
            shaded(cmd.cmdcolr, shade)
        }
    } else if calc >= 5 {
        marked(mixed(shade, cmd.cmdcolr, 128))
    } else {
        cmd.cmdcolr
    }
}

/// A line's dot once it has met what is there.
pub open spec fn line_over(cmd: CmdTable, shade: u16, below: u16) -> u16 {
    let calc = cmd.cmdpmod % 8;
    if (calc == 1 || calc == 3) && below >= 0x8000 {
        marked(mixed(below, cmd.cmdcolr, 128))
    } else if calc == 2 {
        halved(cmd.cmdcolr)
    } else if cmd.cmdpmod >= 0x8000 {
        marked(line_color(cmd, shade))
    } else {
        line_color(cmd, shade)
    }
}

/// The frame buffer with a dot of a line drawn.
#[verifier::opaque]
pub open spec fn line_dot(
    fb: Seq<u8>,
    s: Vdp1State,
    cmd: CmdTable,
    x: int,
    y: int,
    shade: u16,
) -> Seq<u8> {
    let i = dot_index(s, x, y);
    if !drawable(s, cmd, x, y) {
        fb
    } else if dots_are_bytes(s) {
        if i < fb.len() {
            fb.update(i, (line_color(cmd, shade) % 0x100) as u8)
        } else {
            fb
        }
    } else if i * 2 + 1 < fb.len() {
        with_dot16(fb, i, line_over(cmd, shade, dot16(fb, i)))
    } else {
        fb
    }
}

/// Draw a dot of a line.
#[verifier::rlimit(30)]
fn draw_line_dot(
    s: &Vdp1State,
    cmd: &CmdTable,
    fb: &mut Vec<u8>,
    x: i64,
    y: i64,
    shade: u16,
)
    ensures
        final(fb)@ == line_dot(old(fb)@, *s, *cmd, x as int, y as int, shade),
        final(fb)@.len() == old(fb)@.len(),
{
    reveal(line_dot);
    if !may_draw(s, cmd, x, y) {
        return;
    }
    let calc: u16 = cmd.cmdpmod % 8;
    let colour: u16 = cmd.cmdcolr;
    let plain: u16 = if calc == 4 {
        if shade / 32 % 32 == 16 && shade / 1024 % 32 == 16 {
            shift_index(colour, shade)
        } else {
            gouraud_adjust(colour, shade)
        }
    } else if calc >= 5 {
        mark(alphablend16(shade, colour, 128))
    } else {
        colour
    };
    let i: usize = dot_number(s, cmd, x, y);
    if s.tvmr % 2 == 1 {
        if i < fb.len() {
            fb[i] = (plain % 0x100) as u8;
        }
    } else if i * 2 + 1 < fb.len() {
        let below: u16 = from_be16(fb[i * 2], fb[i * 2 + 1]);
        let c: u16 = if (calc == 1 || calc == 3) && below >= 0x8000 {
            mark(alphablend16(below, colour, 128))
        } else if calc == 2 {
            halve(colour)
        } else if cmd.cmdpmod >= 0x8000 {
            mark(plain)
        } else {
            plain
        };
        fb[i * 2] = (c / 0x100) as u8;
        fb[i * 2 + 1] = (c % 0x100) as u8;
    }
}

/// A line: its end points and the shades there.
#[derive(Copy, Clone, Debug, PartialEq, Eq, Structural)]
pub struct Line {
    pub x1: i32,
    pub y1: i32,
    pub x2: i32,
    pub y2: i32,
    pub shade1: u16,
    pub shade2: u16,
}

pub open spec fn distance(a: int, b: int) -> int {
    if a <= b {
        b - a
    } else {
        a - b
    }
}

pub open spec fn direction(a: int, b: int) -> int {
    if a < b {
        1
    } else if a > b {
        -1
    } else {
        0
    }
}

/// How many steps a line takes.
pub open spec fn line_length(l: Line) -> int {
    let dx = distance(l.x1 as int, l.x2 as int);
    let dy = distance(l.y1 as int, l.y2 as int);
    if dx > dy {
        dx
    } else {
        dy
    }
}

/// How far a line has moved along its short axis after `k` steps: in proportion,
/// rounded to the nearest.
pub open spec fn line_drift(k: int, short: int, long: int) -> int {
    (long / 2 + k * short) / long
}

/// Where the `k`th dot of a line lies.
pub open spec fn line_x(l: Line, k: int) -> int {
    let dx = distance(l.x1 as int, l.x2 as int);
    let dy = distance(l.y1 as int, l.y2 as int);
    let steps = if dx > dy {
        k
    } else {
        line_drift(k, dx, dy)
    };
    l.x1 + direction(l.x1 as int, l.x2 as int) * steps
}

pub open spec fn line_y(l: Line, k: int) -> int {
    let dx = distance(l.x1 as int, l.x2 as int);
    let dy = distance(l.y1 as int, l.y2 as int);
    let steps = if dx > dy {
        line_drift(k, dy, dx)
    } else {
        k
    };
    l.y1 + direction(l.y1 as int, l.y2 as int) * steps
}

/// The shade of the `k`th dot of a line.
pub open spec fn line_shade(l: Line, k: int) -> u16 {
    let n = line_length(l);
    shade_at(
        red(l.shade1) + (k + 1) * slope(red(l.shade1), red(l.shade2), n),
        green(l.shade1) + (k + 1) * slope(green(l.shade1), green(l.shade2), n),
        crate::vdp::color::blue(l.shade1) + (k + 1) * slope(
            crate::vdp::color::blue(l.shade1),
            crate::vdp::color::blue(l.shade2),
            n,
        ),
    )
}

/// The frame buffer with the first `k` dots of a line drawn.
pub open spec fn line_prefix(fb: Seq<u8>, s: Vdp1State, cmd: CmdTable, l: Line, k: nat) -> Seq<u8>
    decreases k,
{
    if k == 0 {
        fb
    } else {
        let j = k - 1;
        line_dot(
            line_prefix(fb, s, cmd, l, (k - 1) as nat),
            s,
            cmd,
            line_x(l, j),
            line_y(l, j),
            line_shade(l, j),
        )
    }
}

/// The frame buffer with a line drawn: every step of the way, and the end point.
/// Lines of more than 999 dots are not drawn.
#[verifier::opaque]
pub open spec fn line_drawn(fb: Seq<u8>, s: Vdp1State, cmd: CmdTable, l: Line) -> Seq<u8> {
    let n = line_length(l);
    if n > 999 {
        fb
    } else {
        line_dot(
            line_prefix(fb, s, cmd, l, n as nat),
            s,
            cmd,
            l.x2 as int,
            l.y2 as int,
            line_shade(l, n),
        )
    }
}

/// The shade of a dot of a line.
fn shade_of(l: &Line, k: i64, n: i32, steps: (i32, i32, i32)) -> (r: u16)
    requires
        0 <= k <= 999,
        n == line_length(*l),
        steps.0 == slope(red(l.shade1), red(l.shade2), n as int),
        steps.1 == slope(green(l.shade1), green(l.shade2), n as int),
        steps.2 == slope(
            crate::vdp::color::blue(l.shade1),
            crate::vdp::color::blue(l.shade2),
            n as int,
        ),
        -31 <= steps.0 <= 31,
        -31 <= steps.1 <= 31,
        -31 <= steps.2 <= 31,
    ensures
        r == line_shade(*l, k as int),
{
    assert(-31000 <= (k + 1) * steps.0 <= 31000 && -31000 <= (k + 1) * steps.1 <= 31000 && -31000
        <= (k + 1) * steps.2 <= 31000) by (nonlinear_arith)
        requires
            0 <= k <= 999,
            -31 <= steps.0 <= 31,
            -31 <= steps.1 <= 31,
            -31 <= steps.2 <= 31,
    ;
    pack(
        clamp_channel((l.shade1 % 32) as i64 + (k + 1) * (steps.0 as i64)),
        clamp_channel((l.shade1 / 32 % 32) as i64 + (k + 1) * (steps.1 as i64)),
        clamp_channel((l.shade1 / 1024 % 32) as i64 + (k + 1) * (steps.2 as i64)),
    )
}

/// Draw a line.
#[verifier::rlimit(60)]
pub fn draw_line_impl(s: &Vdp1State, cmd: &CmdTable, fb: &mut Vec<u8>, l: &Line)
    requires
        -i32::MAX <= l.x2 - l.x1 <= i32::MAX,
        -i32::MAX <= l.y2 - l.y1 <= i32::MAX,
    ensures
        final(fb)@ == line_drawn(old(fb)@, *s, *cmd, *l),
        final(fb)@.len() == old(fb)@.len(),
{
    reveal(line_drawn);
    let dx: i32 = if l.x1 <= l.x2 {
        l.x2 - l.x1
    } else {
        l.x1 - l.x2
    };
    let dy: i32 = if l.y1 <= l.y2 {
        l.y2 - l.y1
    } else {
        l.y1 - l.y2
    };
    let ax: i64 = if l.x1 < l.x2 {
        1
    } else if l.x1 > l.x2 {
        -1
    } else {
        0
    };
    let ay: i64 = if l.y1 < l.y2 {
        1
    } else if l.y1 > l.y2 {
        -1
    } else {
        0
    };
    let steep: bool = dx <= dy;
    let (long, short): (i32, i32) = if steep {
        (dy, dx)
    } else {
        (dx, dy)
    };
    if long > 999 {
        return;
    }
    let steps: (i32, i32, i32) = (
        interpolate((l.shade1 % 32) as i32, (l.shade2 % 32) as i32, long),
        interpolate((l.shade1 / 32 % 32) as i32, (l.shade2 / 32 % 32) as i32, long),
        interpolate((l.shade1 / 1024 % 32) as i32, (l.shade2 / 1024 % 32) as i32, long),
    );
    let mut x: i64 = l.x1 as i64;
    let mut y: i64 = l.y1 as i64;
    let mut a: i32 = long / 2;
    let mut k: i32 = 0;
    let ghost mut q: int = 0;
    while k < long
        invariant
            0 <= k <= long,
            long <= 999,
            long == line_length(*l),
            0 <= short <= long,
            steep == (dx <= dy),
            dx == distance(l.x1 as int, l.x2 as int),
            dy == distance(l.y1 as int, l.y2 as int),
            (long, short) == (if steep {
                (dy, dx)
            } else {
                (dx, dy)
            }),
            ax == direction(l.x1 as int, l.x2 as int),
            ay == direction(l.y1 as int, l.y2 as int),
            -0x8000_0000 - k <= x <= 0x7FFF_FFFF + k,
            -0x8000_0000 - k <= y <= 0x7FFF_FFFF + k,
            steps.0 == slope(red(l.shade1), red(l.shade2), long as int),
            steps.1 == slope(green(l.shade1), green(l.shade2), long as int),
            steps.2 == slope(
                crate::vdp::color::blue(l.shade1),
                crate::vdp::color::blue(l.shade2),
                long as int,
            ),
            -31 <= steps.0 <= 31,
            -31 <= steps.1 <= 31,
            -31 <= steps.2 <= 31,
            0 <= q <= k,
            long > 0 ==> 0 <= a < long,
            a == long / 2 + k * short - q * long,
            x == l.x1 + ax * (if steep {
                q
            } else {
                k as int
            }),
            y == l.y1 + ay * (if steep {
                k as int
            } else {
                q
            }),
            fb@ == line_prefix(old(fb)@, *s, *cmd, *l, k as nat),
            fb@.len() == old(fb)@.len(),
        decreases long - k,
    {
        proof {
            drift_is_quotient(k as int, short as int, long as int, a as int, q);
        }
        let shade: u16 = shade_of(l, k as i64, long, steps);
        assert(x == line_x(*l, k as int) && y == line_y(*l, k as int));
        draw_line_dot(s, cmd, fb, x, y, shade);
        a = a + short;
        let ghost q0 = q;
        let over: bool = a >= long;
        if over {
            a = a - long;
            proof {
                q = q + 1;
            }
        }
        proof {
            assert((k + 1) * short == k * short + short) by (nonlinear_arith);
            assert((q0 + 1) * long == q0 * long + long) by (nonlinear_arith);
        }
        if steep {
            if over {
                x = x + ax;
            }
            y = y + ay;
        } else {
            if over {
                y = y + ay;
            }
            x = x + ax;
        }
        proof {
            assert(ax * (q0 + 1) == ax * q0 + ax && ay * (q0 + 1) == ay * q0 + ay) by (nonlinear_arith);
            assert(ax * (k + 1) == ax * k + ax && ay * (k + 1) == ay * k + ay) by (nonlinear_arith);
        }
        k = k + 1;
    }
    let shade: u16 = shade_of(l, long as i64, long, steps);
    draw_line_dot(s, cmd, fb, l.x2 as i64, l.y2 as i64, shade);
}

/// The error term of a line determines how far it has drifted.
proof fn drift_is_quotient(k: int, short: int, long: int, a: int, q: int)
    requires
        long > 0,
        0 <= a < long,
        a == long / 2 + k * short - q * long,
    ensures
        line_drift(k, short, long) == q,
{
    let t = long / 2 + k * short;
    assert(t == long * q + a) by (nonlinear_arith)
        requires
            a == t - q * long,
    ;
    vstd::arithmetic::div_mod::lemma_fundamental_div_mod_converse(t, long, q, a);
}

} // verus!
