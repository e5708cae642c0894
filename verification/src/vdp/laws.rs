//! What holds of drawing and of display as a whole.

use crate::bytes::be16;
use crate::shared_buffers::Memory;
use crate::vdp::frame::{back_color, displayed_bank, screen_pixel, vdp1_line};
use crate::vdp::list::{
    bank_of, command_effect, erased, list_done, list_executed, list_started, shape_drawn,
    swapped_memory, Drawing,
};
use crate::vdp::quad::{quad_dot, quad_drawn, row_drawn, row_of, rows_drawn, Quad, Row, Texel};
use crate::vdp::quad::{draws_clear, pattern_dot, row_shade, texel};
use crate::vdp::raster::{
    dot_index, dots_are_bytes, drawable, line_dot, line_drawn, line_prefix, Line,
};
use crate::vdp::{command_at, CmdTable, Vdp1State};
use vstd::prelude::*;

verus! {

/// Whether a byte of the frame buffer belongs to a dot.
pub open spec fn covers(s: Vdp1State, x: int, y: int, j: int) -> bool {
    let i = dot_index(s, x, y);
    if dots_are_bytes(s) {
        j == i
    } else {
        j == i * 2 || j == i * 2 + 1
    }
}

/// Whether a byte of the frame buffer belongs to a dot that may be drawn.
pub open spec fn touchable(s: Vdp1State, cmd: CmdTable, j: int) -> bool {
    exists|x: int, y: int| #[trigger] covers(s, x, y, j) && drawable(s, cmd, x, y)
}

proof fn line_dot_stays_inside(
    fb: Seq<u8>,
    s: Vdp1State,
    cmd: CmdTable,
    x: int,
    y: int,
    shade: u16,
    j: int,
)
    requires
        0 <= j < fb.len(),
        !touchable(s, cmd, j),
    ensures
        line_dot(fb, s, cmd, x, y, shade).len() == fb.len(),
        line_dot(fb, s, cmd, x, y, shade)[j] == fb[j],
{
    reveal(line_dot);
    if drawable(s, cmd, x, y) {
        assert(!covers(s, x, y, j));
        assert(0 <= dot_index(s, x, y)) by {
            drawable_dots_have_numbers(s, cmd, x, y);
        }
    }
}

proof fn drawable_dots_have_numbers(s: Vdp1State, cmd: CmdTable, x: int, y: int)
    requires
        drawable(s, cmd, x, y),
    ensures
        0 <= dot_index(s, x, y),
{
}

proof fn line_prefix_stays_inside(
    fb: Seq<u8>,
    s: Vdp1State,
    cmd: CmdTable,
    l: Line,
    k: nat,
    j: int,
)
    requires
        0 <= j < fb.len(),
        !touchable(s, cmd, j),
    ensures
        line_prefix(fb, s, cmd, l, k).len() == fb.len(),
        line_prefix(fb, s, cmd, l, k)[j] == fb[j],
    decreases k,
{
    if k > 0 {
        line_prefix_stays_inside(fb, s, cmd, l, (k - 1) as nat, j);
        line_dot_stays_inside(
            line_prefix(fb, s, cmd, l, (k - 1) as nat),
            s,
            cmd,
            crate::vdp::raster::line_x(l, k - 1),
            crate::vdp::raster::line_y(l, k - 1),
            crate::vdp::raster::line_shade(l, k - 1),
            j,
        );
    }
}

/// A line changes no dot that clipping, the mesh or the field leaves out.
pub proof fn line_stays_inside(fb: Seq<u8>, s: Vdp1State, cmd: CmdTable, l: Line, j: int)
    requires
        0 <= j < fb.len(),
        !touchable(s, cmd, j),
    ensures
        line_drawn(fb, s, cmd, l).len() == fb.len(),
        line_drawn(fb, s, cmd, l)[j] == fb[j],
{
    reveal(line_drawn);
    let n = crate::vdp::raster::line_length(l);
    if n <= 999 {
        line_prefix_stays_inside(fb, s, cmd, l, n as nat, j);
        line_dot_stays_inside(
            line_prefix(fb, s, cmd, l, n as nat),
            s,
            cmd,
            l.x2 as int,
            l.y2 as int,
            crate::vdp::raster::line_shade(l, n),
            j,
        );
    }
}

proof fn quad_dot_stays_inside(
    fb: Seq<u8>,
    s: Vdp1State,
    cmd: CmdTable,
    x: int,
    y: int,
    pixel: u16,
    shade: u16,
    j: int,
)
    requires
        0 <= j < fb.len(),
        !touchable(s, cmd, j),
        drawable(s, cmd, x, y),
    ensures
        quad_dot(fb, s, cmd, x, y, pixel, shade).len() == fb.len(),
        quad_dot(fb, s, cmd, x, y, pixel, shade)[j] == fb[j],
{
    reveal(quad_dot);
    assert(!covers(s, x, y, j));
    drawable_dots_have_numbers(s, cmd, x, y);
}

proof fn row_stays_inside(
    fb: Seq<u8>,
    s: Vdp1State,
    cmd: CmdTable,
    vram: Seq<u8>,
    row: Row,
    k: int,
    ends: int,
    last: int,
    j: int,
)
    requires
        0 <= j < fb.len(),
        !touchable(s, cmd, j),
    ensures
        row_drawn(fb, s, cmd, vram, row, k, ends, last).len() == fb.len(),
        row_drawn(fb, s, cmd, vram, row, k, ends, last)[j] == fb[j],
    decreases row.rx - row.lx + 1 - k,
{
    let x = row.lx + k;
    let tx = pattern_dot(cmd, row, k);
    if x > row.rx {
    } else if !drawable(s, cmd, x, row.y as int) {
        row_stays_inside(fb, s, cmd, vram, row, k + 1, ends, last, j);
    } else {
        match texel(cmd, vram, tx, row.tex_y as int) {
            Texel::Clear => {
                row_stays_inside(fb, s, cmd, vram, row, k + 1, ends, last, j);
            },
            Texel::EndCode => {
                if tx == last {
                    row_stays_inside(fb, s, cmd, vram, row, k + 1, ends, last, j);
                } else if ends + 1 < 2 {
                    row_stays_inside(fb, s, cmd, vram, row, k + 1, ends + 1, tx, j);
                }
            },
            Texel::Dot(pixel, visible) => {
                if visible || draws_clear(cmd) {
                    let shade = row_shade(row, k);
                    quad_dot_stays_inside(fb, s, cmd, x, row.y as int, pixel, shade, j);
                    row_stays_inside(
                        quad_dot(fb, s, cmd, x, row.y as int, pixel, shade),
                        s,
                        cmd,
                        vram,
                        row,
                        k + 1,
                        ends,
                        last,
                        j,
                    );
                } else {
                    row_stays_inside(fb, s, cmd, vram, row, k + 1, ends, last, j);
                }
            },
        }
    }
}

proof fn rows_stay_inside(
    fb: Seq<u8>,
    s: Vdp1State,
    cmd: CmdTable,
    vram: Seq<u8>,
    q: Quad,
    n: nat,
    j: int,
)
    requires
        0 <= j < fb.len(),
        !touchable(s, cmd, j),
    ensures
        rows_drawn(fb, s, cmd, vram, q, n).len() == fb.len(),
        rows_drawn(fb, s, cmd, vram, q, n)[j] == fb[j],
    decreases n,
{
    if n > 0 {
        rows_stay_inside(fb, s, cmd, vram, q, (n - 1) as nat, j);
        row_stays_inside(
            rows_drawn(fb, s, cmd, vram, q, (n - 1) as nat),
            s,
            cmd,
            vram,
            row_of(cmd, vram, q, n - 1),
            0,
            0,
            -1,
            j,
        );
    }
}

/// A quadrangle changes no dot that clipping, the mesh or the field leaves out.
pub proof fn quad_stays_inside(
    fb: Seq<u8>,
    s: Vdp1State,
    cmd: CmdTable,
    vram: Seq<u8>,
    q: Quad,
    j: int,
)
    requires
        0 <= j < fb.len(),
        !touchable(s, cmd, j),
    ensures
        quad_drawn(fb, s, cmd, vram, q).len() == fb.len(),
        quad_drawn(fb, s, cmd, vram, q)[j] == fb[j],
{
    reveal(quad_drawn);
    rows_stay_inside(fb, s, cmd, vram, q, (crate::vdp::quad::last_row(q) + 1) as nat, j);
}

/// No command changes a dot that clipping, the mesh or the field leaves out.
pub proof fn shapes_stay_inside(
    fb: Seq<u8>,
    s: Vdp1State,
    cmd: CmdTable,
    vram: Seq<u8>,
    j: int,
)
    requires
        0 <= j < fb.len(),
        !touchable(s, cmd, j),
    ensures
        shape_drawn(fb, s, cmd, vram).len() == fb.len(),
        shape_drawn(fb, s, cmd, vram)[j] == fb[j],
{
    reveal(shape_drawn);
    let q = crate::vdp::list::free_quad(s, cmd);
    let shape = cmd.cmdctrl % 8;
    quad_stays_inside(fb, s, cmd, vram, crate::vdp::list::normal_quad(s, cmd), j);
    quad_stays_inside(fb, s, cmd, vram, crate::vdp::list::scaled_quad(s, cmd), j);
    quad_stays_inside(fb, s, cmd, vram, q, j);
    let l1 = crate::vdp::list::edge_line(cmd, vram, q.tl, 0, q.tr, 1);
    let l2 = crate::vdp::list::edge_line(cmd, vram, q.tr, 1, q.br, 2);
    let l3 = crate::vdp::list::edge_line(cmd, vram, q.bl, 3, q.br, 2);
    let l4 = crate::vdp::list::edge_line(cmd, vram, q.tl, 0, q.bl, 3);
    let fb1 = line_drawn(fb, s, cmd, l1);
    let fb2 = line_drawn(fb1, s, cmd, l2);
    let fb3 = line_drawn(fb2, s, cmd, l3);
    line_stays_inside(fb, s, cmd, l1, j);
    line_stays_inside(fb1, s, cmd, l2, j);
    line_stays_inside(fb2, s, cmd, l3, j);
    line_stays_inside(fb3, s, cmd, l4, j);
}

/// While plotting is off, or for a command that is to be skipped, nothing is drawn.
pub proof fn skipped_commands_draw_nothing(d: Drawing, cmd: CmdTable, vram: Seq<u8>)
    requires
        d.state.ptmr == 0 || cmd.cmdctrl / 0x4000 % 2 == 1,
    ensures
        command_effect(d, cmd, vram).fb == d.fb,
{
    reveal(command_effect);
}

/// A list that begins with its end draws nothing, and counts as not drawn.
pub proof fn empty_list_draws_nothing(s: Vdp1State, m: Memory)
    requires
        m.wf(),
        s.status is IDLE,
        list_started(s).edsr & 0x02 == 0,
        !s.vblank_erase,
        command_at(m.vdp1_vram, 0).cmdctrl >= 0x8000,
    ensures
        list_executed(s, m).1 == m,
        !list_executed(s, m).2,
        list_executed(s, m).0.status is IDLE,
{
    let d = Drawing { state: list_started(s), fb: bank_of(m, m.back as int) };
    let r = list_done(d, m.vdp1_vram, 0);
    assert(r.0.fb == d.fb);
}

/// Drawing leaves the picture on display as it is.
pub proof fn drawing_leaves_the_display(s: Vdp1State, m: Memory)
    requires
        m.wf(),
    ensures
        displayed_bank(list_executed(s, m).1) == displayed_bank(m),
        list_executed(s, m).1.back == m.back,
{
}

/// A swap puts what was drawn on display, and a second swap takes it off again.
pub proof fn swap_displays_what_was_drawn(s: Vdp1State, m: Memory)
    requires
        m.wf(),
    ensures
        displayed_bank(swapped_memory(s, m)) == bank_of(m, m.back as int),
        swapped_memory(s, m).back != m.back,
        swapped_memory(s, swapped_memory(s, m)).back == m.back,
{
}

/// Erasing an erased bank changes nothing.
pub proof fn erasing_is_idempotent(fb: Seq<u8>, s: Vdp1State)
    ensures
        erased(erased(fb, s), s) =~= erased(fb, s),
{
}

/// Where VDP1 has drawn nothing, the back screen shows.
pub proof fn blank_picture_shows_the_back_screen(m: Memory, x: int, y: int)
    requires
        m.wf(),
        0 <= x,
        0 <= y,
        forall|j: int|
            0 <= j < displayed_bank(m).len() ==> #[trigger] displayed_bank(m)[j] == 0,
    ensures
        screen_pixel(m, x, y) == back_color(m, y),
{
    assert(0 <= y * vdp1_line(m)) by (nonlinear_arith)
        requires
            y >= 0,
            vdp1_line(m) >= 0,
    ;
    assert(be16(0, 0) == 0);
}

} // verus!
