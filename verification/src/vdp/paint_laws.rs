//! Which dots of the frame buffer lines and quadrangles paint, and with what.

use crate::arith::wrap_s32;
use crate::bytes::word_bytes_round_trip;
use crate::vdp::color::{blue, green, red};
use crate::vdp::color_laws::{into_range, part, shades_hold_their_levels};
use crate::vdp::laws::covers;
use crate::vdp::list::box_at;
use crate::vdp::quad::{
    char_height, char_width, corner_shade, draws_clear, edge, last_row, outside, pattern_dot,
    pattern_line, quad_dot, quad_drawn, row_drawn, row_of, row_shade, rows_drawn, shade_step, texel,
    Quad, Row, Texel,
};
use crate::vdp::raster::{
    dot_index, dots_are_bytes, drawable, line_dot, line_drawn, line_length, line_prefix,
    line_shade, line_x, line_y, slope, Line,
};
use crate::vdp::shape_laws::{
    between, larger, lines_connect_their_ends, pattern_is_spread_over_a_row, size_of,
};
use crate::vdp::{CmdTable, Vdp1State};
use vstd::prelude::*;

verus! {

/// Where a dot stands in the frame buffer: lines of 512 words, or in the byte modes of 1024 or
/// 512 bytes. Drawing one field of two halves the line number.
pub proof fn dots_have_their_places(s: Vdp1State, x: int, y: int)
    ensures
        ({
            let line = if s.fbcr as int / 8 % 2 == 1 {
                y / 2
            } else {
                y
            };
            &&& s.tvmr as int % 4 == 1 ==> dot_index(s, x, y) == line * 1024 + x
            &&& s.tvmr as int % 4 != 1 ==> dot_index(s, x, y) == line * 512 + x
            &&& dots_are_bytes(s) <==> s.tvmr as int % 4 == 1 || s.tvmr as int % 4 == 3
        }),
{
}

/// A command that puts its colour down as it is: no colour calculation, no marking.
pub open spec fn paints_plainly(cmd: CmdTable) -> bool {
    cmd.cmdpmod as int % 8 == 0 && cmd.cmdpmod < 0x8000
}

/// Whether the dot at a place shows a colour.
pub open spec fn shows_color(fb: Seq<u8>, s: Vdp1State, x: int, y: int, c: u16) -> bool {
    let i = dot_index(s, x, y);
    if dots_are_bytes(s) {
        fb[i] == c as int % 0x100
    } else {
        fb[i * 2] * 0x100 + fb[i * 2 + 1] == c
    }
}

/// Whether a place is in the frame buffer and may be drawn on.
pub open spec fn on_canvas(fb: Seq<u8>, s: Vdp1State, cmd: CmdTable, x: int, y: int) -> bool {
    &&& drawable(s, cmd, x, y)
    &&& if dots_are_bytes(s) {
        dot_index(s, x, y) < fb.len()
    } else {
        dot_index(s, x, y) * 2 + 1 < fb.len()
    }
}

/// A plain dot of a line shows its colour, and dots that showed it before still do.
proof fn line_dot_paints(
    fb: Seq<u8>,
    s: Vdp1State,
    cmd: CmdTable,
    x: int,
    y: int,
    shade: u16,
    px: int,
    py: int,
)
    requires
        paints_plainly(cmd),
        on_canvas(fb, s, cmd, px, py),
        (x == px && y == py) || shows_color(fb, s, px, py, cmd.cmdcolr),
    ensures
        line_dot(fb, s, cmd, x, y, shade).len() == fb.len(),
        shows_color(line_dot(fb, s, cmd, x, y, shade), s, px, py, cmd.cmdcolr),
{
    reveal(line_dot);
    word_bytes_round_trip(cmd.cmdcolr);
}

proof fn line_prefix_paints(
    fb: Seq<u8>,
    s: Vdp1State,
    cmd: CmdTable,
    l: Line,
    n: nat,
    k: int,
)
    requires
        paints_plainly(cmd),
        0 <= k < n,
        on_canvas(fb, s, cmd, line_x(l, k), line_y(l, k)),
    ensures
        line_prefix(fb, s, cmd, l, n).len() == fb.len(),
        shows_color(line_prefix(fb, s, cmd, l, n), s, line_x(l, k), line_y(l, k), cmd.cmdcolr),
    decreases n,
{
    let before = line_prefix(fb, s, cmd, l, (n - 1) as nat);
    line_prefix_keeps_its_size(fb, s, cmd, l, (n - 1) as nat);
    if k < n - 1 {
        line_prefix_paints(fb, s, cmd, l, (n - 1) as nat, k);
    }
    line_dot_paints(
        before,
        s,
        cmd,
        line_x(l, n - 1),
        line_y(l, n - 1),
        line_shade(l, n - 1),
        line_x(l, k),
        line_y(l, k),
    );
}

proof fn line_prefix_keeps_its_size(
    fb: Seq<u8>,
    s: Vdp1State,
    cmd: CmdTable,
    l: Line,
    n: nat,
)
    ensures
        line_prefix(fb, s, cmd, l, n).len() == fb.len(),
    decreases n,
{
    if n > 0 {
        line_prefix_keeps_its_size(fb, s, cmd, l, (n - 1) as nat);
        reveal(line_dot);
    }
}

/// A plain line of up to 999 steps leaves its colour on every dot of its way that may be
/// drawn, both ends included.
pub proof fn lines_paint_their_whole_way(
    fb: Seq<u8>,
    s: Vdp1State,
    cmd: CmdTable,
    l: Line,
    k: int,
)
    requires
        paints_plainly(cmd),
        larger(size_of(l.x2 - l.x1), size_of(l.y2 - l.y1)) <= 999,
        0 <= k <= larger(size_of(l.x2 - l.x1), size_of(l.y2 - l.y1)),
        on_canvas(fb, s, cmd, line_x(l, k), line_y(l, k)),
    ensures
        shows_color(line_drawn(fb, s, cmd, l), s, line_x(l, k), line_y(l, k), cmd.cmdcolr),
{
    reveal(line_drawn);
    lines_connect_their_ends(l, k);
    let n = line_length(l);
    line_prefix_keeps_its_size(fb, s, cmd, l, n as nat);
    if k < n {
        line_prefix_paints(fb, s, cmd, l, n as nat, k);
    }
    line_dot_paints(
        line_prefix(fb, s, cmd, l, n as nat),
        s,
        cmd,
        l.x2 as int,
        l.y2 as int,
        line_shade(l, n),
        line_x(l, k),
        line_y(l, k),
    );
}

proof fn line_dot_touches_one_dot(
    fb: Seq<u8>,
    s: Vdp1State,
    cmd: CmdTable,
    x: int,
    y: int,
    shade: u16,
    j: int,
)
    requires
        0 <= j < fb.len(),
        !covers(s, x, y, j),
    ensures
        line_dot(fb, s, cmd, x, y, shade).len() == fb.len(),
        line_dot(fb, s, cmd, x, y, shade)[j] == fb[j],
{
    reveal(line_dot);
    assert(drawable(s, cmd, x, y) ==> dot_index(s, x, y) >= 0);
}

proof fn line_prefix_touches_its_dots(
    fb: Seq<u8>,
    s: Vdp1State,
    cmd: CmdTable,
    l: Line,
    n: nat,
    j: int,
)
    requires
        0 <= j < fb.len(),
        forall|k: int| 0 <= k < n ==> !covers(s, #[trigger] line_x(l, k), line_y(l, k), j),
    ensures
        line_prefix(fb, s, cmd, l, n).len() == fb.len(),
        line_prefix(fb, s, cmd, l, n)[j] == fb[j],
    decreases n,
{
    if n > 0 {
        line_prefix_touches_its_dots(fb, s, cmd, l, (n - 1) as nat, j);
        let k = n - 1;
        assert(!covers(s, line_x(l, k), line_y(l, k), j));
        line_dot_touches_one_dot(
            line_prefix(fb, s, cmd, l, (n - 1) as nat),
            s,
            cmd,
            line_x(l, k),
            line_y(l, k),
            line_shade(l, k),
            j,
        );
    }
}

/// A line changes nothing beside its way, and one of more than 999 steps changes nothing at
/// all.
pub proof fn lines_paint_nothing_else(fb: Seq<u8>, s: Vdp1State, cmd: CmdTable, l: Line, j: int)
    requires
        0 <= j < fb.len(),
        larger(size_of(l.x2 - l.x1), size_of(l.y2 - l.y1)) > 999 || forall|k: int|
            0 <= k <= larger(size_of(l.x2 - l.x1), size_of(l.y2 - l.y1)) ==> !covers(
                s,
                #[trigger] line_x(l, k),
                line_y(l, k),
                j,
            ),
    ensures
        line_drawn(fb, s, cmd, l).len() == fb.len(),
        line_drawn(fb, s, cmd, l)[j] == fb[j],
{
    reveal(line_drawn);
    let n = line_length(l);
    lines_connect_their_ends(l, 0);
    if n <= 999 {
        line_prefix_touches_its_dots(fb, s, cmd, l, n as nat, j);
        assert(!covers(s, line_x(l, n), line_y(l, n), j));
        line_dot_touches_one_dot(
            line_prefix(fb, s, cmd, l, n as nat),
            s,
            cmd,
            l.x2 as int,
            l.y2 as int,
            line_shade(l, n),
            j,
        );
    }
}

/// A plain dot of a quadrangle shows its colour.
proof fn quad_dot_paints(
    fb: Seq<u8>,
    s: Vdp1State,
    cmd: CmdTable,
    x: int,
    y: int,
    pixel: u16,
    shade: u16,
    px: int,
    py: int,
    c: u16,
)
    requires
        paints_plainly(cmd),
        drawable(s, cmd, x, y),
        on_canvas(fb, s, cmd, px, py),
        (x == px && y == py && c == pixel) || (shows_color(fb, s, px, py, c) && (c == pixel
            || dot_index(s, x, y) != dot_index(s, px, py))),
    ensures
        quad_dot(fb, s, cmd, x, y, pixel, shade).len() == fb.len(),
        shows_color(quad_dot(fb, s, cmd, x, y, pixel, shade), s, px, py, c),
{
    reveal(quad_dot);
    word_bytes_round_trip(pixel);
    assert(dot_index(s, x, y) >= 0);
}

/// A plain row of one colour, from its `k`th dot on, paints dot `j` and keeps what shows
/// its colour.
proof fn row_paints(
    fb: Seq<u8>,
    s: Vdp1State,
    cmd: CmdTable,
    vram: Seq<u8>,
    row: Row,
    k: int,
    ends: int,
    last: int,
    px: int,
    py: int,
)
    requires
        paints_plainly(cmd),
        4 <= cmd.cmdctrl % 8 <= 6,
        cmd.cmdcolr != 0,
        on_canvas(fb, s, cmd, px, py),
        shows_color(fb, s, px, py, cmd.cmdcolr) || (row.lx + k <= px <= row.rx && py == row.y),
    ensures
        row_drawn(fb, s, cmd, vram, row, k, ends, last).len() == fb.len(),
        shows_color(
            row_drawn(fb, s, cmd, vram, row, k, ends, last),
            s,
            px,
            py,
            cmd.cmdcolr,
        ),
    decreases row.rx - row.lx + 1 - k,
{
    let x = row.lx + k;
    if x > row.rx {
    } else if !drawable(s, cmd, x, row.y as int) {
        row_paints(fb, s, cmd, vram, row, k + 1, ends, last, px, py);
    } else {
        assert(texel(cmd, vram, pattern_dot(cmd, row, k), row.tex_y as int) == Texel::Dot(
            cmd.cmdcolr,
            true,
        )) by {
            reveal(texel);
        }
        let next = quad_dot(fb, s, cmd, x, row.y as int, cmd.cmdcolr, row_shade(row, k));
        assert(next.len() == fb.len()) by {
            reveal(quad_dot);
        }
        if (x == px && row.y == py) || shows_color(fb, s, px, py, cmd.cmdcolr) {
            quad_dot_paints(
                fb,
                s,
                cmd,
                x,
                row.y as int,
                cmd.cmdcolr,
                row_shade(row, k),
                px,
                py,
                cmd.cmdcolr,
            );
        }
        row_paints(next, s, cmd, vram, row, k + 1, ends, last, px, py);
    }
}

proof fn rows_paint(
    fb: Seq<u8>,
    s: Vdp1State,
    cmd: CmdTable,
    vram: Seq<u8>,
    q: Quad,
    n: nat,
    px: int,
    py: int,
    i: int,
)
    requires
        paints_plainly(cmd),
        4 <= cmd.cmdctrl % 8 <= 6,
        cmd.cmdcolr != 0,
        on_canvas(fb, s, cmd, px, py),
        0 <= i < n,
        row_of(cmd, vram, q, i).lx <= px <= row_of(cmd, vram, q, i).rx,
        py == row_of(cmd, vram, q, i).y,
    ensures
        rows_drawn(fb, s, cmd, vram, q, n).len() == fb.len(),
        shows_color(rows_drawn(fb, s, cmd, vram, q, n), s, px, py, cmd.cmdcolr),
    decreases n,
{
    let before = rows_drawn(fb, s, cmd, vram, q, (n - 1) as nat);
    let row = row_of(cmd, vram, q, n - 1);
    if i < n - 1 {
        rows_paint(fb, s, cmd, vram, q, (n - 1) as nat, px, py, i);
    } else {
        rows_have_the_size(fb, s, cmd, vram, q, (n - 1) as nat);
    }
    row_paints(before, s, cmd, vram, row, 0, 0, -1, px, py);
}

proof fn row_has_the_size(
    fb: Seq<u8>,
    s: Vdp1State,
    cmd: CmdTable,
    vram: Seq<u8>,
    row: Row,
    k: int,
    ends: int,
    last: int,
)
    ensures
        row_drawn(fb, s, cmd, vram, row, k, ends, last).len() == fb.len(),
    decreases row.rx - row.lx + 1 - k,
{
    let x = row.lx + k;
    let tx = pattern_dot(cmd, row, k);
    if x <= row.rx {
        row_has_the_size(fb, s, cmd, vram, row, k + 1, ends, last);
        row_has_the_size(fb, s, cmd, vram, row, k + 1, ends + 1, tx);
        if let Texel::Dot(pixel, _) = texel(cmd, vram, tx, row.tex_y as int) {
            reveal(quad_dot);
            row_has_the_size(
                quad_dot(fb, s, cmd, x, row.y as int, pixel, row_shade(row, k)),
                s,
                cmd,
                vram,
                row,
                k + 1,
                ends,
                last,
            );
        }
    }
}

proof fn rows_have_the_size(
    fb: Seq<u8>,
    s: Vdp1State,
    cmd: CmdTable,
    vram: Seq<u8>,
    q: Quad,
    n: nat,
)
    ensures
        rows_drawn(fb, s, cmd, vram, q, n).len() == fb.len(),
    decreases n,
{
    if n > 0 {
        rows_have_the_size(fb, s, cmd, vram, q, (n - 1) as nat);
        row_has_the_size(
            rows_drawn(fb, s, cmd, vram, q, (n - 1) as nat),
            s,
            cmd,
            vram,
            row_of(cmd, vram, q, n - 1),
            0,
            0,
            -1,
        );
    }
}

/// A plain polygon leaves its colour on every dot of its rows that may be drawn, from the left
/// edge to the right one, both included. The rows lead from the top corners down to the lower
/// of the bottom ones.
pub proof fn polygons_are_filled(
    fb: Seq<u8>,
    s: Vdp1State,
    cmd: CmdTable,
    vram: Seq<u8>,
    q: Quad,
    i: int,
    x: int,
)
    requires
        paints_plainly(cmd),
        4 <= cmd.cmdctrl % 8 <= 6,
        cmd.cmdcolr != 0,
        0 <= i <= larger(1, larger(q.bl.y - q.tl.y, q.br.y - q.tr.y)),
        !outside(s, q),
        edge(q.tl.x as int, q.bl.x as int, q.bl.y - q.tl.y, i) <= x <= edge(
            q.tr.x as int,
            q.br.x as int,
            q.br.y - q.tr.y,
            i,
        ),
        i <= 0x1000_0000,
        on_canvas(fb, s, cmd, x, q.tl.y + i),
    ensures
        shows_color(quad_drawn(fb, s, cmd, vram, q), s, x, q.tl.y + i, cmd.cmdcolr),
{
    reveal(quad_drawn);
    reveal(row_of);
    rows_paint(
        fb,
        s,
        cmd,
        vram,
        q,
        (last_row(q) + 1) as nat,
        x,
        q.tl.y + i,
        i,
    );
}

/// A rectangle is filled from corner to corner.
#[verifier::spinoff_prover]
pub proof fn rectangles_are_filled(
    fb: Seq<u8>,
    s: Vdp1State,
    cmd: CmdTable,
    vram: Seq<u8>,
    left: int,
    top: int,
    w: int,
    h: int,
    x: int,
    y: int,
)
    requires
        paints_plainly(cmd),
        4 <= cmd.cmdctrl % 8 <= 6,
        cmd.cmdcolr != 0,
        -0x8000 <= left,
        left + w <= 0x8000,
        -0x8000 <= top,
        top + h <= 0x8000,
        left <= x < left + w,
        top <= y < top + h,
        on_canvas(fb, s, cmd, x, y),
    ensures
        shows_color(
            quad_drawn(fb, s, cmd, vram, box_at(left, top, w, h)),
            s,
            x,
            y,
            cmd.cmdcolr,
        ),
{
    let q = box_at(left, top, w, h);
    let i = y - top;
    upright_edges_are_straight(left, h - 1, i);
    upright_edges_are_straight(left + w - 1, h - 1, i);
    assert(!outside(s, q));
    polygons_are_filled(fb, s, cmd, vram, q, i, x);
}

proof fn upright_edges_are_straight(x: int, n: int, i: int)
    requires
        -0x8000 <= x < 0x8000,
        0 <= n,
        0 <= i <= n,
    ensures
        edge(x, x, n, i) == x,
{
    if n > 0 {
        assert(0int / n == 0) by (nonlinear_arith)
            requires
                n > 0,
        ;
        assert(i * 0 == 0);
    } else {
        assert(i == 0);
        assert(0 * slope(x, x, n) == 0);
    }
}

/// The edges of a quadrangle begin at the upper corner, lead towards the lower one, and fall
/// short of the straight way by less than a dot per row.
#[verifier::spinoff_prover]
pub proof fn edges_lead_from_corner_to_corner(start: int, end: int, n: int, i: int)
    requires
        -0x4000 <= start < 0x4000,
        -0x4000 <= end < 0x4000,
        0 < n,
        0 <= i <= n,
    ensures
        edge(start, end, n, 0) == start,
        between(edge(start, end, n, i), start, end),
        size_of(edge(start, end, n, i) - start) * n <= i * size_of(end - start),
        i * size_of(end - start) <= (size_of(edge(start, end, n, i) - start) + i) * n,
{
    let d = size_of(end - start);
    let m = d / n;
    vstd::arithmetic::div_mod::lemma_fundamental_div_mod(d, n);
    vstd::arithmetic::div_mod::lemma_mod_bound(d, n);
    vstd::arithmetic::div_mod::lemma_div_pos_is_pos(d, n);
    assert(m * n <= d && d < (m + 1) * n && m >= 0) by (nonlinear_arith)
        requires
            d == n * m + d % n,
            0 <= d % n < n,
            m >= 0,
    ;
    assert(0 <= i * m <= m * n) by (nonlinear_arith)
        requires
            0 <= i <= n,
            m >= 0,
    ;
    assert((i * m) * n <= i * d) by (nonlinear_arith)
        requires
            m * n <= d,
            0 <= i,
    ;
    assert(i * d <= (i * m + i) * n) by (nonlinear_arith)
        requires
            d < (m + 1) * n,
            0 <= i,
    ;
    let sl = slope(start, end, n);
    assert(sl == if end >= start {
        m
    } else {
        -m
    });
    assert(i * sl == if end >= start {
        i * m
    } else {
        -(i * m)
    }) by (nonlinear_arith)
        requires
            sl == if end >= start {
                m
            } else {
                -m
            },
    ;
    assert(0 * sl == 0);
}

proof fn row_touches_its_dots(
    fb: Seq<u8>,
    s: Vdp1State,
    cmd: CmdTable,
    vram: Seq<u8>,
    row: Row,
    k: int,
    ends: int,
    last: int,
    j: int,
)
    requires
        0 <= j < fb.len(),
        0 <= k,
        forall|x: int| row.lx <= x <= row.rx ==> !#[trigger] covers(s, x, row.y as int, j),
    ensures
        row_drawn(fb, s, cmd, vram, row, k, ends, last).len() == fb.len(),
        row_drawn(fb, s, cmd, vram, row, k, ends, last)[j] == fb[j],
    decreases row.rx - row.lx + 1 - k,
{
    let x = row.lx + k;
    let tx = pattern_dot(cmd, row, k);
    if x <= row.rx {
        row_touches_its_dots(fb, s, cmd, vram, row, k + 1, ends, last, j);
        row_touches_its_dots(fb, s, cmd, vram, row, k + 1, ends + 1, tx, j);
        if drawable(s, cmd, x, row.y as int) {
            if let Texel::Dot(pixel, _) = texel(cmd, vram, tx, row.tex_y as int) {
                assert(!covers(s, x, row.y as int, j));
                assert(dot_index(s, x, row.y as int) >= 0);
                reveal(quad_dot);
                let next = quad_dot(fb, s, cmd, x, row.y as int, pixel, row_shade(row, k));
                row_touches_its_dots(next, s, cmd, vram, row, k + 1, ends, last, j);
            }
        }
    }
}

proof fn rows_touch_their_dots(
    fb: Seq<u8>,
    s: Vdp1State,
    cmd: CmdTable,
    vram: Seq<u8>,
    q: Quad,
    n: nat,
    j: int,
)
    requires
        0 <= j < fb.len(),
        n <= 0x1000_0000,
        forall|i: int, x: int|
            0 <= i < n && edge(q.tl.x as int, q.bl.x as int, q.bl.y - q.tl.y, i) <= x <= edge(
                q.tr.x as int,
                q.br.x as int,
                q.br.y - q.tr.y,
                i,
            ) ==> !#[trigger] covers(s, x, q.tl.y + i, j),
    ensures
        rows_drawn(fb, s, cmd, vram, q, n).len() == fb.len(),
        rows_drawn(fb, s, cmd, vram, q, n)[j] == fb[j],
    decreases n,
{
    if n > 0 {
        rows_touch_their_dots(fb, s, cmd, vram, q, (n - 1) as nat, j);
        let i = n - 1;
        let row = row_of(cmd, vram, q, i);
        reveal(row_of);
        assert forall|x: int| row.lx <= x <= row.rx implies !#[trigger] covers(
            s,
            x,
            row.y as int,
            j,
        ) by {
            assert(!covers(s, x, q.tl.y + i, j));
        }
        row_touches_its_dots(
            rows_drawn(fb, s, cmd, vram, q, (n - 1) as nat),
            s,
            cmd,
            vram,
            row,
            0,
            0,
            -1,
            j,
        );
    }
}

/// A quadrangle changes nothing but the dots between its edges.
pub proof fn quadrangles_paint_nothing_else(
    fb: Seq<u8>,
    s: Vdp1State,
    cmd: CmdTable,
    vram: Seq<u8>,
    q: Quad,
    j: int,
)
    requires
        0 <= j < fb.len(),
        larger(q.bl.y - q.tl.y, q.br.y - q.tr.y) < 0x1000_0000,
        forall|i: int, x: int|
            0 <= i <= larger(1, larger(q.bl.y - q.tl.y, q.br.y - q.tr.y)) && edge(
                q.tl.x as int,
                q.bl.x as int,
                q.bl.y - q.tl.y,
                i,
            ) <= x <= edge(q.tr.x as int, q.br.x as int, q.br.y - q.tr.y, i) ==> !#[trigger] covers(
                s,
                x,
                q.tl.y + i,
                j,
            ),
    ensures
        quad_drawn(fb, s, cmd, vram, q).len() == fb.len(),
        quad_drawn(fb, s, cmd, vram, q)[j] == fb[j],
{
    reveal(quad_drawn);
    rows_touch_their_dots(fb, s, cmd, vram, q, (last_row(q) + 1) as nat, j);
}

/// A row of a pattern, drawn plainly and without heeding end codes, shows each of its dots at
/// its place, and leaves what is below its clear ones.
#[verifier::spinoff_prover]
pub proof fn rows_show_their_pattern(
    fb: Seq<u8>,
    s: Vdp1State,
    cmd: CmdTable,
    vram: Seq<u8>,
    row: Row,
    k: int,
    j: int,
)
    requires
        paints_plainly(cmd),
        cmd.cmdpmod as int / 0x80 % 2 == 1,
        0 <= k <= j,
        row.lx + j <= row.rx,
        on_canvas(fb, s, cmd, row.lx + j, row.y as int),
    ensures
        ({
            let after = row_drawn(fb, s, cmd, vram, row, k, 0, -1);
            let clear_shows = cmd.cmdpmod as int / 0x40 % 2 == 1;
            let x = row.lx + j;
            &&& after.len() == fb.len()
            &&& match texel(cmd, vram, pattern_dot(cmd, row, j), row.tex_y as int) {
                Texel::Dot(pixel, visible) => {
                    &&& visible || clear_shows ==> shows_color(after, s, x, row.y as int, pixel)
                    &&& !(visible || clear_shows) ==> forall|c: u16|
                        #[trigger] shows_color(fb, s, x, row.y as int, c) ==> shows_color(
                            after,
                            s,
                            x,
                            row.y as int,
                            c,
                        )
                },
                Texel::Clear => forall|c: u16|
                    #[trigger] shows_color(fb, s, x, row.y as int, c) ==> shows_color(
                        after,
                        s,
                        x,
                        row.y as int,
                        c,
                    ),
                Texel::EndCode => false,
            }
        }),
    decreases j - k,
{
    let x = row.lx + k;
    let y = row.y as int;
    let px = row.lx + j;
    let tx = pattern_dot(cmd, row, k);
    assert(!(texel(cmd, vram, tx, row.tex_y as int) is EndCode)) by {
        reveal(texel);
    }
    let t = texel(cmd, vram, tx, row.tex_y as int);
    let next = match t {
        Texel::Dot(pixel, visible) => if drawable(s, cmd, x, y) && (visible || draws_clear(cmd)) {
            quad_dot(fb, s, cmd, x, y, pixel, row_shade(row, k))
        } else {
            fb
        },
        _ => fb,
    };
    assert(row_drawn(fb, s, cmd, vram, row, k, 0, -1) == row_drawn(
        next,
        s,
        cmd,
        vram,
        row,
        k + 1,
        0,
        -1,
    ));
    assert(next.len() == fb.len()) by {
        reveal(quad_dot);
    }
    if k < j {
        assert(dot_index(s, x, y) != dot_index(s, px, y));
        assert forall|c: u16| #[trigger] shows_color(fb, s, px, y, c) implies shows_color(
            next,
            s,
            px,
            y,
            c,
        ) by {
            if let Texel::Dot(pixel, visible) = t {
                if drawable(s, cmd, x, y) && (visible || draws_clear(cmd)) {
                    quad_dot_paints(fb, s, cmd, x, y, pixel, row_shade(row, k), px, y, c);
                }
            }
        }
        rows_show_their_pattern(next, s, cmd, vram, row, k + 1, j);
    } else {
        if let Texel::Dot(pixel, visible) = t {
            if visible || draws_clear(cmd) {
                quad_dot_paints(fb, s, cmd, x, y, pixel, row_shade(row, k), px, y, pixel);
            }
        }
        row_leaves_earlier_dots(next, s, cmd, vram, row, k + 1, j);
    }
}

/// What a row draws from its `k`th dot on leaves the dots before.
proof fn row_leaves_earlier_dots(
    fb: Seq<u8>,
    s: Vdp1State,
    cmd: CmdTable,
    vram: Seq<u8>,
    row: Row,
    k: int,
    j: int,
)
    requires
        paints_plainly(cmd),
        cmd.cmdpmod as int / 0x80 % 2 == 1,
        0 <= j < k,
        on_canvas(fb, s, cmd, row.lx + j, row.y as int),
    ensures
        row_drawn(fb, s, cmd, vram, row, k, 0, -1).len() == fb.len(),
        forall|c: u16|
            #[trigger] shows_color(fb, s, row.lx + j, row.y as int, c) ==> shows_color(
                row_drawn(fb, s, cmd, vram, row, k, 0, -1),
                s,
                row.lx + j,
                row.y as int,
                c,
            ),
    decreases row.rx - row.lx + 1 - k,
{
    let x = row.lx + k;
    let y = row.y as int;
    let px = row.lx + j;
    let tx = pattern_dot(cmd, row, k);
    let t = texel(cmd, vram, tx, row.tex_y as int);
    assert(!(t is EndCode)) by {
        reveal(texel);
    }
    if x <= row.rx {
        let next = match t {
            Texel::Dot(pixel, visible) => if drawable(s, cmd, x, y) && (visible || draws_clear(
                cmd,
            )) {
                quad_dot(fb, s, cmd, x, y, pixel, row_shade(row, k))
            } else {
                fb
            },
            _ => fb,
        };
        assert(next.len() == fb.len()) by {
            reveal(quad_dot);
        }
        assert(dot_index(s, x, y) != dot_index(s, px, y));
        assert forall|c: u16| #[trigger] shows_color(fb, s, px, y, c) implies shows_color(
            next,
            s,
            px,
            y,
            c,
        ) by {
            if let Texel::Dot(pixel, visible) = t {
                if drawable(s, cmd, x, y) && (visible || draws_clear(cmd)) {
                    quad_dot_paints(fb, s, cmd, x, y, pixel, row_shade(row, k), px, y, c);
                }
            }
        }
        row_leaves_earlier_dots(next, s, cmd, vram, row, k + 1, j);
    }
}

/// A big-endian word of video memory, which wraps around.
pub open spec fn table_word(vram: Seq<u8>, a: int) -> int {
    vram[a % 0x8_0000] * 0x100 + vram[(a % 0x8_0000 + 1) % 0x8_0000]
}

/// The parts of a colour.
pub open spec fn parts_of(c: int) -> (int, int, int) {
    (c % 32, c / 32 % 32, c / 1024 % 32)
}

#[verifier::spinoff_prover]
proof fn corner_is_read(cmd: CmdTable, vram: Seq<u8>, i: int)
    requires
        vram.len() == 0x8_0000,
        0 <= i < 4,
    ensures
        corner_shade(cmd, vram, i) == table_word(vram, cmd.cmdgrda * 8 + 2 * i),
        (
            red(corner_shade(cmd, vram, i)),
            green(corner_shade(cmd, vram, i)),
            blue(corner_shade(cmd, vram, i)),
        ) == parts_of(table_word(vram, cmd.cmdgrda * 8 + 2 * i)),
{
    let a = cmd.cmdgrda * 8 + i * 2;
    assert(a % 0x8_0000 % 0x8_0000 == a % 0x8_0000);
}

/// The levels of a shaded row.
#[verifier::spinoff_prover]
proof fn levels_of_a_row(cmd: CmdTable, vram: Seq<u8>, q: Quad, i: int)
    requires
        cmd.cmdpmod as int / 4 % 2 == 1,
    ensures
        ({
            let row = row_of(cmd, vram, q, i);
            let c0 = corner_shade(cmd, vram, 0);
            let c1 = corner_shade(cmd, vram, 1);
            let c2 = corner_shade(cmd, vram, 2);
            let c3 = corner_shade(cmd, vram, 3);
            let ln = q.bl.y - q.tl.y;
            let rn = q.br.y - q.tr.y;
            let span = larger(
                1,
                edge(q.tr.x as int, q.br.x as int, rn, i) - edge(
                    q.tl.x as int,
                    q.bl.x as int,
                    ln,
                    i,
                ),
            );
            &&& row.r == edge(red(c0), red(c3), ln, i) * 0x1_0000
            &&& row.g == edge(green(c0), green(c3), ln, i) * 0x1_0000
            &&& row.b == edge(blue(c0), blue(c3), ln, i) * 0x1_0000
            &&& row.r_step == shade_step(
                row.r as int,
                edge(red(c1), red(c2), rn, i) * 0x1_0000,
                span,
            )
            &&& row.g_step == shade_step(
                row.g as int,
                edge(green(c1), green(c2), rn, i) * 0x1_0000,
                span,
            )
            &&& row.b_step == shade_step(
                row.b as int,
                edge(blue(c1), blue(c2), rn, i) * 0x1_0000,
                span,
            )
        }),
{
    reveal(row_of);
    let ln = q.bl.y - q.tl.y;
    let rn = q.br.y - q.tr.y;
    let span = larger(
        1,
        edge(q.tr.x as int, q.br.x as int, rn, i) - edge(q.tl.x as int, q.bl.x as int, ln, i),
    );
    let c0 = corner_shade(cmd, vram, 0);
    let c1 = corner_shade(cmd, vram, 1);
    let c2 = corner_shade(cmd, vram, 2);
    let c3 = corner_shade(cmd, vram, 3);
    steps_are_small(
        edge(red(c0), red(c3), ln, i) * 0x1_0000,
        edge(red(c1), red(c2), rn, i) * 0x1_0000,
        span,
    );
    steps_are_small(
        edge(green(c0), green(c3), ln, i) * 0x1_0000,
        edge(green(c1), green(c2), rn, i) * 0x1_0000,
        span,
    );
    steps_are_small(
        edge(blue(c0), blue(c3), ln, i) * 0x1_0000,
        edge(blue(c1), blue(c2), rn, i) * 0x1_0000,
        span,
    );
}

/// Cut in whole steps, a way of less than 2^31 leads between its ends: no step is zero or less
/// where one is left over, and none leads too far.
proof fn steps_are_small(left: int, right: int, span: int)
    requires
        span >= 1,
    ensures
        -0x8000_0000 <= shade_step(left, right, span) <= 0x8000_0000,
        -0x8000_0000 <= right - left < 0x8000_0000 ==> size_of(shade_step(left, right, span)) * span
            <= size_of(right - left) < (size_of(shade_step(left, right, span)) + 1) * span,
        right >= left && right - left < 0x8000_0000 ==> shade_step(left, right, span) >= 0,
        right <= left && left - right <= 0x8000_0000 ==> shade_step(left, right, span) <= 0,
{
    let d = wrap_s32(right - left);
    let m = size_of(d);
    vstd::arithmetic::div_mod::lemma_fundamental_div_mod(m, span);
    vstd::arithmetic::div_mod::lemma_mod_bound(m, span);
    vstd::arithmetic::div_mod::lemma_div_pos_is_pos(m, span);
    let t = m / span;
    assert(t * span <= m && m < (t + 1) * span && t <= m) by (nonlinear_arith)
        requires
            m == span * t + m % span,
            0 <= m % span < span,
            t >= 0,
            span >= 1,
    ;
}

/// The shade of a row begins at the left edge, between the levels of the upper and the lower
/// left corner, the first and the fourth of the table, and moves towards the right edge, between
/// the second and the third, in whole steps. The table stands at eight times the command's
/// pointer, a word for each corner.
#[verifier::spinoff_prover]
pub proof fn shades_lead_from_edge_to_edge(cmd: CmdTable, vram: Seq<u8>, q: Quad, i: int)
    requires
        vram.len() == 0x8_0000,
        cmd.cmdpmod as int / 4 % 2 == 1,
        0 < q.bl.y - q.tl.y,
        0 < q.br.y - q.tr.y,
        0 <= i <= q.bl.y - q.tl.y,
        0 <= i <= q.br.y - q.tr.y,
    ensures
        ({
            let row = row_of(cmd, vram, q, i);
            let c0 = parts_of(table_word(vram, cmd.cmdgrda * 8));
            let c1 = parts_of(table_word(vram, cmd.cmdgrda * 8 + 2));
            let c2 = parts_of(table_word(vram, cmd.cmdgrda * 8 + 4));
            let c3 = parts_of(table_word(vram, cmd.cmdgrda * 8 + 6));
            let span = larger(
                1,
                edge(q.tr.x as int, q.br.x as int, q.br.y - q.tr.y, i) - edge(
                    q.tl.x as int,
                    q.bl.x as int,
                    q.bl.y - q.tl.y,
                    i,
                ),
            );
            &&& between(row.r as int, c0.0 * 0x1_0000, c3.0 * 0x1_0000)
            &&& between(row.g as int, c0.1 * 0x1_0000, c3.1 * 0x1_0000)
            &&& between(row.b as int, c0.2 * 0x1_0000, c3.2 * 0x1_0000)
            &&& i == 0 ==> row.r == c0.0 * 0x1_0000 && row.g == c0.1 * 0x1_0000 && row.b == c0.2
                * 0x1_0000
            &&& exists|right: int| #[trigger]
                between(right, c1.0 * 0x1_0000, c2.0 * 0x1_0000) && leads_to(
                    row.r as int,
                    row.r_step as int,
                    span,
                    right,
                ) && (i == 0 ==> right == c1.0 * 0x1_0000)
            &&& exists|right: int| #[trigger]
                between(right, c1.1 * 0x1_0000, c2.1 * 0x1_0000) && leads_to(
                    row.g as int,
                    row.g_step as int,
                    span,
                    right,
                ) && (i == 0 ==> right == c1.1 * 0x1_0000)
            &&& exists|right: int| #[trigger]
                between(right, c1.2 * 0x1_0000, c2.2 * 0x1_0000) && leads_to(
                    row.b as int,
                    row.b_step as int,
                    span,
                    right,
                ) && (i == 0 ==> right == c1.2 * 0x1_0000)
        }),
{
    let ln = q.bl.y - q.tl.y;
    let rn = q.br.y - q.tr.y;
    corner_is_read(cmd, vram, 0);
    corner_is_read(cmd, vram, 1);
    corner_is_read(cmd, vram, 2);
    corner_is_read(cmd, vram, 3);
    levels_of_a_row(cmd, vram, q, i);
    let c0 = parts_of(table_word(vram, cmd.cmdgrda * 8));
    let c1 = parts_of(table_word(vram, cmd.cmdgrda * 8 + 2));
    let c2 = parts_of(table_word(vram, cmd.cmdgrda * 8 + 4));
    let c3 = parts_of(table_word(vram, cmd.cmdgrda * 8 + 6));
    edges_lead_from_corner_to_corner(c0.0, c3.0, ln, i);
    edges_lead_from_corner_to_corner(c0.1, c3.1, ln, i);
    edges_lead_from_corner_to_corner(c0.2, c3.2, ln, i);
    edges_lead_from_corner_to_corner(c1.0, c2.0, rn, i);
    edges_lead_from_corner_to_corner(c1.1, c2.1, rn, i);
    edges_lead_from_corner_to_corner(c1.2, c2.2, rn, i);
    let row = row_of(cmd, vram, q, i);
    let span = larger(
        1,
        edge(q.tr.x as int, q.br.x as int, rn, i) - edge(q.tl.x as int, q.bl.x as int, ln, i),
    );
    let r = edge(c1.0, c2.0, rn, i) * 0x1_0000;
    let g = edge(c1.1, c2.1, rn, i) * 0x1_0000;
    let b = edge(c1.2, c2.2, rn, i) * 0x1_0000;
    steps_are_small(row.r as int, r, span);
    steps_are_small(row.g as int, g, span);
    steps_are_small(row.b as int, b, span);
    assert(between(r, c1.0 * 0x1_0000, c2.0 * 0x1_0000));
    assert(between(g, c1.1 * 0x1_0000, c2.1 * 0x1_0000));
    assert(between(b, c1.2 * 0x1_0000, c2.2 * 0x1_0000));
}

/// Whether whole steps lead from one level to another, or as near to it as they can.
pub open spec fn leads_to(left: int, step: int, span: int, right: int) -> bool {
    &&& size_of(step) * span <= size_of(right - left) < (size_of(step) + 1) * span
    &&& right >= left ==> step >= 0
    &&& right <= left ==> step <= 0
}

/// Along a row the shade moves by its step per dot, and shows the whole levels within range.
pub proof fn shades_move_along_a_row(row: Row, k: int)
    requires
        -0x8000_0000 <= row.r + (k + 1) * row.r_step < 0x8000_0000,
        -0x8000_0000 <= row.g + (k + 1) * row.g_step < 0x8000_0000,
        -0x8000_0000 <= row.b + (k + 1) * row.b_step < 0x8000_0000,
    ensures
        part(row_shade(row, k), 0) == into_range((row.r + (k + 1) * row.r_step) / 0x1_0000),
        part(row_shade(row, k), 1) == into_range((row.g + (k + 1) * row.g_step) / 0x1_0000),
        part(row_shade(row, k), 2) == into_range((row.b + (k + 1) * row.b_step) / 0x1_0000),
{
    shades_hold_their_levels(
        (row.r + (k + 1) * row.r_step) / 0x1_0000,
        (row.g + (k + 1) * row.g_step) / 0x1_0000,
        (row.b + (k + 1) * row.b_step) / 0x1_0000,
    );
}

/// The shade of a line moves from that of its first point towards that of its second in equal steps,
/// as large as fit, and never past it.
#[verifier::spinoff_prover]
pub proof fn shades_lead_along_a_line(l: Line, k: int, i: int)
    requires
        0 <= i < 3,
        line_length(l) > 0,
        0 <= k < line_length(l),
    ensures
        ({
            let a = part(l.shade1, i);
            let b = part(l.shade2, i);
            let p = part(line_shade(l, k), i);
            &&& between(p, a, b)
            &&& size_of(p - a) * line_length(l) <= (k + 1) * size_of(b - a)
            &&& (k + 1) * size_of(b - a) <= (size_of(p - a) + k + 1) * line_length(l)
        }),
{
    let n = line_length(l);
    let a = part(l.shade1, i);
    let b = part(l.shade2, i);
    edges_lead_from_corner_to_corner(a, b, n, k + 1);
    edges_lead_from_corner_to_corner(part(l.shade1, 0), part(l.shade2, 0), n, k + 1);
    edges_lead_from_corner_to_corner(part(l.shade1, 1), part(l.shade2, 1), n, k + 1);
    edges_lead_from_corner_to_corner(part(l.shade1, 2), part(l.shade2, 2), n, k + 1);
    level_on_the_way(part(l.shade1, 0), part(l.shade2, 0), n, k + 1);
    level_on_the_way(part(l.shade1, 1), part(l.shade2, 1), n, k + 1);
    level_on_the_way(part(l.shade1, 2), part(l.shade2, 2), n, k + 1);
    shades_hold_their_levels(
        part(l.shade1, 0) + (k + 1) * slope(part(l.shade1, 0), part(l.shade2, 0), n),
        part(l.shade1, 1) + (k + 1) * slope(part(l.shade1, 1), part(l.shade2, 1), n),
        part(l.shade1, 2) + (k + 1) * slope(part(l.shade1, 2), part(l.shade2, 2), n),
    );
}

proof fn level_on_the_way(a: int, b: int, n: int, i: int)
    requires
        0 <= a < 32,
        0 <= b < 32,
        0 < n,
        0 <= i <= n,
    ensures
        a + i * slope(a, b, n) == edge(a, b, n, i),
        0 <= edge(a, b, n, i) < 32,
{
    edges_lead_from_corner_to_corner(a, b, n, i);
    let d = size_of(b - a);
    let m = d / n;
    vstd::arithmetic::div_mod::lemma_fundamental_div_mod(d, n);
    vstd::arithmetic::div_mod::lemma_mod_bound(d, n);
    vstd::arithmetic::div_mod::lemma_div_pos_is_pos(d, n);
    let sl = slope(a, b, n);
    assert(sl == m || sl == -m);
    assert(-32 < i * sl < 32) by (nonlinear_arith)
        requires
            sl == m || sl == -m,
            m >= 0,
            d == n * m + d % n,
            0 <= d % n,
            d < 32,
            0 <= i <= n,
    ;
}

/// The rows of a quadrangle follow each other from its upper left corner down, each from the left
/// edge to the right one. A row shows one line of the pattern, and the dots of that line
/// in proportion, coming out at most two dots early.
#[verifier::spinoff_prover]
pub proof fn rows_spread_their_pattern(cmd: CmdTable, vram: Seq<u8>, q: Quad, i: int, k: int)
    requires
        0 <= i <= 0xFFFF,
        0 <= k <= 0xFFFF,
        cmd.cmdctrl as int / 0x10 % 2 == 0,
        row_of(cmd, vram, q, i).lx < row_of(cmd, vram, q, i).rx,
    ensures
        ({
            let row = row_of(cmd, vram, q, i);
            let w = cmd.cmdsize as int / 0x100 % 64 * 8;
            &&& row.y == q.tl.y + i
            &&& row.lx == edge(q.tl.x as int, q.bl.x as int, q.bl.y - q.tl.y, i)
            &&& row.rx == edge(q.tr.x as int, q.br.x as int, q.br.y - q.tr.y, i)
            &&& row.tex_y == pattern_line(cmd, q, i)
            &&& pattern_dot(cmd, row, k) * (row.rx - row.lx) <= k * w
            &&& k * w < (pattern_dot(cmd, row, k) + 2) * (row.rx - row.lx)
        }),
{
    reveal(row_of);
    let row = row_of(cmd, vram, q, i);
    let span = row.rx - row.lx;
    let w = char_width(cmd);
    assert(0 <= w * 0x1_0000 / span <= w * 0x1_0000) by (nonlinear_arith)
        requires
            span >= 1,
            0 <= w,
    ;
    pattern_is_spread_over_a_row(cmd, row, k);
    lines_fit(cmd, q, i);
}

proof fn lines_fit(cmd: CmdTable, q: Quad, i: int)
    requires
        0 <= i <= 0xFFFF,
    ensures
        0 <= pattern_line(cmd, q, i) <= 0x100_0000,
{
    let h = char_height(cmd);
    let n = last_row(q);
    let step = h * 0x1_0000 / n;
    assert(0 <= step <= h * 0x1_0000) by (nonlinear_arith)
        requires
            step == h * 0x1_0000 / n,
            n >= 1,
            h >= 0,
    ;
    assert(0 <= i * step <= 0xFFFF * 0x100_0000) by (nonlinear_arith)
        requires
            0 <= i <= 0xFFFF,
            0 <= step <= 0x100_0000,
    ;
}

/// The first end code of a row is passed over, however many dots show it, and the second one ends the
/// row.
pub proof fn second_end_code_ends_a_row(
    fb: Seq<u8>,
    s: Vdp1State,
    cmd: CmdTable,
    vram: Seq<u8>,
    row: Row,
    k: int,
    last: int,
)
    requires
        row.lx + k <= row.rx,
        drawable(s, cmd, row.lx + k, row.y as int),
        texel(cmd, vram, pattern_dot(cmd, row, k), row.tex_y as int) is EndCode,
    ensures
        pattern_dot(cmd, row, k) != last ==> row_drawn(fb, s, cmd, vram, row, k, 1, last) == fb,
        pattern_dot(cmd, row, k) == last ==> row_drawn(fb, s, cmd, vram, row, k, 1, last)
            == row_drawn(fb, s, cmd, vram, row, k + 1, 1, last),
        pattern_dot(cmd, row, k) != -1 ==> row_drawn(fb, s, cmd, vram, row, k, 0, -1) == row_drawn(
            fb,
            s,
            cmd,
            vram,
            row,
            k + 1,
            1,
            pattern_dot(cmd, row, k),
        ),
{
}

} // verus!
