//! Which dots lines and quadrangles are made of, and what they show.

use crate::vdp::quad::{
    char_height, char_width, last_row, pattern_dot, pattern_line, Quad, Row,
};
use crate::vdp::raster::{direction, line_drift, line_length, line_x, line_y, Line};
use crate::vdp::CmdTable;
use vstd::prelude::*;

verus! {

/// The larger of two numbers.
pub open spec fn larger(a: int, b: int) -> int {
    if a >= b {
        a
    } else {
        b
    }
}

/// How far a number is from zero.
pub open spec fn size_of(a: int) -> int {
    if a >= 0 {
        a
    } else {
        -a
    }
}

/// Whether a number lies between two others.
pub open spec fn between(v: int, a: int, b: int) -> bool {
    (a <= v <= b) || (b <= v <= a)
}

/// How far a line moves on along its short axis.
proof fn drift_is_in_proportion(k: int, short: int, long: int)
    requires
        long > 0,
        0 <= short <= long,
        0 <= k <= long,
    ensures
        0 <= line_drift(k, short, long) <= short,
        line_drift(0, short, long) == 0,
        line_drift(long, short, long) == short,
        2 * size_of(line_drift(k, short, long) * long - k * short) <= long,
        line_drift(k, short, long) <= line_drift(k + 1, short, long) <= line_drift(k, short, long)
            + 1,
{
    let t = long / 2 + k * short;
    let q = line_drift(k, short, long);
    let q1 = line_drift(k + 1, short, long);
    assert(0 <= k * short <= long * short) by (nonlinear_arith)
        requires
            0 <= k <= long,
            0 <= short,
    ;
    assert((k + 1) * short == k * short + short) by (nonlinear_arith);
    assert(long * short == short * long) by (nonlinear_arith);
    vstd::arithmetic::div_mod::lemma_fundamental_div_mod(t, long);
    vstd::arithmetic::div_mod::lemma_mod_bound(t, long);
    vstd::arithmetic::div_mod::lemma_fundamental_div_mod(t + short, long);
    vstd::arithmetic::div_mod::lemma_mod_bound(t + short, long);
    vstd::arithmetic::div_mod::lemma_fundamental_div_mod_converse(
        long / 2 + long * short,
        long,
        short,
        long / 2,
    );
    vstd::arithmetic::div_mod::lemma_fundamental_div_mod_converse(long / 2, long, 0, long / 2);
    assert(0 * short == 0);
    assert(long * q == q * long && long * q1 == q1 * long) by (nonlinear_arith);
    assert(q <= q1 <= q + 1) by (nonlinear_arith)
        requires
            t == long * q + t % long,
            t + short == long * q1 + (t + short) % long,
            0 <= t % long < long,
            0 <= (t + short) % long < long,
            0 <= short <= long,
            long > 0,
    ;
    assert(0 <= q <= short) by (nonlinear_arith)
        requires
            t == long * q + t % long,
            0 <= t % long < long,
            0 <= t,
            t < long + long * short,
            long > 0,
    ;
}

/// Steps towards a point.
proof fn steps_lead_there(a: int, b: int, steps: int)
    ensures
        a + direction(a, b) * steps == if a < b {
            a + steps
        } else if a > b {
            a - steps
        } else {
            a
        },
{
    assert(1 * steps == steps && -1 * steps == -steps && 0 * steps == 0) by (nonlinear_arith);
}

/// Where a dot of a line lies.
#[verifier::spinoff_prover]
proof fn places_on_a_line(l: Line, k: int)
    ensures
        ({
            let dx = size_of(l.x2 - l.x1);
            let dy = size_of(l.y2 - l.y1);
            let along = if dx > dy {
                line_drift(k, dy, dx)
            } else {
                line_drift(k, dx, dy)
            };
            let sx = if dx > dy {
                k
            } else {
                along
            };
            let sy = if dx > dy {
                along
            } else {
                k
            };
            &&& line_x(l, k) == if l.x1 < l.x2 {
                l.x1 + sx
            } else if l.x1 > l.x2 {
                l.x1 - sx
            } else {
                l.x1 as int
            }
            &&& line_y(l, k) == if l.y1 < l.y2 {
                l.y1 + sy
            } else if l.y1 > l.y2 {
                l.y1 - sy
            } else {
                l.y1 as int
            }
        }),
{
    let dx = size_of(l.x2 - l.x1);
    let dy = size_of(l.y2 - l.y1);
    steps_lead_there(l.x1 as int, l.x2 as int, k);
    steps_lead_there(l.y1 as int, l.y2 as int, k);
    steps_lead_there(l.x1 as int, l.x2 as int, line_drift(k, dx, dy));
    steps_lead_there(l.y1 as int, l.y2 as int, line_drift(k, dy, dx));
}

/// A line begins at its first point and ends at its second. All of its dots lie in the
/// rectangle that these span, and each is a neighbour of the next.
#[verifier::spinoff_prover]
pub proof fn lines_connect_their_ends(l: Line, k: int)
    requires
        0 <= k <= larger(size_of(l.x2 - l.x1), size_of(l.y2 - l.y1)),
    ensures
        line_length(l) == larger(size_of(l.x2 - l.x1), size_of(l.y2 - l.y1)),
        line_x(l, 0) == l.x1,
        line_y(l, 0) == l.y1,
        line_x(l, line_length(l)) == l.x2,
        line_y(l, line_length(l)) == l.y2,
        between(line_x(l, k), l.x1 as int, l.x2 as int),
        between(line_y(l, k), l.y1 as int, l.y2 as int),
        k < line_length(l) ==> size_of(line_x(l, k + 1) - line_x(l, k)) <= 1,
        k < line_length(l) ==> size_of(line_y(l, k + 1) - line_y(l, k)) <= 1,
        k < line_length(l) ==> line_x(l, k + 1) != line_x(l, k) || line_y(l, k + 1) != line_y(
            l,
            k,
        ),
{
    let dx = size_of(l.x2 - l.x1);
    let dy = size_of(l.y2 - l.y1);
    if dx > dy {
        drift_is_in_proportion(k, dy, dx);
        drift_is_in_proportion(dx, dy, dx);
    } else if dy > 0 {
        drift_is_in_proportion(k, dx, dy);
        drift_is_in_proportion(dy, dx, dy);
    }
    places_on_a_line(l, 0);
    places_on_a_line(l, k);
    places_on_a_line(l, k + 1);
    places_on_a_line(l, line_length(l));
}

/// A line keeps as close to the straight way as dots can: on the shorter axis it is never
/// off by more than half a dot.
#[verifier::spinoff_prover]
pub proof fn lines_are_straight(l: Line, k: int)
    requires
        0 <= k <= line_length(l),
        line_length(l) > 0,
    ensures
        size_of(l.x2 - l.x1) > size_of(l.y2 - l.y1) ==> size_of(line_x(l, k) - l.x1) == k && 2
            * size_of(size_of(line_y(l, k) - l.y1) * line_length(l) - k * size_of(l.y2 - l.y1))
            <= line_length(l),
        size_of(l.x2 - l.x1) <= size_of(l.y2 - l.y1) ==> size_of(line_y(l, k) - l.y1) == k && 2
            * size_of(size_of(line_x(l, k) - l.x1) * line_length(l) - k * size_of(l.x2 - l.x1))
            <= line_length(l),
{
    let dx = size_of(l.x2 - l.x1);
    let dy = size_of(l.y2 - l.y1);
    if dx > dy {
        drift_is_in_proportion(k, dy, dx);
    } else {
        drift_is_in_proportion(k, dx, dy);
    }
    places_on_a_line(l, k);
}

/// A pattern is turned upside down by bit 5 of the control word: the row that showed a line
/// from the top then shows that line from the bottom.
pub proof fn vertical_flip_mirrors(cmd: CmdTable, flipped: CmdTable, q: Quad, i: int)
    requires
        flipped.cmdctrl == cmd.cmdctrl + 0x20,
        cmd.cmdctrl as int / 0x20 % 2 == 0,
        flipped.cmdsize == cmd.cmdsize,
    ensures
        pattern_line(flipped, q, i) == larger(
            cmd.cmdsize as int % 0x100 - 1 - pattern_line(cmd, q, i),
            0,
        ),
{
}

/// It is mirrored left to right by bit 4.
pub proof fn horizontal_flip_mirrors(cmd: CmdTable, flipped: CmdTable, row: Row, k: int)
    requires
        flipped.cmdctrl == cmd.cmdctrl + 0x10,
        cmd.cmdctrl as int / 0x10 % 2 == 0,
        flipped.cmdsize == cmd.cmdsize,
    ensures
        pattern_dot(flipped, row, k) == larger(
            cmd.cmdsize as int / 0x100 % 64 * 8 - 1 - pattern_dot(cmd, row, k),
            0,
        ),
{
}

/// Each flip leaves the other direction alone.
pub proof fn flips_are_independent(cmd: CmdTable, flipped: CmdTable, q: Quad, row: Row, i: int)
    requires
        flipped.cmdsize == cmd.cmdsize,
    ensures
        flipped.cmdctrl == cmd.cmdctrl + 0x10 && cmd.cmdctrl as int / 0x10 % 2 == 0
            ==> pattern_line(flipped, q, i) == pattern_line(cmd, q, i),
        flipped.cmdctrl == cmd.cmdctrl + 0x20 && cmd.cmdctrl as int / 0x20 % 2 == 0
            ==> pattern_dot(flipped, row, i) == pattern_dot(cmd, row, i),
{
}

/// A step in 65536ths comes out at most one whole below the exact place.
proof fn fixed_point_is_close(i: int, v: int, n: int)
    requires
        n >= 1,
        0 <= i <= 0xFFFF,
        v >= 0,
    ensures
        ({
            let p = i * (v * 0x1_0000 / n) / 0x1_0000;
            &&& 0 <= p
            &&& p * n <= i * v
            &&& i * v < (p + 2) * n
        }),
{
    let w = v * 0x1_0000;
    let s = w / n;
    let p = i * s / 0x1_0000;
    vstd::arithmetic::div_mod::lemma_fundamental_div_mod(w, n);
    vstd::arithmetic::div_mod::lemma_mod_bound(w, n);
    let r = w % n;
    assert(s >= 0) by (nonlinear_arith)
        requires
            w == n * s + r,
            0 <= r < n,
            w >= 0,
            n >= 1,
    ;
    assert(i * s >= 0) by (nonlinear_arith)
        requires
            i >= 0,
            s >= 0,
    ;
    let e = i * s % 0x1_0000;
    assert(i * s == p * 0x1_0000 + e && 0 <= e < 0x1_0000);
    assert(i * w == n * (i * s) + i * r) by (nonlinear_arith)
        requires
            w == n * s + r,
    ;
    assert(i * w == (i * v) * 0x1_0000) by (nonlinear_arith)
        requires
            w == v * 0x1_0000,
    ;
    assert(n * (i * s) == (p * n) * 0x1_0000 + n * e) by (nonlinear_arith)
        requires
            i * s == p * 0x1_0000 + e,
    ;
    assert(0 <= i * r < n * 0x1_0000) by (nonlinear_arith)
        requires
            0 <= i <= 0xFFFF,
            0 <= r < n,
    ;
    assert(0 <= n * e < n * 0x1_0000) by (nonlinear_arith)
        requires
            0 <= e < 0x1_0000,
            n >= 1,
    ;
    assert((p + 2) * n == p * n + 2 * n) by (nonlinear_arith);
}

/// Unflipped, the lines of a pattern are spread over the rows in proportion, from the top, and
/// come out at most two lines early.
pub proof fn pattern_is_spread_over_rows(cmd: CmdTable, q: Quad, i: int)
    requires
        cmd.cmdctrl as int / 0x20 % 2 == 0,
        0 <= i <= 0xFFFF,
    ensures
        pattern_line(cmd, q, i) * last_row(q) <= i * (cmd.cmdsize as int % 0x100),
        i * (cmd.cmdsize as int % 0x100) < (pattern_line(cmd, q, i) + 2) * last_row(q),
        pattern_line(cmd, q, 0) == 0,
        last_row(q) == larger(1, larger(q.bl.y - q.tl.y, q.br.y - q.tr.y)),
{
    fixed_point_is_close(i, char_height(cmd), last_row(q));
    assert(0 * (char_height(cmd) * 0x1_0000 / last_row(q)) == 0);
}

/// So are the dots of a line over a row, from the left.
pub proof fn pattern_is_spread_over_a_row(cmd: CmdTable, row: Row, k: int)
    requires
        cmd.cmdctrl as int / 0x10 % 2 == 0,
        0 <= k <= 0xFFFF,
        row.rx - row.lx >= 1,
        row.tex_step == char_width(cmd) * 0x1_0000 / (row.rx - row.lx),
    ensures
        pattern_dot(cmd, row, k) * (row.rx - row.lx) <= k * (cmd.cmdsize as int / 0x100 % 64 * 8),
        k * (cmd.cmdsize as int / 0x100 % 64 * 8) < (pattern_dot(cmd, row, k) + 2) * (row.rx
            - row.lx),
        pattern_dot(cmd, row, 0) == 0,
{
    fixed_point_is_close(k, char_width(cmd), row.rx - row.lx);
}

} // verus!
