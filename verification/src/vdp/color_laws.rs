//! What colour calculation, clipping and the colour modes make of single dots.

use crate::vdp::color::{
    halved, index_shifted, marked, mixed, rgb5, shade_shifts_index, shaded,
};
use crate::vdp::quad::{quad_over, texel, Texel};
use crate::vdp::raster::{drawable, line_color, line_over, shade_at};
use crate::vdp::{CmdTable, Vdp1State};
use vstd::prelude::*;

verus! {

/// A part of a colour: red, green or blue, five bits each from the lowest.
pub open spec fn part(c: u16, i: int) -> int {
    if i == 0 {
        c as int % 32
    } else if i == 1 {
        c as int / 32 % 32
    } else {
        c as int / 1024 % 32
    }
}

/// A number brought into the range of a part.
pub open spec fn into_range(v: int) -> int {
    if v < 0 {
        0
    } else if v > 31 {
        31
    } else {
        v
    }
}

/// Three parts can be read back.
proof fn parts_are_read_back(r: int, g: int, b: int)
    requires
        0 <= r < 32,
        0 <= g < 32,
        0 <= b < 32,
    ensures
        part(rgb5(r, g, b), 0) == r,
        part(rgb5(r, g, b), 1) == g,
        part(rgb5(r, g, b), 2) == b,
        rgb5(r, g, b) < 0x8000,
{
    let c = rgb5(r, g, b) as int;
    assert(c / 1024 == b);
    assert(c / 32 == b * 32 + g);
}

/// The top bit is set, and the parts stay as they are.
pub proof fn marking_sets_the_top_bit(c: u16, i: int)
    requires
        0 <= i < 3,
    ensures
        marked(c) >= 0x8000,
        part(marked(c), i) == part(c, i),
        marked(c) as int % 0x8000 == c as int % 0x8000,
{
    let d = marked(c) as int;
    assert(c < 0x8000 ==> d / 32 == c as int / 32 + 1024);
    assert(c < 0x8000 ==> d / 1024 == c as int / 1024 + 32);
}

/// Mixing moves each part from the first colour to the second, by 256ths, rounded down. At the
/// middle level it gives the mean.
#[verifier::spinoff_prover]
pub proof fn mixing_moves_each_part(d: u16, s: u16, level: int, i: int)
    requires
        0 <= level <= 256,
        0 <= i < 3,
    ensures
        ({
            let m = part(mixed(d, s, level), i);
            m * 256 <= part(s, i) * level + part(d, i) * (256 - level) < (m + 1) * 256
        }),
        part(mixed(d, s, 128), i) == (part(d, i) + part(s, i)) / 2,
        mixed(d, s, level) < 0x8000,
{
    part_is_mixed(part(d, 0), part(s, 0), level);
    part_is_mixed(part(d, 1), part(s, 1), level);
    part_is_mixed(part(d, 2), part(s, 2), level);
    parts_are_read_back(
        crate::vdp::color::mix1(part(d, 0), part(s, 0), level),
        crate::vdp::color::mix1(part(d, 1), part(s, 1), level),
        crate::vdp::color::mix1(part(d, 2), part(s, 2), level),
    );
    parts_are_read_back(
        crate::vdp::color::mix1(part(d, 0), part(s, 0), 128),
        crate::vdp::color::mix1(part(d, 1), part(s, 1), 128),
        crate::vdp::color::mix1(part(d, 2), part(s, 2), 128),
    );
}

proof fn part_is_mixed(d: int, s: int, level: int)
    requires
        0 <= d < 32,
        0 <= s < 32,
        0 <= level <= 256,
    ensures
        ({
            let m = crate::vdp::color::mix1(d, s, level);
            &&& 0 <= m < 32
            &&& m * 256 <= s * level + d * (256 - level) < (m + 1) * 256
        }),
        crate::vdp::color::mix1(d, s, 128) == (d + s) / 2,
        0 <= (d + s) / 2 < 32,
{
    assert(0 <= s * level + d * (256 - level) <= 31 * 256) by (nonlinear_arith)
        requires
            0 <= d < 32,
            0 <= s < 32,
            0 <= level <= 256,
    ;
    assert((s * 128 + d * (256 - 128)) / 256 == (d + s) / 2);
}

/// Shading moves each part by the shade's distance from 16, within the range.
#[verifier::spinoff_prover]
pub proof fn shading_moves_each_part(c: u16, shade: u16, i: int)
    requires
        0 <= i < 3,
    ensures
        part(shaded(c, shade), i) == into_range(part(c, i) + part(shade, i) - 16),
        shaded(c, shade) < 0x8000,
{
    parts_are_read_back(
        into_range(part(c, 0) + part(shade, 0) - 16),
        into_range(part(c, 1) + part(shade, 1) - 16),
        into_range(part(c, 2) + part(shade, 2) - 16),
    );
}

/// Half the luminance is half of each part, rounded down, with the top bit set.
#[verifier::spinoff_prover]
pub proof fn halving_halves_each_part(c: u16, i: int)
    requires
        0 <= i < 3,
    ensures
        part(halved(c), i) == part(c, i) / 2,
        halved(c) >= 0x8000,
{
    parts_are_read_back(part(c, 0) / 2, part(c, 1) / 2, part(c, 2) / 2);
    marking_sets_the_top_bit(rgb5(part(c, 0) / 2, part(c, 1) / 2, part(c, 2) / 2), i);
}

/// A shade whose green and blue are neutral lifts a colour index by its red above 16, and
/// never lowers it.
pub proof fn neutral_shades_lift_the_index(c: u16, shade: u16)
    requires
        c < 0xFFF0,
    ensures
        shade_shifts_index(shade) <==> part(shade, 1) == 16 && part(shade, 2) == 16,
        part(shade, 0) <= 16 ==> index_shifted(c, shade) == c,
        part(shade, 0) > 16 ==> index_shifted(c, shade) == c + part(shade, 0) - 16,
{
}

/// Three levels brought into range make a shade.
pub proof fn shades_hold_their_levels(r: int, g: int, b: int)
    ensures
        part(shade_at(r, g, b), 0) == into_range(r),
        part(shade_at(r, g, b), 1) == into_range(g),
        part(shade_at(r, g, b), 2) == into_range(b),
        shade_at(r, g, b) < 0x8000,
{
    parts_are_read_back(into_range(r), into_range(g), into_range(b));
}

/// What a dot of a sprite or polygon leaves behind, by the low three bits of its draw mode. With
/// the top bit of the draw mode set it only marks what is there. Else it replaces (0), darkens
/// what is there to half (1), comes at half its luminance (2), is averaged with what is there
/// (3), is shaded (4), or is averaged with its shade (above). Darkening and averaging need a
/// marked dot below: without one the shadow leaves it alone and the averaged dot replaces it.
#[verifier::spinoff_prover]
pub proof fn color_calculation_of_a_quad(
    cmd: CmdTable,
    pixel: u16,
    shade: u16,
    below: u16,
    i: int,
)
    requires
        0 <= i < 3,
    ensures
        ({
            let r = quad_over(cmd, pixel, shade, below);
            let calc = cmd.cmdpmod as int % 8;
            let by_index = cmd.cmdpmod as int / 8 % 8 != 1 && cmd.cmdpmod as int / 8 % 8 != 5
                && part(shade, 1) == 16 && part(shade, 2) == 16;
            if cmd.cmdpmod >= 0x8000 {
                r >= 0x8000 && r as int % 0x8000 == below as int % 0x8000
            } else if calc == 0 {
                r == pixel
            } else if calc == 1 {
                if below < 0x8000 {
                    r == below
                } else {
                    r >= 0x8000 && part(r, i) == part(below, i) / 2
                }
            } else if calc == 2 {
                r >= 0x8000 && part(r, i) == part(pixel, i) / 2
            } else if calc == 3 {
                if below < 0x8000 {
                    r == pixel
                } else {
                    r >= 0x8000 && part(r, i) == (part(below, i) + part(pixel, i)) / 2
                }
            } else if calc == 4 {
                &&& !by_index ==> part(r, i) == into_range(part(pixel, i) + part(shade, i) - 16)
                &&& by_index ==> r == index_shifted(pixel, shade)
            } else {
                r >= 0x8000 && part(r, i) == (part(shade, i) + part(pixel, i)) / 2
            }
        }),
{
    marking_sets_the_top_bit(below, i);
    mixing_moves_each_part(below, 0, 128, i);
    marking_sets_the_top_bit(mixed(below, 0, 128), i);
    halving_halves_each_part(pixel, i);
    mixing_moves_each_part(below, pixel, 128, i);
    marking_sets_the_top_bit(mixed(below, pixel, 128), i);
    shading_moves_each_part(pixel, shade, i);
    mixing_moves_each_part(shade, pixel, 128, i);
    marking_sets_the_top_bit(mixed(shade, pixel, 128), i);
    assert(part(0, i) == 0);
}

/// The same for a dot of a line: it replaces what is there, is averaged with a marked dot below
/// it (1 and 3), comes at half its luminance (2), is shaded (4) or averaged with its shade
/// (above). The top bit of the draw mode marks it.
#[verifier::spinoff_prover]
pub proof fn color_calculation_of_a_line(cmd: CmdTable, shade: u16, below: u16, i: int)
    requires
        0 <= i < 3,
    ensures
        ({
            let r = line_over(cmd, shade, below);
            let c = cmd.cmdcolr;
            let calc = cmd.cmdpmod as int % 8;
            let by_index = part(shade, 1) == 16 && part(shade, 2) == 16;
            if calc == 2 {
                r >= 0x8000 && part(r, i) == part(c, i) / 2
            } else if (calc == 1 || calc == 3) && below >= 0x8000 {
                r >= 0x8000 && part(r, i) == (part(below, i) + part(c, i)) / 2
            } else if calc < 4 {
                &&& cmd.cmdpmod < 0x8000 ==> r == c
                &&& cmd.cmdpmod >= 0x8000 ==> r >= 0x8000 && r as int % 0x8000 == c as int % 0x8000
            } else if calc == 4 {
                &&& !by_index ==> part(r, i) == into_range(part(c, i) + part(shade, i) - 16)
                &&& by_index && cmd.cmdpmod < 0x8000 ==> r == index_shifted(c, shade)
                &&& cmd.cmdpmod >= 0x8000 ==> r >= 0x8000
            } else {
                r >= 0x8000 && part(r, i) == (part(shade, i) + part(c, i)) / 2
            }
        }),
{
    let c = cmd.cmdcolr;
    halving_halves_each_part(c, i);
    mixing_moves_each_part(below, c, 128, i);
    marking_sets_the_top_bit(mixed(below, c, 128), i);
    shading_moves_each_part(c, shade, i);
    mixing_moves_each_part(shade, c, 128, i);
    marking_sets_the_top_bit(mixed(shade, c, 128), i);
    marking_sets_the_top_bit(line_color(cmd, shade), i);
}

/// Without user clipping and mesh, what may be drawn is the system clipping area, from the
/// origin up to its corner; of twice as many lines, when only one field is drawn, the even
/// or the odd ones.
pub proof fn system_clipping_bounds_drawing(s: Vdp1State, cmd: CmdTable, x: int, y: int)
    requires
        cmd.cmdpmod as int / 0x400 % 2 == 0,
        cmd.cmdpmod as int / 0x100 % 2 == 0,
    ensures
        s.fbcr as int / 8 % 2 == 0 ==> (drawable(s, cmd, x, y) <==> 0 <= x <= s.systemclip_x2 && 0
            <= y <= s.systemclip_y2),
        s.fbcr as int / 8 % 2 == 1 ==> (drawable(s, cmd, x, y) <==> 0 <= x <= s.systemclip_x2 && 0
            <= y <= s.systemclip_y2 * 2 && y % 2 == s.fbcr as int / 4 % 2),
{
}

/// User clipping, bit 10 of the draw mode, divides these dots in two: with bit 9 clear those
/// inside the user area may be drawn, with it set the others.
pub proof fn user_clipping_divides_drawing(
    s: Vdp1State,
    plain: CmdTable,
    inner: CmdTable,
    outer: CmdTable,
    x: int,
    y: int,
)
    requires
        plain.cmdpmod as int / 0x400 % 2 == 0,
        plain.cmdpmod as int / 0x200 % 2 == 0,
        inner.cmdpmod == plain.cmdpmod + 0x400,
        outer.cmdpmod == plain.cmdpmod + 0x600,
    ensures
        drawable(s, plain, x, y) <==> drawable(s, inner, x, y) || drawable(s, outer, x, y),
        !(drawable(s, inner, x, y) && drawable(s, outer, x, y)),
        drawable(s, inner, x, y) ==> s.userclip_x1 <= x <= s.userclip_x2,
        drawable(s, inner, x, y) && s.fbcr as int / 8 % 2 == 0 ==> s.userclip_y1 <= y
            <= s.userclip_y2,
        drawable(s, inner, x, y) && s.fbcr as int / 8 % 2 == 1 ==> s.userclip_y1 <= y / 2
            <= s.userclip_y2,
        drawable(s, plain, x, y) && s.userclip_x1 <= x <= s.userclip_x2 && s.fbcr as int / 8 % 2
            == 0 && s.userclip_y1 <= y <= s.userclip_y2 ==> drawable(s, inner, x, y),
{
    assert(inner.cmdpmod as int / 0x400 == plain.cmdpmod as int / 0x400 + 1);
    assert(outer.cmdpmod as int / 0x400 == plain.cmdpmod as int / 0x400 + 1);
    assert(inner.cmdpmod as int / 0x200 == plain.cmdpmod as int / 0x200 + 2);
    assert(outer.cmdpmod as int / 0x200 == plain.cmdpmod as int / 0x200 + 3);
    assert(inner.cmdpmod as int / 0x100 == plain.cmdpmod as int / 0x100 + 4);
    assert(outer.cmdpmod as int / 0x100 == plain.cmdpmod as int / 0x100 + 6);
}

/// The mesh, bit 8 of the draw mode, leaves every other dot: those whose coordinates add up to
/// an even number.
pub proof fn mesh_leaves_every_other_dot(
    s: Vdp1State,
    plain: CmdTable,
    mesh: CmdTable,
    x: int,
    y: int,
)
    requires
        plain.cmdpmod as int / 0x100 % 2 == 0,
        mesh.cmdpmod == plain.cmdpmod + 0x100,
    ensures
        drawable(s, mesh, x, y) <==> drawable(s, plain, x, y) && (x + y) % 2 == 0,
{
    assert(mesh.cmdpmod as int / 0x400 == plain.cmdpmod as int / 0x400);
    assert(mesh.cmdpmod as int / 0x200 == plain.cmdpmod as int / 0x200);
    assert(mesh.cmdpmod as int / 0x100 == plain.cmdpmod as int / 0x100 + 1);
}

/// The colours of a pattern: in modes 0, 2, 3 and 4 its index of 4, 6, 7 or 8 bits goes in the
/// place of the lowest bits of the colour bank. Index 0 is clear, unless clear dots are drawn
/// (bit 6 of the draw mode). The highest index ends a line in modes 0 and 4, unless
/// end codes are ignored (bit 7), and is clear in mode 2.
#[verifier::spinoff_prover]
pub proof fn color_banks_hold_the_index(cmd: CmdTable, vram: Seq<u8>, tx: int, ty: int)
    requires
        cmd.cmdctrl % 8 < 4,
        vram.len() == 0x8_0000,
        0 <= tx,
        0 <= ty,
    ensures
        ({
            let mode = cmd.cmdpmod as int / 8 % 8;
            let w = cmd.cmdsize as int / 0x100 % 64 * 8;
            let clear_shows = cmd.cmdpmod as int / 0x40 % 2 == 1;
            let ends = cmd.cmdpmod as int / 0x80 % 2 == 0;
            let t = texel(cmd, vram, tx, ty);
            let bank = cmd.cmdcolr as int;
            let at4 = ty * (w / 2) + tx;
            let byte4 = vram[(cmd.cmdsrca * 8 + at4 / 2) % 0x8_0000] as int;
            let idx4 = if at4 % 2 == 0 {
                byte4 / 16
            } else {
                byte4 % 16
            };
            let byte8 = vram[(cmd.cmdsrca * 8 + ty * w + tx) % 0x8_0000] as int;
            let idx = if mode == 0 {
                idx4
            } else if mode == 2 {
                byte8 % 64
            } else if mode == 3 {
                byte8 % 128
            } else {
                byte8
            };
            let size = if mode == 0 {
                16int
            } else if mode == 2 {
                64
            } else if mode == 3 {
                128
            } else {
                256
            };
            mode == 0 || mode == 2 || mode == 3 || mode == 4 ==> {
                &&& t is EndCode <==> (mode == 0 || mode == 4) && ends && idx == size - 1
                &&& t is Clear <==> (idx == 0 && !clear_shows) || (mode == 2 && idx == 63)
                &&& t matches Texel::Dot(color, visible) ==> color as int % size == idx
                    && color as int / size == bank / size && visible == (idx != 0)
            }
        }),
{
    reveal(texel);
    let mode = cmd.cmdpmod as int / 8 % 8;
    let w = cmd.cmdsize as int / 0x100 % 64 * 8;
    let byte8 = vram[(cmd.cmdsrca * 8 + ty * w + tx) % 0x8_0000] as int;
    assert((cmd.cmdsrca * 8) + (ty * w + tx) == cmd.cmdsrca * 8 + ty * w + tx);
    let bank = cmd.cmdcolr as int;
    in_bank(bank, byte8 % 64);
    in_bank(bank, byte8 % 128);
    in_bank(bank, byte8);
    let at4 = ty * (w / 2) + tx;
    let byte4 = vram[(cmd.cmdsrca * 8 + at4 / 2) % 0x8_0000] as int;
    in_bank(bank, byte4 / 16);
    in_bank(bank, byte4 % 16);
}

/// An index in the place of the lowest bits of a bank.
proof fn in_bank(bank: int, idx: int)
    requires
        0 <= bank < 0x1_0000,
        0 <= idx,
    ensures
        idx < 16 ==> (bank / 16 * 16 + idx) % 16 == idx && (bank / 16 * 16 + idx) / 16 == bank / 16
            && bank / 16 * 16 + idx < 0x1_0000,
        idx < 64 ==> (bank / 64 * 64 + idx) % 64 == idx && (bank / 64 * 64 + idx) / 64 == bank / 64
            && bank / 64 * 64 + idx < 0x1_0000,
        idx < 128 ==> (bank / 128 * 128 + idx) % 128 == idx && (bank / 128 * 128 + idx) / 128
            == bank / 128 && bank / 128 * 128 + idx < 0x1_0000,
        idx < 256 ==> (bank / 256 * 256 + idx) % 256 == idx && (bank / 256 * 256 + idx) / 256
            == bank / 256 && bank / 256 * 256 + idx < 0x1_0000,
{
}

/// In mode 1 the index picks one of sixteen words from a table, which the colour word points to
/// in units of eight bytes; in mode 5 the dot is itself a word. Words stand most significant
/// byte first. A word without its top bit is clear in mode 5, unless clear dots are drawn, and
/// the word 0x7FFF ends a line there.
#[verifier::spinoff_prover]
pub proof fn tables_and_direct_colors(cmd: CmdTable, vram: Seq<u8>, tx: int, ty: int)
    requires
        cmd.cmdctrl % 8 < 4,
        vram.len() == 0x8_0000,
        0 <= tx,
        0 <= ty,
    ensures
        ({
            let mode = cmd.cmdpmod as int / 8 % 8;
            let w = cmd.cmdsize as int / 0x100 % 64 * 8;
            let clear_shows = cmd.cmdpmod as int / 0x40 % 2 == 1;
            let ends = cmd.cmdpmod as int / 0x80 % 2 == 0;
            let t = texel(cmd, vram, tx, ty);
            let at4 = ty * (w / 2) + tx;
            let byte4 = vram[(cmd.cmdsrca * 8 + at4 / 2) % 0x8_0000] as int;
            let idx = if at4 % 2 == 0 {
                byte4 / 16
            } else {
                byte4 % 16
            };
            let entry = (cmd.cmdcolr * 8 + idx * 2) % 0x1_0000;
            let looked_up = vram[entry] * 0x100 + vram[(entry + 1) % 0x8_0000];
            let at5 = cmd.cmdsrca * 8 + (ty * (w * 2) + tx) * 2;
            let word = vram[at5 % 0x8_0000] * 0x100 + vram[(at5 + 1) % 0x8_0000];
            &&& mode == 1 ==> {
                &&& t is EndCode <==> ends && idx == 15
                &&& t is Clear <==> idx == 0 && !clear_shows
                &&& t matches Texel::Dot(color, visible) ==> color == looked_up && visible == (
                looked_up != 0)
            }
            &&& mode == 5 ==> {
                &&& t is EndCode <==> ends && word == 0x7FFF
                &&& t is Clear <==> word < 0x8000 && !clear_shows && !(ends && word == 0x7FFF)
                &&& t matches Texel::Dot(color, visible) ==> color == word && visible == (word != 0)
            }
        }),
{
    reveal(texel);
    let w = cmd.cmdsize as int / 0x100 % 64 * 8;
    let colr = cmd.cmdcolr as int;
    let at4 = ty * (w / 2) + tx;
    let byte4 = vram[(cmd.cmdsrca * 8 + at4 / 2) % 0x8_0000] as int;
    let idx = if at4 % 2 == 0 {
        byte4 / 16
    } else {
        byte4 % 16
    };
    assert((idx * 2 + colr * 8 % 0x1_0000) % 0x1_0000 == (colr * 8 + idx * 2) % 0x1_0000);
}

/// Polygons, and whatever is drawn as lines, have the one colour of their command.
pub proof fn plain_shapes_have_one_color(cmd: CmdTable, vram: Seq<u8>, tx: int, ty: int)
    requires
        4 <= cmd.cmdctrl % 8 <= 6,
    ensures
        texel(cmd, vram, tx, ty) == Texel::Dot(cmd.cmdcolr, cmd.cmdcolr != 0),
{
    reveal(texel);
}

} // verus!
