//! Where the screens find their dots, and how dots are mixed.

use crate::vdp2::{
    cell_check, composed, decoded, dot_color, dot_data, dot_entry, dot_in_char, dot_offset, frontmost, mix255,
    mixed_pixels, name_addr, name_at, name_bytes, page_bytes, pattern_of, pixel_of, plane_addr, plane_of,
    sum31, PixelData, ScreenVars, Vdp2LayerConfig,
};
use crate::vdp2_regs::cram_color;
use vstd::prelude::*;

verus! {

/// A channel of a pixel, five bits each from the lowest.
pub open spec fn channel(p: u32, i: int) -> int {
    if i == 0 {
        p as int % 32
    } else if i == 1 {
        p as int / 32 % 32
    } else {
        p as int / 1024 % 32
    }
}

/// A mixed channel is a channel, and is the weighted mean rounded down.
proof fn mixed_within(t: int, b: int, a: int)
    requires
        0 <= t < 32,
        0 <= b < 32,
        0 <= a <= 255,
    ensures
        0 <= mix255(t, b, a) < 32,
        mix255(t, b, a) * 255 <= t * a + b * (255 - a) < (mix255(t, b, a) + 1) * 255,
        a == 255 ==> mix255(t, b, a) == t,
{
    assert(0 <= t * a + b * (255 - a) <= 31 * 255) by (nonlinear_arith)
        requires
            0 <= t < 32,
            0 <= b < 32,
            0 <= a <= 255,
    ;
    if a == 255 {
        assert(b * (255 - a) == 0 && t * a == t * 255) by (nonlinear_arith)
            requires
                a == 255,
        ;
    }
}

/// Three channels can be read back.
proof fn put_together(above: int, r: int, g: int, b: int)
    requires
        0 <= above <= 0xFFFF_0000,
        above % 0x8000 == 0,
        0 <= r < 32,
        0 <= g < 32,
        0 <= b < 32,
    ensures
        channel(pixel_of(above, r, g, b), 0) == r,
        channel(pixel_of(above, r, g, b), 1) == g,
        channel(pixel_of(above, r, g, b), 2) == b,
        pixel_of(above, r, g, b) as int / 0x100_0000 == above / 0x100_0000,
{
    let p = pixel_of(above, r, g, b) as int;
    let q = above / 0x8000;
    assert(p == q * 0x8000 + b * 1024 + g * 32 + r);
    assert(p / 1024 == q * 32 + b);
    assert(p / 32 == q * 1024 + b * 32 + g);
    assert(p / 0x8000 == q);
}

/// Unflipped, a character stands in memory cell by cell, each cell eight lines of eight dots. A
/// large one has its upper two cells before its lower two, and of each two the left one first.
pub proof fn characters_stand_cell_by_cell(x: u32, y: u32, cfg: Vdp2LayerConfig)
    ensures
        dot_in_char(x, y, 0, cfg).0 == x % 8,
        cfg.patternwh == 1 ==> dot_in_char(x, y, 0, cfg).1 == y % 8,
        cfg.patternwh != 1 ==> dot_in_char(x, y, 0, cfg).1 == y % 8 + 8 * (x % 16 / 8) + 16 * (y
            % 16 / 8),
{
    assert(x % 16 / 8 == x / 8 % 2);
    assert(y % 16 / 8 == y / 8 % 2);
}

/// No two dots of an unflipped character share a place.
pub proof fn dots_have_places_of_their_own(
    x1: u32,
    y1: u32,
    x2: u32,
    y2: u32,
    cfg: Vdp2LayerConfig,
)
    requires
        x1 < 16 && y1 < 16 && x2 < 16 && y2 < 16,
        cfg.patternwh == 1 ==> x1 < 8 && y1 < 8 && x2 < 8 && y2 < 8,
        dot_in_char(x1, y1, 0, cfg) == dot_in_char(x2, y2, 0, cfg),
    ensures
        x1 == x2,
        y1 == y2,
{
}

/// How many bits a dot takes.
pub open spec fn dot_bits(colors: u16) -> int {
    if colors == 0 {
        4
    } else if colors == 1 {
        8
    } else if colors <= 3 {
        16
    } else {
        32
    }
}

/// The dots of a character follow each other line by line, in 4, 8, 16, 16 or 32 bits each.
pub proof fn dots_follow_each_other(d: (int, int), cellw: u32, colors: u16)
    ensures
        dot_offset(d, cellw, colors) == (d.1 * cellw + d.0) * dot_bits(colors) / 8,
{
    let n = d.1 * cellw + d.0;
    assert(n * 4 / 8 == n / 2);
    assert(n * 8 / 8 == n);
    assert(n * 16 / 8 == n * 2);
    assert(n * 32 / 8 == n * 4);
}

/// In 16 colours a byte holds two dots, the left one in its upper half; in more colours a dot
/// is one, two or four whole bytes, the most significant one first.
#[verifier::spinoff_prover]
pub proof fn dots_are_read_from_vram(
    charaddr: u32,
    d: (int, int),
    cellw: u32,
    cfg: Vdp2LayerConfig,
    vram: Seq<u8>,
    a: int,
)
    requires
        !cfg.transparencyenable,
        a == (charaddr + (d.1 * cellw + d.0) * dot_bits(cfg.colornumber) / 8) % 0x8_0000,
        a + 3 < vram.len(),
    ensures
        cfg.colornumber > 4 <==> dot_data(charaddr, d, cellw, cfg, vram) is None,
        cfg.colornumber == 0 && d.0 % 2 == 0 ==> dot_data(charaddr, d, cellw, cfg, vram).unwrap()
            == vram[a] as int / 16,
        cfg.colornumber == 0 && d.0 % 2 == 1 ==> dot_data(charaddr, d, cellw, cfg, vram).unwrap()
            == vram[a] as int % 16,
        cfg.colornumber == 1 ==> dot_data(charaddr, d, cellw, cfg, vram).unwrap() == vram[a],
        cfg.colornumber == 2 || cfg.colornumber == 3 ==> dot_data(
            charaddr,
            d,
            cellw,
            cfg,
            vram,
        ).unwrap() == vram[a] * 0x100 + vram[a + 1],
        cfg.colornumber == 4 ==> dot_data(charaddr, d, cellw, cfg, vram).unwrap() == vram[a]
            * 0x100_0000 + vram[a + 1] * 0x1_0000 + vram[a + 2] * 0x100 + vram[a + 3],
{
    dots_follow_each_other(d, cellw, cfg.colornumber);
}

/// With transparency on, a dot is clear where its palette index is 0, or where the top bit of
/// its direct colour is not set, and only there; all others read as without transparency.
#[verifier::spinoff_prover]
pub proof fn clear_dots_are_left_out(
    charaddr: u32,
    d: (int, int),
    cellw: u32,
    cfg: Vdp2LayerConfig,
    opaque: Vdp2LayerConfig,
    vram: Seq<u8>,
)
    requires
        cfg.transparencyenable,
        opaque == (Vdp2LayerConfig { transparencyenable: false, ..cfg }),
    ensures
        match dot_data(charaddr, d, cellw, opaque, vram) {
            None => dot_data(charaddr, d, cellw, cfg, vram) is None,
            Some(dot) => {
                let clear = if cfg.colornumber <= 2 {
                    dot == 0
                } else if cfg.colornumber == 3 {
                    dot / 0x8000 == 0
                } else {
                    dot / 0x8000_0000 == 0
                };
                &&& clear ==> dot_data(charaddr, d, cellw, cfg, vram) is None
                &&& !clear ==> dot_data(charaddr, d, cellw, cfg, vram) == Some(dot)
            },
        },
{
}

/// A number put together from what stands above and below its seventh bit.
#[verifier::spinoff_prover]
proof fn split_at_80(hi: int, lo: int)
    requires
        0 <= hi,
        0 <= lo < 0x80,
    ensures
        (hi * 0x80 + lo) % 0x80 == lo,
        (hi * 0x80 + lo) / 0x10 % 8 == lo / 16,
        (hi * 0x80 + lo) / 0x4000 == hi / 0x80,
        (hi * 0x80 + lo) / 0x2000 == hi / 0x40,
        (hi * 0x80 + lo) / 0x1000 == hi / 0x20,
{
    assert((hi * 0x80 + lo) / 0x10 == hi * 8 + lo / 16);
}

/// A pattern name of two words: the character in the second one, and in the first one the flips
/// in the top two bits, the two special functions below them, and the palette in the lowest
/// seven. Characters are counted in 32 bytes and palettes in 16 colours; with 256 colours only
/// the upper three bits of the palette count.
#[verifier::spinoff_prover]
pub proof fn two_word_names_are_taken_apart(
    flip: int,
    special: int,
    special_color: int,
    palette: int,
    number: int,
    unused: int,
    top: int,
    cfg: Vdp2LayerConfig,
)
    requires
        0 <= flip < 4,
        0 <= special < 2,
        0 <= special_color < 2,
        0 <= palette < 128,
        0 <= number < 0x4000,
        0 <= unused < 32,
        0 <= top < 2,
        cfg.patterndatasize == 2,
    ensures
        ({
            let d = decoded(
                flip * 0x4000 + special * 0x2000 + special_color * 0x1000 + unused * 0x80 + palette,
                top * 0x8000 + number,
                cfg,
            );
            &&& d.flipfunction == flip
            &&& d.specialfunction == special
            &&& d.specialcolorfunction == special_color
            &&& d.charaddr == number * 32
            &&& cfg.colornumber == 0 ==> d.paladdr == palette * 16
            &&& cfg.colornumber != 0 ==> d.paladdr == palette / 16 * 256
        }),
{
    let w1 = flip * 0x4000 + special * 0x2000 + special_color * 0x1000 + unused * 0x80 + palette;
    let hi = flip * 0x80 + special * 0x40 + special_color * 0x20 + unused;
    split_at_80(hi, palette);
    assert(w1 == hi * 0x80 + palette);
    assert(hi / 0x80 == flip);
    assert(hi / 0x40 == flip * 2 + special);
    assert(hi / 0x20 == flip * 4 + special * 2 + special_color);
    assert((top * 0x8000 + number) % 0x8000 == number);
}

/// A pattern name of one word: a palette in the top four bits; below them either two flip bits
/// and ten bits of the character, or twelve bits of the character. The supplement gives the
/// upper bits of the character, the lowest two of a large one, and the upper bits of a palette
/// of 16 colours.
#[verifier::spinoff_prover]
pub proof fn one_word_names_are_taken_apart(
    palette: int,
    flip: int,
    number: int,
    upper: int,
    high: int,
    low: int,
    cfg: Vdp2LayerConfig,
)
    requires
        0 <= palette < 16,
        0 <= flip < 4,
        0 <= number < 0x400,
        0 <= upper < 8,
        0 <= high < 8,
        0 <= low < 4,
        cfg.supplementdata == upper * 32 + high * 4 + low,
        cfg.patterndatasize == 1,
        cfg.vram_8mbit,
    ensures
        ({
            let d = decoded(palette * 0x1000 + flip * 0x400 + number, 0, cfg);
            let wide = flip * 0x400 + number;
            &&& d.specialfunction == 0 && d.specialcolorfunction == 0
            &&& d.flipfunction == if cfg.auxmode == 0 {
                flip
            } else {
                0
            }
            &&& cfg.colornumber == 0 ==> d.paladdr == palette * 16 + upper * 256
            &&& cfg.colornumber != 0 ==> d.paladdr == palette % 8 * 256
            &&& cfg.auxmode == 0 && cfg.patternwh == 1 ==> d.charaddr == (number + (high * 4 + low)
                * 0x400) * 32
            &&& cfg.auxmode == 0 && cfg.patternwh != 1 ==> d.charaddr == (number * 4 + low + high
                * 0x1000) * 32
            &&& cfg.auxmode != 0 && cfg.patternwh == 1 ==> d.charaddr == (wide + high * 0x1000)
                * 32
            &&& cfg.auxmode != 0 && cfg.patternwh != 1 ==> d.charaddr == (wide * 4 + low + high / 4
                * 0x4000) * 32
        }),
{
    let w1 = palette * 0x1000 + flip * 0x400 + number;
    let sup = cfg.supplementdata as int;
    assert(w1 % 0x400 == number);
    assert(w1 % 0x1000 == flip * 0x400 + number);
    assert(w1 / 0x1000 == palette);
    assert(w1 / 0x400 == palette * 4 + flip);
    assert(sup % 0x20 == high * 4 + low);
    assert(sup % 4 == low);
    assert(sup / 4 == upper * 8 + high);
    assert(sup / 0x20 == upper);
    assert(sup / 16 == upper * 2 + high / 4);
}

/// Only the large memory has room for characters behind the first half megabyte; in the small
/// one the number wraps.
pub proof fn characters_wrap_in_the_small_memory(
    w1: u16,
    w2: u16,
    small: Vdp2LayerConfig,
    large: Vdp2LayerConfig,
)
    requires
        large.vram_8mbit,
        small == (Vdp2LayerConfig { vram_8mbit: false, ..large }),
    ensures
        decoded(w1 as int, w2 as int, small).charaddr == decoded(
            w1 as int,
            w2 as int,
            large,
        ).charaddr % 0x8_0000,
{
    let number = crate::vdp2::char_number(w1 as int, w2 as int, large);
    assert(0 <= number < 0x8000);
    assert(number % 0x4000 * 0x20 == number * 0x20 % 0x8_0000);
}

/// Pattern names stand most significant byte first, one word or two.
pub proof fn names_are_read_from_vram(a: int, cfg: Vdp2LayerConfig, vram: Seq<u8>)
    requires
        0 <= a,
        a + 3 < vram.len(),
    ensures
        cfg.patterndatasize == 1 ==> name_at(a, cfg, vram) == decoded(
            vram[a] * 0x100 + vram[a + 1],
            0,
            cfg,
        ),
        cfg.patterndatasize == 2 ==> name_at(a, cfg, vram) == decoded(
            vram[a] * 0x100 + vram[a + 1],
            vram[a + 2] * 0x100 + vram[a + 3],
            cfg,
        ),
        cfg.patterndatasize == 1 ==> name_bytes(cfg) == 2,
        cfg.patterndatasize == 2 ==> name_bytes(cfg) == 4,
{
}

/// A page is 512 dots square and holds one name for each of its characters.
pub proof fn pages_hold_a_name_per_character(patterndatasize: u16, patternwh: u16)
    requires
        1 <= patterndatasize <= 2,
        1 <= patternwh <= 2,
    ensures
        page_bytes(patterndatasize, patternwh) == (512int / (8 * patternwh as int)) * (512int / (8
            * patternwh as int)) * (2 * patterndatasize),
{
    assert(64int * 64 * 2 == 0x2000 && 64int * 64 * 4 == 0x4000) by (nonlinear_arith);
    assert(32int * 32 * 2 == 0x800 && 32int * 32 * 4 == 0x1000) by (nonlinear_arith);
    let side = 8 * patternwh as int;
    assert(side == 8 ==> 512int / side == 64) by (nonlinear_arith);
    assert(side == 16 ==> 512int / side == 32) by (nonlinear_arith);
}

/// A palette index goes to the colour behind the screen's offset and its palette. With 2048
/// colours there is no palette.
pub proof fn palettes_are_looked_up(paladdr: u32, dot: u32, cfg: Vdp2LayerConfig)
    requires
        cfg.colornumber == 1 ==> paladdr % 256 == 0 && dot < 256,
    ensures
        cfg.colornumber <= 1 ==> dot_entry(paladdr, dot, cfg) == cfg.coloroffset + paladdr + dot,
        cfg.colornumber == 2 ==> dot_entry(paladdr, dot, cfg) == cfg.coloroffset + dot,
{
    if cfg.colornumber == 1 {
        assert(paladdr | dot == paladdr + dot) by (bit_vector)
            requires
                paladdr % 256 == 0,
                dot < 256,
        ;
    }
}

/// In its first two modes colour RAM holds 16-bit colours, in the third 32-bit ones. The 16-bit
/// ones have red in their lowest five bits, then green and blue. Each comes out as a byte, its
/// upper bits repeated below; blue is the lowest byte, and the top bit is kept at the top.
#[verifier::spinoff_prover]
pub proof fn color_ram_is_read(index: u16, mode: u16, cram: Seq<u8>, flag: int, r: int, g: int, b: int)
    requires
        cram.len() == 0x1000,
        index < 0x400,
        0 <= flag < 2,
        0 <= r < 32,
        0 <= g < 32,
        0 <= b < 32,
        mode <= 1 ==> cram[2 * index] * 0x100 + cram[2 * index + 1] == flag * 0x8000 + b * 0x400 + g
            * 0x20 + r,
    ensures
        mode <= 1 ==> {
            let c = cram_color(index, mode, cram);
            &&& c as int / 0x8000_0000 == flag
            &&& c as int / 0x1_0000 % 0x8000 == r * 8 + r / 4
            &&& c as int / 0x100 % 0x100 == g * 8 + g / 4
            &&& c as int % 0x100 == b * 8 + b / 4
        },
        mode == 2 ==> cram_color(index, mode, cram) == cram[4 * index] * 0x100_0000 + cram[4 * index
            + 1] * 0x1_0000 + cram[4 * index + 2] * 0x100 + cram[4 * index + 3],
        mode == 3 ==> cram_color(index, mode, cram) == 0,
{
    assert(index * 2 % 0x1000 == 2 * index);
    assert(index * 4 % 0x1000 == 4 * index);
    if mode <= 1 {
        let w: u16 = (flag * 0x8000 + b * 0x400 + g * 0x20 + r) as u16;
        assert(w as int / 0x400 == flag * 32 + b);
        assert(w as int / 0x20 == flag * 1024 + b * 32 + g);
        assert(crate::vdp::color::red(w) == r);
        assert(crate::vdp::color::green(w) == g);
        assert(crate::vdp::color::blue(w) == b);
        assert(w as int / 0x8000 == flag);
        let cr = r * 8 + r / 4;
        let cg = g * 8 + g / 4;
        let cb = b * 8 + b / 4;
        let c = cram_color(index, mode, cram) as int;
        assert(c == flag * 0x8000_0000 + cr * 0x1_0000 + cg * 0x100 + cb);
        assert(c / 0x100 == flag * 0x80_0000 + cr * 0x100 + cg);
        assert(c / 0x1_0000 == flag * 0x8000 + cr);
    }
}

/// Unflagged, two pixels are mixed by the opacity of the top one, of 63 in its bits 24 to 29:
/// each channel moves from the bottom one to the top one by that part, and a fully opaque top
/// covers the bottom.
#[verifier::spinoff_prover]
pub proof fn opacity_weighs_the_top_pixel(top: u32, bottom: u32, i: int)
    requires
        0 <= i < 3,
    ensures
        ({
            let o = top as int / 0x100_0000 % 64;
            let t = channel(top, i);
            let b = channel(bottom, i);
            let m = channel(mixed_pixels(top, bottom, 0), i);
            &&& m * 255 <= t * (4 * o + 3) + b * (252 - 4 * o) < (m + 1) * 255
            &&& o == 63 ==> m == t
            &&& mixed_pixels(top, bottom, 0) / 0x100_0000 == 0x3F
        }),
{
    let a = crate::vdp2::opacity(top);
    mixed_within(channel(top, 0), channel(bottom, 0), a);
    mixed_within(channel(top, 1), channel(bottom, 1), a);
    mixed_within(channel(top, 2), channel(bottom, 2), a);
    put_together(
        0x3F00_0000,
        mix255(channel(top, 0), channel(bottom, 0), a),
        mix255(channel(top, 1), channel(bottom, 1), a),
        mix255(channel(top, 2), channel(bottom, 2), a),
    );
}

/// A flagged top pixel is mixed by the opacity of the bottom one and keeps its own, and its flag.
#[verifier::spinoff_prover]
pub proof fn opacity_of_the_bottom_weighs_a_flagged_pixel(top: u32, bottom: u32, i: int)
    requires
        0 <= i < 3,
        top >= 0x8000_0000,
    ensures
        ({
            let o = bottom as int / 0x100_0000 % 64;
            let t = channel(top, i);
            let b = channel(bottom, i);
            let m = channel(mixed_pixels(top, bottom, 1), i);
            &&& m * 255 <= t * (4 * o + 3) + b * (252 - 4 * o) < (m + 1) * 255
            &&& mixed_pixels(top, bottom, 1) / 0x8000_0000 == 1
            &&& mixed_pixels(top, bottom, 1) / 0x100_0000 % 64 == top / 0x100_0000 % 64
        }),
{
    let a = crate::vdp2::opacity(bottom);
    mixed_within(channel(top, 0), channel(bottom, 0), a);
    mixed_within(channel(top, 1), channel(bottom, 1), a);
    mixed_within(channel(top, 2), channel(bottom, 2), a);
    let o = top as int / 0x100_0000 % 64;
    put_together(
        0x8000_0000 + o * 0x100_0000,
        mix255(channel(top, 0), channel(bottom, 0), a),
        mix255(channel(top, 1), channel(bottom, 1), a),
        mix255(channel(top, 2), channel(bottom, 2), a),
    );
}

/// Added, the channels of two pixels sum up as far as 31 goes.
#[verifier::spinoff_prover]
pub proof fn added_pixels_grow_brighter(top: u32, bottom: u32, i: int)
    requires
        0 <= i < 3,
    ensures
        ({
            let sum = channel(top, i) + channel(bottom, i);
            channel(mixed_pixels(top, bottom, 2), i) == if sum > 31 {
                31
            } else {
                sum
            }
        }),
        mixed_pixels(top, bottom, 2) / 0x100_0000 == 0x3F,
{
    put_together(
        0x3F00_0000,
        sum31(channel(top, 0), channel(bottom, 0)),
        sum31(channel(top, 1), channel(bottom, 1)),
        sum31(channel(top, 2), channel(bottom, 2)),
    );
}

/// How the front layer goes over what is behind it. A flagged pixel of a layer that takes part in
/// colour calculation is added where bit 8 of the control register says so, and is weighed by
/// the bottom's opacity where bit 9 says so. Else a pixel that is not fully opaque is weighed by
/// its own, and a fully opaque one covers what is behind it. Special colour calculation
/// in its last mode spares unflagged pixels.
#[verifier::spinoff_prover]
pub proof fn front_layer_goes_over_the_next(
    px: Seq<PixelData>,
    back_screen: u32,
    ccctl: u16,
    sfccmd: u16,
    f: int,
    below: u32,
)
    requires
        px.len() == 6,
        f == frontmost(px, -1, 6),
        0 <= f < 6,
        below == if frontmost(px, f, 6) < 0 {
            back_screen
        } else {
            px[frontmost(px, f, 6)].pixel
        },
    ensures
        ({
            let top = px[f].pixel;
            let shown = composed(px, back_screen, ccctl, sfccmd).0;
            let flagged = top as int / 0x8000_0000 == 1;
            let takes_part = ccctl & (1u16 << (f as u16)) != 0;
            let o = top as int / 0x100_0000 % 64;
            let spared = sfccmd % 4 == 3 && !flagged;
            &&& flagged && takes_part && ccctl as int / 0x100 % 2 == 1 ==> shown == mixed_pixels(
                top,
                below,
                2,
            )
            &&& flagged && takes_part && ccctl as int / 0x100 % 2 == 0 && ccctl as int / 0x200 % 2
                == 1 ==> shown == mixed_pixels(top, below, 1)
            &&& !(flagged && takes_part && (ccctl as int / 0x100 % 2 == 1 || ccctl as int / 0x200
                % 2 == 1)) && o < 63 && !spared ==> shown == mixed_pixels(top, below, 0)
            &&& !(flagged && takes_part && (ccctl as int / 0x100 % 2 == 1 || ccctl as int / 0x200
                % 2 == 1)) && (o == 63 || spared) ==> shown == top
            &&& composed(px, back_screen, ccctl, sfccmd).1 == px[f].priority
        }),
{
}

/// The plane that a dot lies in, counted row by row, and the place of its pattern name there:
/// page by page, and in each page row by row.
#[verifier::spinoff_prover]
pub proof fn patterns_stand_page_by_page(x: u32, y: u32, vars: ScreenVars, cfg: Vdp2LayerConfig)
    requires
        vars.planepixelwidth == 512 || vars.planepixelwidth == 1024,
        vars.planepixelheight == 512 || vars.planepixelheight == 1024,
        1 <= cfg.patternwh <= 2,
    ensures
        ({
            let w = vars.planepixelwidth as int;
            let h = vars.planepixelheight as int;
            let side = 8 * cfg.patternwh as int;
            let per_row = 512int / side;
            let page = (y as int % h / 512) * (w / 512) + x as int % w / 512;
            &&& plane_of(x, y, vars, cfg) == (y as int / h) * cfg.mapwh + x as int / w
            &&& pattern_of(x, y, vars, cfg) == page * (per_row * per_row) + (y as int % 512 / side)
                * per_row + x as int % 512 / side
        }),
{
    assert(x >> 9u32 == x / 512 && x >> 10u32 == x / 1024 && x & 511 == x % 512 && x & 1023 == x
        % 1024 && (x & 511) >> 3u16 == x % 512 / 8 && (x & 511) >> 4u16 == x % 512 / 16 && (x & 511)
        >> 9u32 == 0 && (x & 1023) >> 9u32 == x % 1024 / 512 && (x & 1023) & 511 == x % 512 && (x &
        511) & 511 == x % 512 && y >> 9u32 == y / 512 && y >> 10u32 == y / 1024 && y & 511 == y %
        512 && y & 1023 == y % 1024 && (y & 511) >> 3u16 == y % 512 / 8 && (y & 511) >> 4u16 == y %
        512 / 16 && (y & 511) >> 9u32 == 0 && (y & 1023) >> 9u32 == y % 1024 / 512 && (y & 1023) &
        511 == y % 512 && (y & 511) & 511 == y % 512) by (bit_vector);
    let px: u32 = (x as int % vars.planepixelwidth as int / 512) as u32;
    let py: u32 = (y as int % vars.planepixelheight as int / 512) as u32;
    let cy: u32 = (y as int % 512 / (8 * cfg.patternwh as int)) as u32;
    assert(px <= 1 && py <= 1);
    assert(px << 12u32 == px * 4096 && px << 10u32 == px * 1024 && (py << 12u32) << 0u32 == py * 4096
        && (py << 10u32) << 0u32 == py * 1024 && (py << 12u32) << 1u32 == py * 8192 && (py << 10u32)
        << 1u32 == py * 2048 && cy << 6u32 == cy * 64 && cy << 5u32 == cy * 32) by (bit_vector)
        requires
            px <= 1,
            py <= 1,
            cy <= 64,
    ;
    let w = vars.planepixelwidth as int;
    let side = 8 * cfg.patternwh as int;
    let per_row = 512int / side;
    assert(w / 512 == 1 || w / 512 == 2);
    if cfg.patternwh == 1 {
        assert(per_row == 64);
        assert(64int * 64 == 4096) by (nonlinear_arith);
    } else {
        assert(per_row == 32);
        assert(32int * 32 == 1024) by (nonlinear_arith);
    }
    assert(py * 1 == py && py * 2 == py + py);
}

/// Pages of planes count from the start of the map: a plane of one page begins at its number
/// times the size of a page, and a plane of several begins at a multiple of its whole size, the
/// lowest bits of its number being dropped.
#[verifier::spinoff_prover]
pub proof fn planes_begin_at_whole_pages(map: u16, byte: u16, size: u16, wh: u16, large: bool)
    requires
        1 <= size <= 2,
        1 <= wh <= 2,
    ensures
        ({
            let page = page_bytes(size, wh);
            let number = (map | byte) as int % (if size == 1 {
                if wh == 1 {
                    0x40int
                } else if large {
                    0x1_0000
                } else {
                    0x100
                }
            } else if wh == 1 {
                0x20
            } else {
                0x80
            });
            &&& plane_addr(map, byte, size, wh, 1, 1, large) == number * page
            &&& plane_addr(map, byte, size, wh, 2, 1, large) == number / 2 * (2 * page)
            &&& plane_addr(map, byte, size, wh, 2, 2, large) == number / 4 * (4 * page)
        }),
{
    let n = crate::vdp2::plane_number(map | byte, size, wh, large);
    assert(n >> 0u32 == n && n >> 1u32 == n / 2 && n >> 2u32 == n / 4) by (bit_vector);
    let page = page_bytes(size, wh);
    assert(1 * 1 * page == page && 2 * 1 * page == 2 * page);
    assert(2 * 2 * page == 4 * page) by (nonlinear_arith);
}

/// Two dots share a cell check if and only if they lie in the same character.
#[verifier::spinoff_prover]
pub proof fn cell_checks_tell_characters_apart(
    x1: u32,
    y1: u32,
    x2: u32,
    y2: u32,
    cfg: Vdp2LayerConfig,
)
    requires
        1 <= cfg.patternwh <= 2,
        x1 < 0x8_0000 && y1 < 0x8_0000 && x2 < 0x8_0000 && y2 < 0x8_0000,
    ensures
        ({
            let side = 8 * cfg.patternwh as int;
            cell_check(x1, y1, cfg) == cell_check(x2, y2, cfg) <==> x1 as int / side == x2 as int
                / side && y1 as int / side == y2 as int / side
        }),
{
    assert(((((y1 >> 3u16) << 16) | (x1 >> 3u16)) == (((y2 >> 3u16) << 16) | (x2 >> 3u16)) <==> x1
        / 8 == x2 / 8 && y1 / 8 == y2 / 8) && ((((y1 >> 4u16) << 16) | (x1 >> 4u16)) == (((y2
        >> 4u16) << 16) | (x2 >> 4u16)) <==> x1 / 16 == x2 / 16 && y1 / 16 == y2 / 16))
        by (bit_vector)
        requires
            x1 < 0x8_0000 && y1 < 0x8_0000 && x2 < 0x8_0000 && y2 < 0x8_0000,
    ;
    if cfg.patternwh == 1 {
        assert(8 * cfg.patternwh as int == 8);
    } else {
        assert(8 * cfg.patternwh as int == 16);
    }
}

/// A pattern name stands behind the start of its plane, by its number times its size.
pub proof fn names_stand_behind_their_plane(
    planetbl: Seq<u32>,
    x: u32,
    y: u32,
    vars: ScreenVars,
    cfg: Vdp2LayerConfig,
)
    requires
        1 <= cfg.patterndatasize <= 2,
    ensures
        name_addr(planetbl, x, y, vars, cfg) == planetbl[plane_of(x, y, vars, cfg)]
            + pattern_of(x, y, vars, cfg) * (2 * cfg.patterndatasize),
{
}

/// Direct colours lose their top bit, and of 32 bits the top byte; palette colours come from colour
/// RAM.
#[verifier::spinoff_prover]
pub proof fn dots_have_their_colors(
    addr: (u32, u32),
    x: u32,
    y: u32,
    flip: u16,
    cellw: u32,
    cfg: Vdp2LayerConfig,
    vram: Seq<u8>,
    cram: Seq<u8>,
)
    ensures
        match dot_data(addr.0, dot_in_char(x, y, flip, cfg), cellw, cfg, vram) {
            None => dot_color(addr, x, y, flip, cellw, cfg, vram, cram) is None,
            Some(dot) => {
                let c = dot_color(addr, x, y, flip, cellw, cfg, vram, cram);
                &&& c is Some
                &&& cfg.colornumber == 3 ==> c.unwrap() == dot as int % 0x8000
                &&& cfg.colornumber == 4 ==> c.unwrap() == dot as int % 0x100_0000
                &&& cfg.colornumber <= 2 ==> c.unwrap() == cram_color(
                    (dot_entry(addr.1, dot, cfg) % 0x1_0000) as u16,
                    cfg.cram_mode,
                    cram,
                )
            },
        },
{
}

} // verus!
