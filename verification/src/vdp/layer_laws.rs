//! Which registers set up the scrolling screens, and how they scroll.

use crate::shared_buffers::Memory;
use crate::vdp::frame::{screen_height, screen_width};
use crate::vdp::layers::{
    buffer_drawn, layer_dot, layer_drawn, layer_of_buffer, layer_vars, line0_words, plane_table,
    scroll_layer, ScrollLayer,
};
use crate::vdp2::{
    dot_color, hidden, layer_plane, name_addr, name_at, plane_addr, PixelData, Vdp2LayerConfig,
};
use vstd::prelude::*;

verus! {

/// A register by its address.
pub open spec fn reg(w: Seq<u16>, off: int) -> int {
    w[off / 2] as int
}

/// The registers of the first scrolling screen.
#[verifier::spinoff_prover]
pub proof fn registers_of_the_first_screen(w: Seq<u16>)
    requires
        w.len() == 256,
    ensures
        ({
            let l = scroll_layer(w, 0);
            let c = l.config;
            let pages = reg(w, 0x3A) % 4;
            &&& l.on <==> reg(w, 0x20) % 2 == 1 && reg(w, 0x28) / 0x2 % 2 == 0
            &&& l.priority == reg(w, 0xF8) % 8
            &&& l.scroll_x == reg(w, 0x70)
            &&& l.scroll_y == reg(w, 0x72)
            &&& c.patternwh == 1 + reg(w, 0x28) % 2
            &&& c.colornumber == reg(w, 0x28) / 0x10 % 8
            &&& c.transparencyenable <==> reg(w, 0x20) / 0x100 % 2 == 0
            &&& c.patterndatasize == 2 - reg(w, 0x30) / 0x8000
            &&& c.auxmode == reg(w, 0x30) / 0x4000 % 2
            &&& c.supplementdata == reg(w, 0x30) % 0x400
            &&& c.planew == (if pages % 2 == 1 {
                2int
            } else {
                1
            })
            &&& c.planeh == (if pages == 3 {
                2int
            } else {
                1
            })
            &&& c.mapwh == 2
            &&& c.mpofn == reg(w, 0x3C) % 8 * 0x40
            &&& c.mpab == reg(w, 0x40)
            &&& c.mpcd == reg(w, 0x42)
            &&& c.coloroffset == reg(w, 0xE4) % 8 * 0x100
            &&& c.cram_mode == reg(w, 0x0E) / 0x1000 % 4
            &&& c.vram_8mbit <==> reg(w, 0x06) / 0x8000 == 1
        }),
{
}

/// The registers of the second scrolling screen.
#[verifier::spinoff_prover]
pub proof fn registers_of_the_second_screen(w: Seq<u16>)
    requires
        w.len() == 256,
    ensures
        ({
            let l = scroll_layer(w, 1);
            let c = l.config;
            let pages = reg(w, 0x3A) / 0x4 % 4;
            &&& l.on <==> reg(w, 0x20) / 0x2 % 2 == 1 && reg(w, 0x28) / 0x200 % 2 == 0
            &&& l.priority == reg(w, 0xF8) / 0x100 % 8
            &&& l.scroll_x == reg(w, 0x80)
            &&& l.scroll_y == reg(w, 0x82)
            &&& c.patternwh == 1 + reg(w, 0x28) / 0x100 % 2
            &&& c.colornumber == reg(w, 0x28) / 0x1000 % 4
            &&& c.transparencyenable <==> reg(w, 0x20) / 0x200 % 2 == 0
            &&& c.patterndatasize == 2 - reg(w, 0x32) / 0x8000
            &&& c.auxmode == reg(w, 0x32) / 0x4000 % 2
            &&& c.supplementdata == reg(w, 0x32) % 0x400
            &&& c.planew == (if pages % 2 == 1 {
                2int
            } else {
                1
            })
            &&& c.planeh == (if pages == 3 {
                2int
            } else {
                1
            })
            &&& c.mapwh == 2
            &&& c.mpofn == reg(w, 0x3C) / 0x10 % 8 * 0x40
            &&& c.mpab == reg(w, 0x44)
            &&& c.mpcd == reg(w, 0x46)
            &&& c.coloroffset == reg(w, 0xE4) / 0x10 % 8 * 0x100
            &&& c.cram_mode == reg(w, 0x0E) / 0x1000 % 4
            &&& c.vram_8mbit <==> reg(w, 0x06) / 0x8000 == 1
        }),
{
}

/// The registers of the third scrolling screen.
#[verifier::spinoff_prover]
pub proof fn registers_of_the_third_screen(w: Seq<u16>)
    requires
        w.len() == 256,
    ensures
        ({
            let l = scroll_layer(w, 2);
            let c = l.config;
            let pages = reg(w, 0x3A) / 0x10 % 4;
            &&& l.on <==> reg(w, 0x20) / 0x4 % 2 == 1
            &&& l.priority == reg(w, 0xFA) % 8
            &&& l.scroll_x == reg(w, 0x90)
            &&& l.scroll_y == reg(w, 0x92)
            &&& c.patternwh == 1 + reg(w, 0x2A) % 2
            &&& c.colornumber == reg(w, 0x2A) / 0x2 % 2
            &&& c.transparencyenable <==> reg(w, 0x20) / 0x400 % 2 == 0
            &&& c.patterndatasize == 2 - reg(w, 0x34) / 0x8000
            &&& c.auxmode == reg(w, 0x34) / 0x4000 % 2
            &&& c.supplementdata == reg(w, 0x34) % 0x400
            &&& c.planew == (if pages % 2 == 1 {
                2int
            } else {
                1
            })
            &&& c.planeh == (if pages == 3 {
                2int
            } else {
                1
            })
            &&& c.mapwh == 2
            &&& c.mpofn == reg(w, 0x3C) / 0x100 % 8 * 0x40
            &&& c.mpab == reg(w, 0x48)
            &&& c.mpcd == reg(w, 0x4A)
            &&& c.coloroffset == reg(w, 0xE4) / 0x100 % 8 * 0x100
            &&& c.cram_mode == reg(w, 0x0E) / 0x1000 % 4
            &&& c.vram_8mbit <==> reg(w, 0x06) / 0x8000 == 1
        }),
{
}

/// The registers of the fourth scrolling screen.
#[verifier::spinoff_prover]
pub proof fn registers_of_the_fourth_screen(w: Seq<u16>)
    requires
        w.len() == 256,
    ensures
        ({
            let l = scroll_layer(w, 3);
            let c = l.config;
            let pages = reg(w, 0x3A) / 0x40 % 4;
            &&& l.on <==> reg(w, 0x20) / 0x8 % 2 == 1
            &&& l.priority == reg(w, 0xFA) / 0x100 % 8
            &&& l.scroll_x == reg(w, 0x94)
            &&& l.scroll_y == reg(w, 0x96)
            &&& c.patternwh == 1 + reg(w, 0x2A) / 0x10 % 2
            &&& c.colornumber == reg(w, 0x2A) / 0x20 % 2
            &&& c.transparencyenable <==> reg(w, 0x20) / 0x800 % 2 == 0
            &&& c.patterndatasize == 2 - reg(w, 0x36) / 0x8000
            &&& c.auxmode == reg(w, 0x36) / 0x4000 % 2
            &&& c.supplementdata == reg(w, 0x36) % 0x400
            &&& c.planew == (if pages % 2 == 1 {
                2int
            } else {
                1
            })
            &&& c.planeh == (if pages == 3 {
                2int
            } else {
                1
            })
            &&& c.mapwh == 2
            &&& c.mpofn == reg(w, 0x3C) / 0x1000 % 8 * 0x40
            &&& c.mpab == reg(w, 0x4C)
            &&& c.mpcd == reg(w, 0x4E)
            &&& c.coloroffset == reg(w, 0xE4) / 0x1000 % 8 * 0x100
            &&& c.cram_mode == reg(w, 0x0E) / 0x1000 % 4
            &&& c.vram_8mbit <==> reg(w, 0x06) / 0x8000 == 1
        }),
{
}

/// Scrolling moves the screen under the window: a dot of a scrolled screen is the dot of the
/// unscrolled one that far to the right and down.
#[verifier::spinoff_prover]
pub proof fn scrolling_moves_the_screen(
    l: ScrollLayer,
    still: ScrollLayer,
    x: int,
    y: int,
    vram: Seq<u8>,
    cram: Seq<u8>,
)
    requires
        still == (ScrollLayer { scroll_x: 0, scroll_y: 0, ..l }),
    ensures
        layer_dot(l, x, y, vram, cram) == layer_dot(
            still,
            x + l.scroll_x,
            y + l.scroll_y,
            vram,
            cram,
        ),
{
    reveal(layer_dot);
}

/// A screen is a map of two planes by two, each of one or two pages of 512 dots, and repeats
/// behind its edges.
#[verifier::spinoff_prover]
pub proof fn screens_repeat(l: ScrollLayer, x: int, y: int, vram: Seq<u8>, cram: Seq<u8>)
    requires
        1 <= l.config.planew <= 2,
        1 <= l.config.planeh <= 2,
    ensures
        layer_dot(l, x + 1024 * l.config.planew, y, vram, cram) == layer_dot(l, x, y, vram, cram),
        layer_dot(l, x, y + 1024 * l.config.planeh, vram, cram) == layer_dot(l, x, y, vram, cram),
{
    reveal(layer_dot);
    let w = 1024 * l.config.planew as int;
    let h = 1024 * l.config.planeh as int;
    vstd::arithmetic::div_mod::lemma_mod_add_multiples_vanish(x + l.scroll_x, w);
    vstd::arithmetic::div_mod::lemma_mod_add_multiples_vanish(y + l.scroll_y, h);
    assert(w + (x + l.scroll_x) == x + w + l.scroll_x);
    assert(h + (y + l.scroll_y) == y + h + l.scroll_y);
}

/// The sizes of a screen: a page is 512 dots square.
pub proof fn screens_have_their_sizes(c: Vdp2LayerConfig)
    requires
        1 <= c.planew <= 2,
        1 <= c.planeh <= 2,
        c.mapwh == 2,
    ensures
        layer_vars(c).planepixelwidth == 512 * c.planew,
        layer_vars(c).planepixelheight == 512 * c.planeh,
        layer_vars(c).screenwidth == 1024 * c.planew,
        layer_vars(c).xmask == 1024 * c.planew - 1,
        layer_vars(c).ymask == 1024 * c.planeh - 1,
        layer_vars(c).pagepixelwh == 512,
{
    assert(c.mapwh * (c.planew * 512) == 1024 * c.planew) by (nonlinear_arith)
        requires
            c.mapwh == 2,
    ;
    assert(c.mapwh * (c.planeh * 512) == 1024 * c.planeh) by (nonlinear_arith)
        requires
            c.mapwh == 2,
    ;
}

/// A screen that is on puts its dots where they are seen, row by row, at its priority, and leaves
/// its clear dots and everything behind the picture; one that is off changes nothing.
#[verifier::spinoff_prover]
pub proof fn screens_fill_their_layer(
    buf: Seq<PixelData>,
    l: ScrollLayer,
    width: int,
    height: int,
    vram: Seq<u8>,
    cram: Seq<u8>,
    x: int,
    y: int,
)
    requires
        0 <= x < width,
        0 <= y < height,
        width * height <= buf.len(),
        0 <= y * width + x < width * height,
    ensures
        ({
            let after = layer_drawn(buf, l, width, height, vram, cram);
            let i = y * width + x;
            &&& after.len() == buf.len()
            &&& !l.on ==> after[i] == buf[i]
            &&& l.on ==> match layer_dot(l, x, y, vram, cram) {
                None => after[i] == buf[i],
                Some(p) => after[i].pixel == p && after[i].priority == l.priority,
            }
        }),
{
    vstd::arithmetic::div_mod::lemma_fundamental_div_mod_converse(
        y * width + x,
        width,
        y,
        x,
    );
}

/// Of equal priorities the first screen is in front of the second and so on: they lie in the
/// layers from the back.
pub proof fn first_screen_is_in_front(n: int)
    ensures
        layer_of_buffer(3) == 0,
        layer_of_buffer(2) == 1,
        layer_of_buffer(1) == 2,
        layer_of_buffer(0) == 3,
        layer_of_buffer(layer_of_buffer(n)) == n,
{
}

/// A dot of a screen is looked up where scrolling takes it, through the pattern name there, and shows
/// fully opaque; a flag in its top bit is kept.
#[verifier::spinoff_prover]
pub proof fn screens_show_opaque_dots(
    l: ScrollLayer,
    x: int,
    y: int,
    vram: Seq<u8>,
    cram: Seq<u8>,
    sx: u32,
    sy: u32,
)
    requires
        1 <= l.config.planew <= 2,
        1 <= l.config.planeh <= 2,
        sx == (x + l.scroll_x) % (1024 * l.config.planew as int),
        sy == (y + l.scroll_y) % (1024 * l.config.planeh as int),
    ensures
        ({
            let c = l.config;
            let n = name_at(name_addr(plane_table(c), sx, sy, layer_vars(c), c), c, vram);
            match dot_color((n.charaddr, n.paladdr), sx, sy, n.flipfunction, 8, c, vram, cram) {
                None => layer_dot(l, x, y, vram, cram) is None,
                Some(color) => {
                    let p = layer_dot(l, x, y, vram, cram);
                    &&& p is Some
                    &&& p.unwrap() as int % 0x100_0000 == color as int % 0x100_0000
                    &&& p.unwrap() as int / 0x100_0000 % 128 == 0x7F
                    &&& p.unwrap() as int / 0x8000_0000 == color as int / 0x8000_0000
                },
            }
        }),
{
    reveal(layer_dot);
    assert(forall|c: u32|
        #![auto]
        (c | 0x7F00_0000) % 0x100_0000 == c % 0x100_0000 && (c | 0x7F00_0000) / 0x100_0000 % 128
            == 0x7F && (c | 0x7F00_0000) / 0x8000_0000 == c / 0x8000_0000) by (bit_vector);
}

/// The four planes of a screen take the bytes of its two map registers, each the lower one first.
pub proof fn planes_take_their_map_bytes(c: Vdp2LayerConfig, i: int)
    requires
        0 <= i < 4,
    ensures
        ({
            let reg = if i < 2 {
                c.mpab as int
            } else {
                c.mpcd as int
            };
            let byte = if i % 2 == 0 {
                reg % 0x100
            } else {
                reg / 0x100
            };
            layer_plane(c, i) == plane_addr(
                c.mpofn,
                byte as u16,
                c.patterndatasize,
                c.patternwh,
                c.planew,
                c.planeh,
                c.vram_8mbit,
            )
        }),
        plane_table(c).len() == 4,
        0 <= layer_plane(c, i) <= u32::MAX ==> plane_table(c)[i] == layer_plane(c, i),
{
}

/// A frame is as large as its mode register, the first word of the first line's registers, says. In
/// the first four layers the screens are drawn on it, the first one in the fourth layer; the
/// other layers show nothing.
#[verifier::spinoff_prover]
pub proof fn frames_are_drawn_layer_by_layer(
    buf: Seq<PixelData>,
    l: int,
    m: Memory,
    x: int,
    y: int,
    w: int,
    h: int,
)
    requires
        0 <= l < 6,
        m.vdp2_lines.len() > 0,
        m.vdp2_lines[0].len() >= 0x200,
        w == screen_width((m.vdp2_lines[0][0] * 0x100 + m.vdp2_lines[0][1]) as u16),
        h == screen_height((m.vdp2_lines[0][0] * 0x100 + m.vdp2_lines[0][1]) as u16),
        0 <= x < w,
        0 <= y < h,
        w * h <= buf.len(),
        0 <= y * w + x < w * h,
    ensures
        ({
            let after = buffer_drawn(buf, l, m)[y * w + x];
            let words = Seq::new(
                256,
                |i: int| (m.vdp2_lines[0][2 * i] * 0x100 + m.vdp2_lines[0][2 * i + 1]) as u16,
            );
            let s = scroll_layer(words, 3 - l);
            let p = layer_dot(s, x, y, m.vdp2_vram, m.vdp2_cram);
            &&& l < 4 && s.on && p is Some ==> after.pixel == p.unwrap() && after.priority
                == s.priority
            &&& !(l < 4 && s.on && p is Some) ==> after.priority == 0
        }),
        forall|i: int|
            w * h <= i < buf.len() ==> #[trigger] buffer_drawn(buf, l, m)[i] == buf[i],
{
    let words = Seq::new(
        256,
        |i: int| (m.vdp2_lines[0][2 * i] * 0x100 + m.vdp2_lines[0][2 * i + 1]) as u16,
    );
    assert(words =~= line0_words(m));
    let cleared = hidden(buf, w * h);
    if l < 4 {
        screens_fill_their_layer(
            cleared,
            scroll_layer(words, 3 - l),
            w,
            h,
            m.vdp2_vram,
            m.vdp2_cram,
            x,
            y,
        );
    }
}

} // verus!
