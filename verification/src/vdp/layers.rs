//! A whole frame: the scrolling screens of VDP2 over the back screen.

use crate::shared_buffers::{Memory, WorkRam};
use crate::vdp::frame::{
    line0_word, render_back_screen, resolution_from_tvmd, screen, screen_height, screen_width,
    FrameView, Framebuffer,
};
use crate::vdp2::{
    cell_check, column, composed, dig_pixel, dot_color, dot_fits, dot_in_char, fetch_pixel,
    generate_plane_addr_table, hidden, layer_plane, layer_plane_fits, map_calc_xy, name_addr,
    name_at, pattern_of, plane_number, plane_of, setup_screen_vars, LayerBuffers, PixelData,
    ScreenVars, Vdp2LayerConfig, Vdp2State,
};
use crate::vdp2_regs::Vdp2Registers;
use vstd::prelude::*;

verus! {

/// A scrolling screen as the registers set it up.
#[derive(Clone, Copy, Debug, PartialEq, Eq, Structural)]
pub struct ScrollLayer {
    /// Whether it is shown, made of patterns.
    pub on: bool,
    pub priority: u8,
    pub scroll_x: u16,
    pub scroll_y: u16,
    pub config: Vdp2LayerConfig,
}

/// Pages per plane, across and down.
pub open spec fn plane_pages(code: u16) -> (u32, u32) {
    if code == 1 {
        (2, 1)
    } else if code == 3 {
        (2, 2)
    } else {
        (1, 1)
    }
}

/// The register at a byte offset.
pub open spec fn at(w: Seq<u16>, off: int) -> u16 {
    w[off / 2]
}

/// The configuration of a screen, from its registers.
pub open spec fn config_of(
    w: Seq<u16>,
    pncn: u16,
    size: u16,
    colors: u16,
    clear: bool,
    pages: u16,
    map_offset: u16,
    mpab: u16,
    mpcd: u16,
    palette: u16,
) -> Vdp2LayerConfig {
    Vdp2LayerConfig {
        mpofn: map_offset,
        mpab,
        mpcd,
        patterndatasize: if pncn / 0x8000 == 1 {
            1
        } else {
            2
        },
        patternwh: (size + 1) as u16,
        planew: plane_pages(pages).0,
        planeh: plane_pages(pages).1,
        vram_8mbit: at(w, 0x006) / 0x8000 == 1,
        mapwh: 2,
        supplementdata: (pncn % 0x400) as u16,
        auxmode: (pncn / 0x4000 % 2) as u16,
        colornumber: colors,
        transparencyenable: clear,
        coloroffset: palette as u32,
        cram_mode: (at(w, 0x00e) / 0x1000 % 4) as u16,
    }
}

/// Scrolling screen `n`. A screen that shows a bitmap is not made of patterns.
pub open spec fn scroll_layer(w: Seq<u16>, n: int) -> ScrollLayer {
    let on = at(w, 0x020);
    let cha = at(w, 0x028);
    let chb = at(w, 0x02a);
    let pages = at(w, 0x03a);
    let maps = at(w, 0x03c);
    let colors = at(w, 0x0e4);
    if n == 0 {
        ScrollLayer {
            on: on % 2 == 1 && cha / 0x2 % 2 == 0,
            priority: (at(w, 0x0f8) % 8) as u8,
            scroll_x: at(w, 0x070),
            scroll_y: at(w, 0x072),
            config: config_of(
                w,
                at(w, 0x030),
                (cha % 2) as u16,
                (cha / 0x10 % 8) as u16,
                on / 0x100 % 2 == 0,
                (pages % 4) as u16,
                (maps % 8 * 0x40) as u16,
                at(w, 0x040),
                at(w, 0x042),
                (colors % 8 * 0x100) as u16,
            ),
        }
    } else if n == 1 {
        ScrollLayer {
            on: on / 0x2 % 2 == 1 && cha / 0x200 % 2 == 0,
            priority: (at(w, 0x0f8) / 0x100 % 8) as u8,
            scroll_x: at(w, 0x080),
            scroll_y: at(w, 0x082),
            config: config_of(
                w,
                at(w, 0x032),
                (cha / 0x100 % 2) as u16,
                (cha / 0x1000 % 4) as u16,
                on / 0x200 % 2 == 0,
                (pages / 0x4 % 4) as u16,
                (maps / 0x10 % 8 * 0x40) as u16,
                at(w, 0x044),
                at(w, 0x046),
                (colors / 0x10 % 8 * 0x100) as u16,
            ),
        }
    } else if n == 2 {
        ScrollLayer {
            on: on / 0x4 % 2 == 1,
            priority: (at(w, 0x0fa) % 8) as u8,
            scroll_x: at(w, 0x090),
            scroll_y: at(w, 0x092),
            config: config_of(
                w,
                at(w, 0x034),
                (chb % 2) as u16,
                (chb / 0x2 % 2) as u16,
                on / 0x400 % 2 == 0,
                (pages / 0x10 % 4) as u16,
                (maps / 0x100 % 8 * 0x40) as u16,
                at(w, 0x048),
                at(w, 0x04a),
                (colors / 0x100 % 8 * 0x100) as u16,
            ),
        }
    } else {
        ScrollLayer {
            on: on / 0x8 % 2 == 1,
            priority: (at(w, 0x0fa) / 0x100 % 8) as u8,
            scroll_x: at(w, 0x094),
            scroll_y: at(w, 0x096),
            config: config_of(
                w,
                at(w, 0x036),
                (chb / 0x10 % 2) as u16,
                (chb / 0x20 % 2) as u16,
                on / 0x800 % 2 == 0,
                (pages / 0x40 % 4) as u16,
                (maps / 0x1000 % 8 * 0x40) as u16,
                at(w, 0x04c),
                at(w, 0x04e),
                (colors / 0x1000 % 8 * 0x100) as u16,
            ),
        }
    }
}

/// What the registers can set a screen up to.
pub open spec fn config_ok(c: Vdp2LayerConfig) -> bool {
    &&& c.patternwh == 1 || c.patternwh == 2
    &&& c.patterndatasize == 1 || c.patterndatasize == 2
    &&& c.planew == 1 || c.planew == 2
    &&& c.planeh == 1 || c.planeh == 2
    &&& c.mapwh == 2
    &&& c.coloroffset <= 0x700
}

fn pages_of(code: u16) -> (r: (u32, u32))
    ensures
        r == plane_pages(code),
{
    if code == 1 {
        (2, 1)
    } else if code == 3 {
        (2, 2)
    } else {
        (1, 1)
    }
}

fn make_config(
    regs: &Vdp2Registers,
    pncn: u16,
    size: u16,
    colors: u16,
    clear: bool,
    pages: u16,
    map_offset: u16,
    mpab: u16,
    mpcd: u16,
    palette: u16,
) -> (r: Vdp2LayerConfig)
    requires
        size <= 1,
        palette <= 0x700,
    ensures
        r == config_of(
            regs.regs@,
            pncn,
            size,
            colors,
            clear,
            pages,
            map_offset,
            mpab,
            mpcd,
            palette,
        ),
        config_ok(r),
{
    let (planew, planeh): (u32, u32) = pages_of(pages);
    Vdp2LayerConfig {
        mpofn: map_offset,
        mpab,
        mpcd,
        patterndatasize: if pncn / 0x8000 == 1 {
            1
        } else {
            2
        },
        patternwh: size + 1,
        planew,
        planeh,
        vram_8mbit: regs.vram_8mbit(),
        mapwh: 2,
        supplementdata: pncn % 0x400,
        auxmode: pncn / 0x4000 % 2,
        colornumber: colors,
        transparencyenable: clear,
        coloroffset: palette as u32,
        cram_mode: regs.color_mode(),
    }
}

fn make_layer(regs: &Vdp2Registers, n: usize) -> (r: ScrollLayer)
    requires
        n < 4,
    ensures
        r == scroll_layer(regs.regs@, n as int),
        config_ok(r.config),
{
    if n == 0 {
        ScrollLayer {
            on: regs.n0on() && !regs.n0bmen(),
            priority: regs.prina_nbg0() as u8,
            scroll_x: regs.scxn0(),
            scroll_y: regs.scyn0(),
            config: make_config(
                regs,
                regs.pncn0(),
                regs.chctla_nbg0_pattern_size(),
                regs.n0chcn(),
                regs.n0_transparency_enable(),
                regs.plsz_nbg0(),
                regs.mpofn_nbg0(),
                regs.mpabn0(),
                regs.mpcdn0(),
                regs.craofa_nbg0(),
            ),
        }
    } else if n == 1 {
        ScrollLayer {
            on: regs.n1on() && !regs.n1bmen(),
            priority: regs.prina_nbg1() as u8,
            scroll_x: regs.scxn1(),
            scroll_y: regs.scyn1(),
            config: make_config(
                regs,
                regs.pncn1(),
                regs.chctla_nbg1_pattern_size(),
                regs.n1chcn(),
                regs.n1_transparency_enable(),
                regs.plsz_nbg1(),
                regs.mpofn_nbg1(),
                regs.mpabn1(),
                regs.mpcdn1(),
                regs.craofa_nbg1(),
            ),
        }
    } else if n == 2 {
        ScrollLayer {
            on: regs.n2on(),
            priority: regs.prinb_nbg2() as u8,
            scroll_x: regs.scxn2(),
            scroll_y: regs.scyn2(),
            config: make_config(
                regs,
                regs.pncn2(),
                regs.chctlb_nbg2_pattern_size(),
                regs.n2chcn(),
                regs.n2_transparency_enable(),
                regs.plsz_nbg2(),
                regs.mpofn_nbg2(),
                regs.mpabn2(),
                regs.mpcdn2(),
                regs.craofa_nbg2(),
            ),
        }
    } else {
        ScrollLayer {
            on: regs.n3on(),
            priority: regs.prinb_nbg3() as u8,
            scroll_x: regs.scxn3(),
            scroll_y: regs.scyn3(),
            config: make_config(
                regs,
                regs.pncn3(),
                regs.n3chsz(),
                regs.n3chcn(),
                regs.n3_transparency_enable(),
                regs.plsz_nbg3(),
                regs.mpofn_nbg3(),
                regs.mpabn3(),
                regs.mpcdn3(),
                regs.craofa_nbg3(),
            ),
        }
    }
}

/// Where the four planes of a screen begin.
pub open spec fn plane_table(c: Vdp2LayerConfig) -> Seq<u32> {
    Seq::new(4, |i: int| layer_plane(c, i) as u32)
}

/// The dimensions of a screen.
pub open spec fn layer_vars(c: Vdp2LayerConfig) -> ScreenVars {
    ScreenVars {
        pagepixelwh: 512,
        planepixelwidth: (c.planew * 512) as u32,
        planepixelheight: (c.planeh * 512) as u32,
        screenwidth: (c.mapwh * (c.planew * 512)) as u32,
        xmask: (c.mapwh * (c.planew * 512) - 1) as u32,
        ymask: (c.mapwh * (c.planeh * 512) - 1) as u32,
    }
}

/// What a screen shows at a place of the frame, if anything. Its dots are opaque.
#[verifier::opaque]
pub open spec fn layer_dot(
    l: ScrollLayer,
    x: int,
    y: int,
    vram: Seq<u8>,
    cram: Seq<u8>,
) -> Option<u32> {
    let c = l.config;
    let sx = ((x + l.scroll_x) % (1024 * c.planew)) as u32;
    let sy = ((y + l.scroll_y) % (1024 * c.planeh)) as u32;
    let n = name_at(name_addr(plane_table(c), sx, sy, layer_vars(c), c), c, vram);
    match dot_color((n.charaddr, n.paladdr), sx, sy, n.flipfunction, 8, c, vram, cram) {
        Some(color) => Some(color | 0x7F00_0000),
        None => None,
    }
}

/// A layer's buffer with a frame drawn into it.
pub open spec fn layer_drawn(
    buf: Seq<PixelData>,
    l: ScrollLayer,
    width: int,
    height: int,
    vram: Seq<u8>,
    cram: Seq<u8>,
) -> Seq<PixelData> {
    Seq::new(
        buf.len(),
        |i: int|
            if i < width * height && l.on {
                match layer_dot(l, i % width, i / width, vram, cram) {
                    Some(pixel) => PixelData {
                        pixel,
                        priority: l.priority,
                        linescreen: 0,
                        shadow_type: 0,
                        shadow_enabled: 0,
                    },
                    None => buf[i],
                }
            } else {
                buf[i]
            },
    )
}

/// The plane addresses that registers can ask for fit in 32 bits.
proof fn planes_fit(c: Vdp2LayerConfig, i: int)
    requires
        config_ok(c),
    ensures
        layer_plane_fits(c, i),
        0 <= layer_plane(c, i) <= 0x2000_0000,
{
    broadcast use crate::bytes::shr_u32_bound;

    let tmp = c.mpofn | crate::vdp2::map_byte(c, i);
    let number = plane_number(tmp, c.patterndatasize, c.patternwh, c.vram_8mbit);
    let deca = (c.planeh + c.planew - 2) as u32;
    assert(number >> deca <= number);
    let k = (number >> deca) as int;
    let pages = c.planew * c.planeh;
    assert(pages == 1 || pages == 2 || pages == 4) by (nonlinear_arith)
        requires
            c.planew == 1 || c.planew == 2,
            c.planeh == 1 || c.planeh == 2,
            pages == c.planew * c.planeh,
    ;
    let page = crate::vdp2::page_bytes(c.patterndatasize, c.patternwh);
    assert(c.planew * c.planeh * page == pages * page);
    assert(0 <= pages * page <= 4 * page) by (nonlinear_arith)
        requires
            0 <= pages <= 4,
            page >= 0,
    ;
    assert(0 <= k * (pages * page) <= number * (4 * page)) by (nonlinear_arith)
        requires
            0 <= k <= number,
            0 <= pages * page <= 4 * page,
    ;
    assert(number * (4 * page) <= 0x2000_0000) by (nonlinear_arith)
        requires
            (number <= 0xFFFF && 0 <= page <= 0x800) || (number <= 0xFF && 0 <= page <= 0x4000),
    ;
    assert(layer_plane(c, i) == k * (pages * page));
}

/// Dots of a screen lie in one of its four planes, and their pattern names close by.
proof fn names_are_near(c: Vdp2LayerConfig, x: u32, y: u32)
    requires
        config_ok(c),
        x < 1024 * c.planew,
        y < 1024 * c.planeh,
    ensures
        0 <= plane_of(x, y, layer_vars(c), c) < 4,
        0 <= pattern_of(x, y, layer_vars(c), c) < 0x1_0000,
        cell_check(x, y, c) != u32::MAX,
{
    let wm = (c.planew * 512 - 1) as u32;
    let hm = (c.planeh * 512 - 1) as u32;
    let mx = x & wm;
    let my = y & hm;
    assert(x < 1024 ==> x >> 9u32 <= 1) by (bit_vector);
    assert(x < 2048 ==> x >> 10u32 <= 1) by (bit_vector);
    assert(y < 1024 ==> y >> 9u32 <= 1) by (bit_vector);
    assert(y < 2048 ==> y >> 10u32 <= 1) by (bit_vector);
    assert(x & wm <= wm && y & hm <= hm) by (bit_vector);
    assert(my <= 1023 ==> ((my >> 9u32) << 12u32) << 1u32 <= 0x2000 && (my >> 9u32) << 12u32
        <= 0x1000 && ((my >> 9u32) << 10u32) << 1u32 <= 0x800 && (my >> 9u32) << 10u32 <= 0x400
        && ((my >> 9u32) << 12u32) << 0u32 <= 0x1000 && ((my >> 9u32) << 10u32) << 0u32 <= 0x400)
        by (bit_vector);
    assert(mx <= 1023 ==> (mx >> 9u32) << 12u32 <= 0x1000 && (mx >> 9u32) << 10u32 <= 0x400) by (
    bit_vector);
    assert(((my & 511) >> 3u16) << 6u32 <= 0xFC0 && ((my & 511) >> 4u16) << 5u32 <= 0x3E0) by (
    bit_vector);
    assert((mx & 511) >> 3u16 <= 63 && (mx & 511) >> 4u16 <= 31) by (bit_vector);
    assert(x < 2048 && y < 2048 ==> ((y >> 3u16) << 16u32) | (x >> 3u16) < 0x8000_0000) by (
    bit_vector);
    assert(x < 2048 && y < 2048 ==> ((y >> 4u16) << 16u32) | (x >> 4u16) < 0x8000_0000) by (
    bit_vector);
}

/// The characters that pattern names can ask for lie in reach.
proof fn characters_are_near(a: int, c: Vdp2LayerConfig, vram: Seq<u8>)
    ensures
        name_at(a, c, vram).charaddr <= 0xF_FFE0,
        name_at(a, c, vram).paladdr <= 0x7F0,
{
}

/// What a screen shows at a place of the frame.
fn fetch_layer_dot(
    l: &ScrollLayer,
    planes: &[u32; 4],
    vars: &ScreenVars,
    x: usize,
    y: usize,
    ram: &WorkRam,
) -> (r: Option<u32>)
    requires
        ram.wf(),
        config_ok(l.config),
        planes@ == plane_table(l.config),
        *vars == layer_vars(l.config),
        x < 704,
        y < 512,
    ensures
        r == layer_dot(*l, x as int, y as int, ram@.vdp2_vram, ram@.vdp2_cram),
{
    reveal(layer_dot);
    let c: &Vdp2LayerConfig = &l.config;
    let wide: u32 = if c.planew == 1 {
        1024
    } else {
        2048
    };
    let high: u32 = if c.planeh == 1 {
        1024
    } else {
        2048
    };
    let sx: u32 = (x as u32 + l.scroll_x as u32) % wide;
    let sy: u32 = (y as u32 + l.scroll_y as u32) % high;
    let mut state: Vdp2State = Vdp2State::new();
    state.planetbl = [planes[0], planes[1], planes[2], planes[3]];
    proof {
        assert(state.planetbl@ =~= plane_table(*c));
        names_are_near(*c, sx, sy);
        planes_fit(*c, plane_of(sx, sy, *vars, *c));
        let a = name_addr(state.planetbl@, sx, sy, *vars, *c);
        characters_are_near(a, *c, ram@.vdp2_vram);
    }
    map_calc_xy(&mut state, sx, sy, vars, c, ram.vdp2_vram.as_slice());
    let cell = state.pipe[0];
    proof {
        dots_fit((cell.charaddr, cell.paladdr), sx, sy, cell.flipfunction, *c, ram@);
    }
    match fetch_pixel(
        (cell.charaddr, cell.paladdr),
        sx,
        sy,
        cell.flipfunction,
        8,
        c,
        (ram.vdp2_vram.as_slice(), ram.vdp2_cram.as_slice()),
    ) {
        Some(color) => Some(color | 0x7F00_0000),
        None => None,
    }
}

/// The dots of such characters can be fetched.
proof fn dots_fit(addr: (u32, u32), x: u32, y: u32, flip: u16, c: Vdp2LayerConfig, m: Memory)
    requires
        m.wf(),
        config_ok(c),
        addr.0 <= 0xF_FFE0,
        addr.1 <= 0x7F0,
    ensures
        dot_fits(addr, dot_in_char(x, y, flip, c), 8, c, m.vdp2_vram, m.vdp2_cram),
{
    let d = dot_in_char(x, y, flip, c);
    assert(0 <= d.0 <= 7 && 0 <= d.1 <= 31);
    match crate::vdp2::dot_data(addr.0, d, 8, c, m.vdp2_vram) {
        Some(dot) => {
            let p = addr.1;
            assert(p <= 0x7F0 && dot <= 0xFF ==> p | dot <= 0x7FF) by (bit_vector);
        },
        None => {},
    }
}

/// Draw a screen into its buffer.
#[verifier::rlimit(30)]
fn draw_layer(
    buf: &mut Vec<PixelData>,
    l: &ScrollLayer,
    width: usize,
    height: usize,
    ram: &WorkRam,
)
    requires
        ram.wf(),
        config_ok(l.config),
        0 < width <= 704,
        0 < height <= 512,
        width * height <= old(buf)@.len(),
    ensures
        final(buf)@ == layer_drawn(
            old(buf)@,
            *l,
            width as int,
            height as int,
            ram@.vdp2_vram,
            ram@.vdp2_cram,
        ),
{
    let ghost before = buf@;
    let ghost vram = ram@.vdp2_vram;
    let ghost cram = ram@.vdp2_cram;
    if !l.on {
        assert(buf@ =~= layer_drawn(before, *l, width as int, height as int, vram, cram));
        return;
    }
    let vars: ScreenVars = setup_screen_vars(
        l.config.patternwh,
        l.config.planew,
        l.config.planeh,
        l.config.mapwh,
    );
    let mut planes: [u32; 4] = [0, 0, 0, 0];
    proof {
        planes_fit(l.config, 0);
        planes_fit(l.config, 1);
        planes_fit(l.config, 2);
        planes_fit(l.config, 3);
    }
    generate_plane_addr_table(&mut planes, &l.config);
    assert(planes@ =~= plane_table(l.config));
    let ghost target = layer_drawn(before, *l, width as int, height as int, vram, cram);
    let mut y: usize = 0;
    while y < height
        invariant
            y <= height,
            0 < width <= 704,
            height <= 512,
            l.on,
            ram.wf(),
            config_ok(l.config),
            vram == ram@.vdp2_vram,
            cram == ram@.vdp2_cram,
            planes@ == plane_table(l.config),
            vars == layer_vars(l.config),
            width * height <= before.len(),
            buf@.len() == before.len(),
            target == layer_drawn(before, *l, width as int, height as int, vram, cram),
            forall|i: int| 0 <= i < y * width ==> buf@[i] == target[i],
            forall|i: int| y * width <= i < before.len() ==> buf@[i] == before[i],
        decreases height - y,
    {
        assert(y * width + width <= width * height) by (nonlinear_arith)
            requires
                y + 1 <= height,
                width >= 0,
        ;
        assert(y * width <= 512 * 704) by (nonlinear_arith)
            requires
                0 <= y <= 512,
                0 <= width <= 704,
        ;
        let start: usize = y * width;
        let mut x: usize = 0;
        while x < width
            invariant
                x <= width,
                y < height,
                0 < width <= 704,
                height <= 512,
                l.on,
                ram.wf(),
                config_ok(l.config),
                vram == ram@.vdp2_vram,
                cram == ram@.vdp2_cram,
                planes@ == plane_table(l.config),
                vars == layer_vars(l.config),
                start == y * width,
                start <= 512 * 704,
                start + width <= width * height,
                width * height <= before.len(),
                buf@.len() == before.len(),
                target == layer_drawn(before, *l, width as int, height as int, vram, cram),
                forall|i: int| 0 <= i < start + x ==> buf@[i] == target[i],
                forall|i: int| start + x <= i < before.len() ==> buf@[i] == before[i],
            decreases width - x,
        {
            let dot: Option<u32> = fetch_layer_dot(l, &planes, &vars, x, y, ram);
            proof {
                vstd::arithmetic::div_mod::lemma_fundamental_div_mod_converse(
                    start + x,
                    width as int,
                    y as int,
                    x as int,
                );
            }
            match dot {
                Some(pixel) => {
                    buf[start + x] = PixelData {
                        pixel,
                        priority: l.priority,
                        linescreen: 0,
                        shadow_type: 0,
                        shadow_enabled: 0,
                    };
                },
                None => {},
            }
            x += 1;
        }
        y += 1;
        assert(y * width == (y - 1) * width + width) by (nonlinear_arith)
            requires
                y >= 1,
        ;
    }
    assert(y * width == width * height) by (nonlinear_arith)
        requires
            y == height,
    ;
    assert(buf@ =~= target);
}

/// The registers latched at the first line.
pub open spec fn line0_words(m: Memory) -> Seq<u16> {
    Seq::new(256, |i: int| line0_word(m, i * 2))
}

/// The scrolling screen that a buffer holds: of equal priorities a later buffer is in
/// front, and the first screen is in front of the others.
pub open spec fn layer_of_buffer(l: int) -> int {
    3 - l
}

/// A buffer after a frame was drawn: the four scrolling screens anew, the other two
/// empty.
pub open spec fn buffer_drawn(buf: Seq<PixelData>, l: int, m: Memory) -> Seq<PixelData> {
    let w = screen_width(line0_word(m, 0));
    let h = screen_height(line0_word(m, 0));
    let cleared = hidden(buf, w * h);
    if l < 4 {
        layer_drawn(
            cleared,
            scroll_layer(line0_words(m), layer_of_buffer(l)),
            w,
            h,
            m.vdp2_vram,
            m.vdp2_cram,
        )
    } else {
        cleared
    }
}

/// The dots of all layers at one place.
pub open spec fn stacked(buffers: Seq<Vec<PixelData>>, i: int) -> Seq<PixelData> {
    Seq::new(6, |l: int| buffers[l]@[i])
}

/// The layers mixed over a picture.
pub open spec fn mixed_over(
    back: FrameView,
    buffers: Seq<Vec<PixelData>>,
    ccctl: u16,
    sfccmd: u16,
) -> FrameView {
    FrameView {
        pixels: Seq::new(
            back.pixels.len(),
            |i: int| composed(stacked(buffers, i), back.pixels[i], ccctl, sfccmd).0,
        ),
        ..back
    }
}

fn mix_layers(layers: &LayerBuffers, back: &Framebuffer, ccctl: u16, sfccmd: u16) -> (r:
    Framebuffer)
    requires
        forall|l: int|
            0 <= l < 6 ==> back@.pixels.len() <= (#[trigger] layers.buffers[l])@.len(),
    ensures
        r@ == mixed_over(back@, layers.buffers@, ccctl, sfccmd),
{
    let stack: [&[PixelData]; 6] = [
        layers.buffers[0].as_slice(),
        layers.buffers[1].as_slice(),
        layers.buffers[2].as_slice(),
        layers.buffers[3].as_slice(),
        layers.buffers[4].as_slice(),
        layers.buffers[5].as_slice(),
    ];
    assert(back@.pixels.len() <= layers.buffers[0]@.len());
    assert(back@.pixels.len() <= layers.buffers[1]@.len());
    assert(back@.pixels.len() <= layers.buffers[2]@.len());
    assert(back@.pixels.len() <= layers.buffers[3]@.len());
    assert(back@.pixels.len() <= layers.buffers[4]@.len());
    assert(back@.pixels.len() <= layers.buffers[5]@.len());
    let mut pixels: Vec<u32> = Vec::new();
    let mut i: usize = 0;
    while i < back.pixels.len()
        invariant
            i <= back@.pixels.len(),
            pixels@.len() == i,
            stack[0]@ == layers.buffers[0]@,
            stack[1]@ == layers.buffers[1]@,
            stack[2]@ == layers.buffers[2]@,
            stack[3]@ == layers.buffers[3]@,
            stack[4]@ == layers.buffers[4]@,
            stack[5]@ == layers.buffers[5]@,
            back@.pixels.len() <= stack[0]@.len(),
            back@.pixels.len() <= stack[1]@.len(),
            back@.pixels.len() <= stack[2]@.len(),
            back@.pixels.len() <= stack[3]@.len(),
            back@.pixels.len() <= stack[4]@.len(),
            back@.pixels.len() <= stack[5]@.len(),
            forall|k: int|
                0 <= k < i ==> #[trigger] pixels@[k] == mixed_over(
                    back@,
                    layers.buffers@,
                    ccctl,
                    sfccmd,
                ).pixels[k],
        decreases back@.pixels.len() - i,
    {
        let (pixel, _): (u32, u8) = dig_pixel(&stack, i, back.pixels[i], ccctl, sfccmd);
        assert(column(&stack, i as int) =~= stacked(layers.buffers@, i as int));
        pixels.push(pixel);
        i += 1;
    }
    let r = Framebuffer { width: back.width, height: back.height, pixels };
    assert(r@.pixels =~= mixed_over(back@, layers.buffers@, ccctl, sfccmd).pixels);
    r
}

/// Draw a frame: the scrolling screens into their buffers, and all layers mixed over the
/// back screen.
#[verifier::rlimit(40)]
pub fn render_frame(ram: &WorkRam, layers: &mut LayerBuffers) -> (r: Framebuffer)
    requires
        ram.wf(),
        forall|l: int|
            0 <= l < 6 ==> 704 * 512 <= (#[trigger] old(layers).buffers[l])@.len(),
    ensures
        forall|l: int|
            0 <= l < 6 ==> (#[trigger] final(layers).buffers[l])@ == buffer_drawn(
                old(layers).buffers[l]@,
                l,
                ram@,
            ),
        r@ == mixed_over(
            screen(ram@),
            final(layers).buffers@,
            line0_word(ram@, 0xEC),
            line0_word(ram@, 0xEE),
        ),
{
    let line0: &[u8; 512] = &ram.vdp2_lines[0];
    let regs: Vdp2Registers = Vdp2Registers::from_bytes(line0);
    let ghost m = ram@;
    assert(regs.regs@ =~= line0_words(m)) by {
        assert forall|i: int| 0 <= i < 256 implies #[trigger] regs.regs@[i] == line0_word(
            m,
            i * 2,
        ) by {
            assert(regs.regs@[i] == crate::bytes::be16(line0[i * 2], line0[i * 2 + 1]));
        }
    }
    let (width, height): (usize, usize) = resolution_from_tvmd(regs.tvmd());
    assert(width * height <= 704 * 512) by (nonlinear_arith)
        requires
            0 <= width <= 704,
            0 <= height <= 512,
    ;
    layers.clear_frame(width, height);
    let l0: ScrollLayer = make_layer(&regs, 0);
    let l1: ScrollLayer = make_layer(&regs, 1);
    let l2: ScrollLayer = make_layer(&regs, 2);
    let l3: ScrollLayer = make_layer(&regs, 3);
    assert(layers.buffers[0]@.len() == old(layers).buffers[0]@.len());
    assert(layers.buffers[1]@.len() == old(layers).buffers[1]@.len());
    assert(layers.buffers[2]@.len() == old(layers).buffers[2]@.len());
    assert(layers.buffers[3]@.len() == old(layers).buffers[3]@.len());
    assert(layers.buffers[4]@.len() == old(layers).buffers[4]@.len());
    assert(layers.buffers[5]@.len() == old(layers).buffers[5]@.len());
    draw_layer(&mut layers.buffers[3], &l0, width, height, ram);
    draw_layer(&mut layers.buffers[2], &l1, width, height, ram);
    draw_layer(&mut layers.buffers[1], &l2, width, height, ram);
    draw_layer(&mut layers.buffers[0], &l3, width, height, ram);
    let back: Framebuffer = render_back_screen(ram);
    let ccctl: u16 = regs.regs[0x76];
    assert(back@.pixels.len() == width * height);
    mix_layers(layers, &back, ccctl, regs.sfccmd())
}

} // verus!
