//! What single commands of a list do, where the list leads, and what is erased and displayed.

use crate::shared_buffers::Memory;
use crate::vdp::color::screen_color;
use crate::vdp::frame::{
    back_addr, back_color, screen, screen_height, screen_pixel, screen_width,
};
use crate::vdp::list::{
    command_effect, corner, edge_line, erased, free_quad, jumped, list_done, list_started,
    normal_quad, scaled_quad, shape_drawn, swapped_memory, swapped_state, Drawing, LIST_LIMIT,
};
use crate::vdp::quad::quad_drawn;
use crate::vdp::raster::{line_drawn, Point};
use crate::vdp::{command_at, CmdTable, Vdp1State};
use vstd::prelude::*;

verus! {

/// Coordinates are taken from the local origin.
pub proof fn corners_are_local(s: Vdp1State, x: i16, y: i16)
    requires
        -0x8000 <= x + s.local_x < 0x8000,
        -0x8000 <= y + s.local_y < 0x8000,
    ensures
        corner(s, x, y).x == x + s.local_x,
        corner(s, x, y).y == y + s.local_y,
{
}

/// A command table is fifteen words, most significant byte first: what to do, the link, the draw
/// mode, the colour, the pattern and its size, four points with signed coordinates, and
/// where the shades of the corners stand.
#[verifier::spinoff_prover]
pub proof fn commands_are_read_in_order(vram: Seq<u8>, a: int)
    requires
        0 <= a,
        a + 32 <= vram.len(),
    ensures
        ({
            let c = command_at(vram, a);
            let word = |i: int| vram[a + 2 * i] * 0x100 + vram[a + 2 * i + 1];
            let signed = |i: int|
                if word(i) < 0x8000 {
                    word(i)
                } else {
                    word(i) - 0x1_0000
                };
            &&& c.cmdctrl == word(0)
            &&& c.cmdlink == word(1)
            &&& c.cmdpmod == word(2)
            &&& c.cmdcolr == word(3)
            &&& c.cmdsrca == word(4)
            &&& c.cmdsize == word(5)
            &&& c.cmdxa == signed(6)
            &&& c.cmdya == signed(7)
            &&& c.cmdxb == signed(8)
            &&& c.cmdyb == signed(9)
            &&& c.cmdxc == signed(10)
            &&& c.cmdyc == signed(11)
            &&& c.cmdxd == signed(12)
            &&& c.cmdyd == signed(13)
            &&& c.cmdgrda == word(14)
        }),
{
    reveal(command_at);
}

/// A normal sprite is as large as its pattern: its upper left corner stands at point A, its
/// width counts in eight dots.
pub proof fn normal_sprites_have_the_size_of_their_pattern(s: Vdp1State, cmd: CmdTable)
    requires
        -0x8000 <= cmd.cmdxa + s.local_x < 0x8000,
        -0x8000 <= cmd.cmdya + s.local_y < 0x8000,
    ensures
        ({
            let q = normal_quad(s, cmd);
            let w = cmd.cmdsize as int / 0x100 % 64 * 8;
            let h = cmd.cmdsize as int % 0x100;
            &&& q.tl.x == cmd.cmdxa + s.local_x && q.tl.y == cmd.cmdya + s.local_y
            &&& q.tr.x == q.tl.x + w - 1 && q.tr.y == q.tl.y
            &&& q.bl.x == q.tl.x && q.bl.y == q.tl.y + h - 1
            &&& q.br.x == q.tr.x && q.br.y == q.bl.y
        }),
{
}

/// A scaled sprite without a zoom point reaches from point A to point C.
pub proof fn scaled_sprites_reach_from_corner_to_corner(s: Vdp1State, cmd: CmdTable)
    requires
        -0x8000 <= cmd.cmdxa + s.local_x < 0x8000,
        -0x8000 <= cmd.cmdya + s.local_y < 0x8000,
        cmd.cmdctrl as int / 0x100 % 16 == 0,
    ensures
        ({
            let q = scaled_quad(s, cmd);
            &&& q.tl.x == cmd.cmdxa + s.local_x && q.tl.y == cmd.cmdya + s.local_y
            &&& q.br.x == cmd.cmdxc + s.local_x && q.br.y == cmd.cmdyc + s.local_y
            &&& q.tr.x == q.br.x && q.tr.y == q.tl.y
            &&& q.bl.x == q.tl.x && q.bl.y == q.br.y
        }),
{
}

/// With a zoom point it has the size of point B, and point A lies on its left, middle or right
/// for the lower half of the zoom point, and at its top, middle or bottom for the upper half.
#[verifier::spinoff_prover]
pub proof fn scaled_sprites_are_held_at_their_zoom_point(
    s: Vdp1State,
    cmd: CmdTable,
    across: int,
    down: int,
)
    requires
        -0x8000 <= cmd.cmdxa + s.local_x < 0x8000,
        -0x8000 <= cmd.cmdya + s.local_y < 0x8000,
        1 <= across <= 3,
        1 <= down <= 3,
        cmd.cmdctrl as int / 0x100 % 16 == down * 4 + across,
        cmd.cmdxb >= 0,
        cmd.cmdyb >= 0,
    ensures
        ({
            let q = scaled_quad(s, cmd);
            let ax = cmd.cmdxa + s.local_x;
            let ay = cmd.cmdya + s.local_y;
            &&& q.tr.x - q.tl.x == cmd.cmdxb && q.br.x == q.tr.x && q.bl.x == q.tl.x
            &&& q.bl.y - q.tl.y == cmd.cmdyb && q.br.y == q.bl.y && q.tr.y == q.tl.y
            &&& across == 1 ==> q.tl.x == ax
            &&& across == 2 ==> 0 <= q.tr.x + q.tl.x - 2 * ax <= 1
            &&& across == 3 ==> q.tr.x == ax
            &&& down == 1 ==> q.tl.y == ay
            &&& down == 2 ==> 0 <= q.bl.y + q.tl.y - 2 * ay <= 1
            &&& down == 3 ==> q.bl.y == ay
        }),
{
}

/// The points A to D of a distorted sprite or a polygon go round it from the upper left.
pub proof fn points_go_round(s: Vdp1State, cmd: CmdTable)
    requires
        s.local_x == 0,
        s.local_y == 0,
    ensures
        ({
            let q = free_quad(s, cmd);
            &&& q.tl.x == cmd.cmdxa && q.tl.y == cmd.cmdya
            &&& q.tr.x == cmd.cmdxb && q.tr.y == cmd.cmdyb
            &&& q.br.x == cmd.cmdxc && q.br.y == cmd.cmdyc
            &&& q.bl.x == cmd.cmdxd && q.bl.y == cmd.cmdyd
        }),
{
}

/// The low bits of the control word pick the shape: 0 a normal sprite, 1 a scaled one, 2 to 4 a
/// quadrangle, 6 a line from A to B, 5 the four sides of a quadrangle.
pub proof fn control_word_picks_the_shape(
    fb: Seq<u8>,
    s: Vdp1State,
    cmd: CmdTable,
    vram: Seq<u8>,
)
    ensures
        ({
            let shape = cmd.cmdctrl as int % 8;
            let r = shape_drawn(fb, s, cmd, vram);
            let a = corner(s, cmd.cmdxa, cmd.cmdya);
            let b = corner(s, cmd.cmdxb, cmd.cmdyb);
            let c = corner(s, cmd.cmdxc, cmd.cmdyc);
            let d = corner(s, cmd.cmdxd, cmd.cmdyd);
            &&& shape == 0 ==> r == quad_drawn(fb, s, cmd, vram, normal_quad(s, cmd))
            &&& shape == 1 ==> r == quad_drawn(fb, s, cmd, vram, scaled_quad(s, cmd))
            &&& 2 <= shape <= 4 ==> r == quad_drawn(fb, s, cmd, vram, free_quad(s, cmd))
            &&& shape == 6 ==> r == line_drawn(fb, s, cmd, edge_line(cmd, vram, a, 0, b, 1))
            &&& shape == 5 ==> r == line_drawn(
                line_drawn(
                    line_drawn(
                        line_drawn(fb, s, cmd, edge_line(cmd, vram, a, 0, b, 1)),
                        s,
                        cmd,
                        edge_line(cmd, vram, b, 1, c, 2),
                    ),
                    s,
                    cmd,
                    edge_line(cmd, vram, d, 3, c, 2),
                ),
                s,
                cmd,
                edge_line(cmd, vram, a, 0, d, 3),
            )
        }),
{
    reveal(shape_drawn);
}

/// A side leads from its first point to its second, and so does its shade.
pub proof fn sides_lead_from_point_to_point(
    cmd: CmdTable,
    vram: Seq<u8>,
    a: Point,
    i: int,
    b: Point,
    j: int,
)
    requires
        vram.len() == 0x8_0000,
        0 <= i < 4,
        0 <= j < 4,
    ensures
        ({
            let l = edge_line(cmd, vram, a, i, b, j);
            let word = |n: int|
                {
                    let at = (cmd.cmdgrda * 8 + 2 * n) % 0x8_0000;
                    vram[at] * 0x100 + vram[(at + 1) % 0x8_0000]
                };
            &&& l.x1 == a.x && l.y1 == a.y && l.x2 == b.x && l.y2 == b.y
            &&& l.shade1 == word(i) && l.shade2 == word(j)
        }),
{
    assert((cmd.cmdgrda * 8 + i * 2) % 0x8_0000 % 0x8_0000 == (cmd.cmdgrda * 8 + 2 * i)
        % 0x8_0000);
    assert((cmd.cmdgrda * 8 + j * 2) % 0x8_0000 % 0x8_0000 == (cmd.cmdgrda * 8 + 2 * j)
        % 0x8_0000);
}

/// Commands 8 to 11 draw nothing and set one thing each: the user clipping area from A to C (8
/// and 11), the corner C of the system clipping area (9), or the local origin A (10). A command
/// that is skipped does nothing.
pub proof fn setting_commands_set_one_thing(d: Drawing, cmd: CmdTable, vram: Seq<u8>)
    requires
        cmd.cmdctrl as int % 16 >= 8 && cmd.cmdctrl as int % 16 < 12,
    ensures
        ({
            let r = command_effect(d, cmd, vram);
            let kind = cmd.cmdctrl as int % 16;
            let s = d.state;
            let t = r.state;
            &&& r.fb == d.fb
            &&& cmd.cmdctrl as int / 0x4000 % 2 == 1 ==> r == d
            &&& cmd.cmdctrl as int / 0x4000 % 2 == 0 ==> {
                &&& kind == 10 ==> t == (Vdp1State {
                    local_x: cmd.cmdxa,
                    local_y: cmd.cmdya,
                    ..s
                })
                &&& kind == 9 && cmd.cmdxc >= 0 && cmd.cmdyc >= 0 ==> t.systemclip_x2 == cmd.cmdxc
                    && t.systemclip_y2 == cmd.cmdyc && t.userclip_x1 == s.userclip_x1
                    && t.userclip_x2 == s.userclip_x2 && t.userclip_y1 == s.userclip_y1
                    && t.userclip_y2 == s.userclip_y2 && t.local_x == s.local_x && t.local_y
                    == s.local_y
                &&& (kind == 8 || kind == 11) && cmd.cmdxa >= 0 && cmd.cmdya >= 0 && cmd.cmdxc >= 0
                    && cmd.cmdyc >= 0 ==> t.userclip_x1 == cmd.cmdxa && t.userclip_y1 == cmd.cmdya
                    && t.userclip_x2 == cmd.cmdxc && t.userclip_y2 == cmd.cmdyc && t.systemclip_x2
                    == s.systemclip_x2 && t.systemclip_y2 == s.systemclip_y2 && t.local_x
                    == s.local_x && t.local_y == s.local_y
            }
        }),
{
    reveal(command_effect);
}

/// Drawing commands change the picture alone, and only while plotting is on.
pub proof fn drawing_commands_change_the_picture(d: Drawing, cmd: CmdTable, vram: Seq<u8>)
    requires
        cmd.cmdctrl as int % 16 < 8,
        cmd.cmdctrl as int / 0x4000 % 2 == 0,
    ensures
        command_effect(d, cmd, vram).state == d.state,
        d.state.ptmr == 0 ==> command_effect(d, cmd, vram).fb == d.fb,
        d.state.ptmr != 0 ==> command_effect(d, cmd, vram).fb == shape_drawn(
            d.fb,
            d.state,
            cmd,
            vram,
        ),
{
    reveal(command_effect);
}

/// After a command the list goes on with the next one, 32 bytes on (0), or at eight times the
/// link (1 and 2). A call (2) notes where to go on; a return (3) goes there. While a call is
/// under way another one does not change where it returns to, and without a call a return
/// goes on with the next command.
pub proof fn jumps_lead_through_the_list(s: Vdp1State, cmd: CmdTable)
    requires
        s.addr <= 0x7_FFFF,
    ensures
        ({
            let mode = cmd.cmdctrl as int / 0x1000 % 4;
            let t = jumped(s, cmd);
            &&& mode == 0 ==> t.addr == s.addr + 32 && t.return_addr == s.return_addr
            &&& mode == 1 ==> t.addr == cmd.cmdlink * 8 && t.return_addr == s.return_addr
            &&& mode == 2 ==> t.addr == cmd.cmdlink * 8
            &&& mode == 2 && s.return_addr is None ==> t.return_addr == Some((s.addr + 32) as u32)
            &&& mode == 2 && s.return_addr is Some ==> t.return_addr == s.return_addr
            &&& mode == 3 && s.return_addr is Some ==> t.addr == s.return_addr.unwrap()
                && t.return_addr is None
            &&& mode == 3 && s.return_addr is None ==> t.addr == s.addr + 32 && t.return_addr is None
        }),
{
    reveal(jumped);
}

/// A call and the return that follows lead to the command after the call.
pub proof fn calls_return(s: Vdp1State, call: CmdTable, t: Vdp1State, ret: CmdTable)
    requires
        s.addr <= 0x7_FFFF,
        s.return_addr is None,
        call.cmdctrl as int / 0x1000 % 4 == 2,
        ret.cmdctrl as int / 0x1000 % 4 == 3,
        t.return_addr == jumped(s, call).return_addr,
    ensures
        jumped(t, ret).addr == s.addr + 32,
        jumped(t, ret).return_addr is None,
{
    reveal(jumped);
}

/// The list ends at a command with the top bit set, and is then counted as drawn unless that is
/// its first; bit 1 of the end register says so.
pub proof fn lists_end_at_the_end_bit(d: Drawing, vram: Seq<u8>, done: int)
    requires
        0 <= done <= LIST_LIMIT,
        d.state.addr + 32 <= vram.len(),
        d.state.addr <= 0x7_FFFF,
        d.state.edsr & 0x02 == 0,
        command_at(vram, d.state.addr as int).cmdctrl >= 0x8000,
    ensures
        list_done(d, vram, done).0.fb == d.fb,
        list_done(d, vram, done).0.state.status is IDLE,
        list_done(d, vram, done).0.state.copr == d.state.addr as int / 8,
        list_done(d, vram, done).1 <==> done > 0,
        done > 0 ==> list_done(d, vram, done).0.state.edsr == d.state.edsr | 2,
        done == 0 ==> list_done(d, vram, done).0.state.edsr == d.state.edsr,
{
}

/// A code above 11 is no command and stops the list without its being drawn.
pub proof fn lists_stop_at_a_bad_command(d: Drawing, vram: Seq<u8>, done: int)
    requires
        0 <= done <= LIST_LIMIT,
        d.state.addr + 32 <= vram.len(),
        d.state.addr <= 0x7_FFFF,
        d.state.edsr & 0x02 == 0,
        command_at(vram, d.state.addr as int).cmdctrl < 0x8000,
        command_at(vram, d.state.addr as int).cmdctrl as int % 16 >= 12,
    ensures
        list_done(d, vram, done).0.fb == d.fb,
        !list_done(d, vram, done).1,
        list_done(d, vram, done).0.state.status is IDLE,
        list_done(d, vram, done).0.state.lopr == d.state.addr as int / 8,
        list_done(d, vram, done).0.state.edsr == d.state.edsr | 2,
{
}

/// A list starts at the beginning of memory when nothing is being drawn, and shifts the end
/// register when drawing is started by hand.
pub proof fn lists_start_at_the_beginning(s: Vdp1State)
    ensures
        s.status is IDLE ==> list_started(s).addr == 0 && list_started(s).copr == 0 && list_started(
            s,
        ).status is RUNNING,
        !(s.status is IDLE) ==> list_started(s).addr == s.addr && list_started(s).copr == s.copr,
        s.ptmr == 1 ==> list_started(s).edsr == s.edsr as int / 2,
        s.ptmr != 1 ==> list_started(s).edsr == s.edsr,
        !list_started(s).vblank_erase,
{
}

/// Erasing fills the dots of a rectangle with the erase colour and leaves all others. With words
/// for dots, the rectangle reaches from the first corner (rows in the low nine bits, columns in
/// eights above) to the second, both included, as far as the picture goes.
#[verifier::spinoff_prover]
pub proof fn erasing_fills_a_rectangle(fb: Seq<u8>, s: Vdp1State, x: int, y: int)
    requires
        s.tvmr as int % 4 == 0,
        0 <= x < 512,
        0 <= y < 256,
        fb.len() >= 512 * 256 * 2,
    ensures
        ({
            let at = (y * 512 + x) * 2;
            let inside = s.ewlr as int / 512 % 64 * 8 <= x < s.ewlr as int / 512 % 64 * 8
                + s.ewrr as int / 512 * 8 + 8 && s.ewlr as int % 512 <= y <= s.ewlr as int % 512
                + s.ewrr as int % 512;
            let after = erased(fb, s);
            &&& inside ==> after[at] * 0x100 + after[at + 1] == s.ewdr
            &&& !inside ==> after[at] == fb[at] && after[at + 1] == fb[at + 1]
        }),
{
    let at = (y * 512 + x) * 2;
    assert(at / 2 == y * 512 + x && (at + 1) / 2 == y * 512 + x);
    assert((y * 512 + x) % 512 == x && (y * 512 + x) / 512 == y);
    assert(at % 2 == 0 && (at + 1) % 2 == 1);
    crate::bytes::word_bytes_round_trip(s.ewdr);
}

/// Swapping turns to the other bank and erases it, and moves the end bit on.
pub proof fn swapping_turns_to_the_other_bank(s: Vdp1State, m: Memory)
    requires
        m.back == 0 || m.back == 1,
    ensures
        ({
            let t = swapped_memory(s, m);
            &&& t.back == 1 - m.back
            &&& m.back == 0 ==> t.bank0 == m.bank0 && t.bank1 == erased(m.bank1, swapped_state(s))
            &&& m.back == 1 ==> t.bank1 == m.bank1 && t.bank0 == erased(m.bank0, swapped_state(s))
            &&& swapped_state(s).edsr == s.edsr as int / 2
            &&& !swapped_state(s).swap_frame_buffer
        }),
{
}

/// The screen is 320, 352, 640 or 704 dots wide, by the low two bits of the mode register, and
/// 224, 240 or 256 lines high, by bits 5 and 4; twice as many where bits 7 and 6 are set.
pub proof fn mode_register_sets_the_size(tvmd: u16)
    ensures
        screen_width(tvmd) == (if tvmd as int % 2 == 1 {
            352int
        } else {
            320
        }) * (if tvmd as int / 2 % 2 == 1 {
            2int
        } else {
            1
        }),
        screen_height(tvmd) == (if tvmd as int / 0x10 % 4 == 0 {
            224int
        } else if tvmd as int / 0x10 % 4 == 1 {
            240
        } else {
            256
        }) * (if tvmd as int / 0x40 % 4 == 3 {
            2int
        } else {
            1
        }),
{
    assert(tvmd as int / 2 % 2 == tvmd as int % 4 / 2);
}

/// A dot of the drawn picture is a word of the bank that is not drawn on, 512 words to a line,
/// and shows over the back screen unless it is 0.
#[verifier::spinoff_prover]
pub proof fn drawn_dots_show_over_the_back_screen(m: Memory, x: int, y: int)
    requires
        0 <= x < 512,
        0 <= y,
        m.back == 0 || m.back == 1,
        (m.vdp1_regs[0] * 0x100 + m.vdp1_regs[1]) % 4 != 1,
    ensures
        ({
            let at = (y * 512 + x) * 2;
            let bank = if m.back == 0 {
                m.bank1
            } else {
                m.bank0
            };
            at + 1 < bank.len() ==> {
                let c = bank[at] * 0x100 + bank[at + 1];
                &&& c != 0 ==> screen_pixel(m, x, y) == screen_color(c as u16)
                &&& c == 0 ==> screen_pixel(m, x, y) == back_color(m, y)
            }
        }),
{
}

/// The back screen has one colour, or with the top bit of its address set one per line; its
/// colours are words of video memory, which its address counts. With the large memory one more
/// bit of the address counts.
#[verifier::spinoff_prover]
pub proof fn back_screen_has_a_color_per_line(m: Memory, y: int, upper: int, lower: int, large: bool)
    requires
        m.vdp2_lines.len() > 0,
        m.vdp2_lines[0].len() >= 0x100,
        upper == m.vdp2_lines[0][0xAC] * 0x100 + m.vdp2_lines[0][0xAD],
        lower == m.vdp2_lines[0][0xAE] * 0x100 + m.vdp2_lines[0][0xAF],
        large == (m.vdp2_lines[0][6] >= 0x80),
        0 <= y < 0x200,
    ensures
        ({
            let words = upper % (if large {
                8int
            } else {
                4
            }) * 0x1_0000 + lower + (if upper >= 0x8000 {
                y
            } else {
                0
            });
            back_addr(m, y) == words * 2 % 0x8_0000
        }),
{
}

/// The screen is made of its pixels row by row.
#[verifier::spinoff_prover]
pub proof fn screen_is_made_of_rows(m: Memory, x: int, y: int)
    requires
        0 <= x < screen(m).width,
        0 <= y < screen(m).height,
        0 <= y * screen(m).width + x < screen(m).width * screen(m).height,
    ensures
        screen(m).pixels[y * screen(m).width + x] == screen_pixel(m, x, y),
        screen(m).pixels.len() == screen(m).width * screen(m).height,
{
    vstd::arithmetic::div_mod::lemma_fundamental_div_mod_converse(
        y * screen(m).width + x,
        screen(m).width,
        y,
        x,
    );
}

/// A list that leads out of memory stops, and so does one whose end is noted already: that one also
/// keeps where it stood.
pub proof fn lists_stop_early(d: Drawing, vram: Seq<u8>, done: int)
    requires
        0 <= done <= LIST_LIMIT,
    ensures
        d.state.addr >= 0x8_0000 || d.state.edsr & 0x02 != 0 ==> {
            let r = list_done(d, vram, done);
            &&& !r.1
            &&& r.0.fb == d.fb
            &&& r.0.state.status is IDLE
        },
        d.state.addr < 0x8_0000 && d.state.edsr & 0x02 != 0 ==> {
            let r = list_done(d, vram, done);
            &&& r.0.state.copr == d.state.addr as int / 8
            &&& r.0.state.lopr == d.state.addr as int / 8
        },
{
}

/// With bytes for dots the rectangle is counted in sixteens across and does not include its right
/// corner; the picture is 1024 by 256 or 512 by 512.
#[verifier::spinoff_prover]
pub proof fn erasing_fills_bytes(fb: Seq<u8>, s: Vdp1State, x: int, y: int)
    requires
        s.tvmr as int % 2 == 1,
        0 <= x < if s.tvmr as int % 4 == 1 {
            1024int
        } else {
            512
        },
        0 <= y < if s.tvmr as int % 4 == 1 {
            256int
        } else {
            512
        },
        fb.len() >= 0x4_0000,
    ensures
        ({
            let at = y * (if s.tvmr as int % 4 == 1 {
                1024int
            } else {
                512
            }) + x;
            let left = s.ewlr as int / 512 % 64 * 8;
            let top = s.ewlr as int % 512;
            let inside = left <= x < left + s.ewrr as int / 512 * 16 && top <= y <= top
                + s.ewrr as int % 512;
            let after = erased(fb, s);
            &&& inside ==> after[at] == s.ewdr as int % 0x100
            &&& !inside ==> after[at] == fb[at]
        }),
{
    assert((y * 512 + x) / 1 == y * 512 + x && (y * 1024 + x) / 1 == y * 1024 + x);
    assert(x < 512 ==> (y * 512 + x) % 512 == x && (y * 512 + x) / 512 == y);
    assert(x < 1024 ==> (y * 1024 + x) % 1024 == x && (y * 1024 + x) / 1024 == y);
}

} // verus!
