//! Colours of 15 bits: five each of red, green and blue, red lowest.

use vstd::prelude::*;

verus! {

/// Red, green and blue of a colour.
pub open spec fn red(c: u16) -> int {
    c as int % 32
}

pub open spec fn green(c: u16) -> int {
    c as int / 32 % 32
}

pub open spec fn blue(c: u16) -> int {
    c as int / 1024 % 32
}

/// The colour with the given channels.
pub open spec fn rgb5(r: int, g: int, b: int) -> u16 {
    (r + g * 32 + b * 1024) as u16
}

/// Compose a colour.
pub fn pack(r: u16, g: u16, b: u16) -> (c: u16)
    requires
        r < 32,
        g < 32,
        b < 32,
    ensures
        c == rgb5(r as int, g as int, b as int),
        c < 0x8000,
{
    r + g * 32 + b * 1024
}

/// The channels of a composed colour are those it was composed of.
pub proof fn channels_round_trip(r: int, g: int, b: int)
    requires
        0 <= r < 32,
        0 <= g < 32,
        0 <= b < 32,
    ensures
        red(rgb5(r, g, b)) == r,
        green(rgb5(r, g, b)) == g,
        blue(rgb5(r, g, b)) == b,
        rgb5(r, g, b) < 0x8000,
{
}

/// A colour with its top bit set.
pub open spec fn marked(c: u16) -> u16 {
    if c < 0x8000 {
        (c + 0x8000) as u16
    } else {
        c
    }
}

/// Set the top bit of a colour.
pub fn mark(c: u16) -> (r: u16)
    ensures
        r == marked(c),
        r >= 0x8000,
{
    if c < 0x8000 {
        c + 0x8000
    } else {
        c
    }
}

/// One channel mixed: `level` parts of 256 of the source, the rest of the
/// destination.
pub open spec fn mix1(d: int, s: int, level: int) -> int {
    (s * level + d * (256 - level)) / 256
}

/// Two colours mixed.
pub open spec fn mixed(d: u16, s: u16, level: int) -> u16 {
    rgb5(
        mix1(red(d), red(s), level),
        mix1(green(d), green(s), level),
        mix1(blue(d), blue(s), level),
    )
}

fn mix_channel(d: u16, s: u16, level: u32) -> (r: u16)
    requires
        d < 32,
        s < 32,
        level <= 256,
    ensures
        r == mix1(d as int, s as int, level as int),
        r < 32,
{
    assert(0 <= s * level + d * (256 - level) <= 31 * 256 && 0 <= s * level <= 31 * 256 && 0 <= d
        * (256 - level) <= 31 * 256) by (nonlinear_arith)
        requires
            0 <= d <= 31,
            0 <= s <= 31,
            0 <= level <= 256,
    ;
    ((s as u32 * level + d as u32 * (256 - level)) / 256) as u16
}

/// Mix two colours.
pub fn alphablend16(d: u16, s: u16, level: u32) -> (r: u16)
    requires
        level <= 256,
    ensures
        r == mixed(d, s, level as int),
        r < 0x8000,
{
    pack(
        mix_channel(d % 32, s % 32, level),
        mix_channel(d / 32 % 32, s / 32 % 32, level),
        mix_channel(d / 1024 % 32, s / 1024 % 32, level),
    )
}

/// A number kept within one channel.
pub open spec fn clamp5(v: int) -> int {
    if v < 0 {
        0
    } else if v > 31 {
        31
    } else {
        v
    }
}

/// Keep a number within one channel.
pub fn clamp_channel(v: i64) -> (r: u16)
    ensures
        r == clamp5(v as int),
        r < 32,
{
    if v < 0 {
        0
    } else if v > 31 {
        31
    } else {
        v as u16
    }
}

/// A colour brightened or darkened by a shading value, which is neutral at 16.
pub open spec fn shaded(colour: u16, shade: u16) -> u16 {
    rgb5(
        clamp5(red(colour) + red(shade) - 16),
        clamp5(green(colour) + green(shade) - 16),
        clamp5(blue(colour) + blue(shade) - 16),
    )
}

/// Shade a colour.
pub fn gouraud_adjust(colour: u16, table_value: u16) -> (r: u16)
    ensures
        r == shaded(colour, table_value),
        r < 0x8000,
{
    pack(
        clamp_channel((colour % 32) as i64 + (table_value % 32) as i64 - 16),
        clamp_channel((colour / 32 % 32) as i64 + (table_value / 32 % 32) as i64 - 16),
        clamp_channel((colour / 1024 % 32) as i64 + (table_value / 1024 % 32) as i64 - 16),
    )
}

/// A colour at half brightness, its top bit set.
pub open spec fn halved(c: u16) -> u16 {
    marked(rgb5(red(c) / 2, green(c) / 2, blue(c) / 2))
}

/// Halve the brightness of a colour.
pub fn halve(c: u16) -> (r: u16)
    ensures
        r == halved(c),
{
    mark(pack(c % 32 / 2, c / 32 % 32 / 2, c / 1024 % 32 / 2))
}

/// A shade is applied to a palette entry by moving its index: only the red channel
/// counts, upwards from neutral.
pub open spec fn shade_shifts_index(shade: u16) -> bool {
    green(shade) == 16 && blue(shade) == 16
}

/// A palette entry moved by a shade.
pub open spec fn index_shifted(c: u16, shade: u16) -> u16 {
    let up = if red(shade) > 16 {
        red(shade) - 16
    } else {
        0
    };
    ((c + up) % 0x1_0000) as u16
}

/// Move a palette entry by a shade.
pub fn shift_index(c: u16, shade: u16) -> (r: u16)
    ensures
        r == index_shifted(c, shade),
{
    let level: u16 = shade % 32;
    let up: u32 = if level > 16 {
        (level - 16) as u32
    } else {
        0
    };
    ((c as u32 + up) % 0x1_0000) as u16
}

/// A 15-bit colour on the screen: each channel's high bits repeat in the low ones,
/// so that full scale stays full scale.
pub open spec fn screen_channel(v: int) -> int {
    v * 8 + v / 4
}

pub open spec fn screen_color(c: u16) -> u32 {
    (screen_channel(red(c)) * 0x1_0000 + screen_channel(green(c)) * 0x100 + screen_channel(
        blue(c),
    )) as u32
}

/// A 15-bit colour as 0x00RRGGBB.
pub fn rgb555_to_xrgb8888(color: u16) -> (r: u32)
    ensures
        r == screen_color(color),
        r <= 0x00FF_FFFF,
{
    let r5: u32 = (color % 32) as u32;
    let g5: u32 = (color / 32 % 32) as u32;
    let b5: u32 = (color / 1024 % 32) as u32;
    let r8: u32 = r5 * 8 + r5 / 4;
    let g8: u32 = g5 * 8 + g5 / 4;
    let b8: u32 = b5 * 8 + b5 / 4;
    r8 * 0x1_0000 + g8 * 0x100 + b8
}

/// Full scale maps to full scale, black to black, and brighter to brighter.
pub proof fn screen_channels_span_the_scale(a: int, b: int)
    requires
        0 <= a < b < 32,
    ensures
        screen_channel(0) == 0,
        screen_channel(31) == 255,
        screen_channel(a) < screen_channel(b) <= 255,
{
}

/// The top bit of a colour does not show on the screen.
pub proof fn mark_is_invisible(c: u16)
    ensures
        screen_color(marked(c)) == screen_color(c),
{
    let d = marked(c);
    assert(red(d) == red(c));
    assert(d as int / 32 == c as int / 32 + if c < 0x8000 { 1024int } else { 0 });
    assert(green(d) == green(c));
    assert(d as int / 1024 == c as int / 1024 + if c < 0x8000 { 32int } else { 0 });
    assert(blue(d) == blue(c));
}

/// Mixing a colour with itself changes nothing but the top bit, at any level.
pub proof fn mixing_with_itself(c: u16, level: int)
    requires
        c < 0x8000,
        0 <= level <= 256,
    ensures
        mixed(c, c, level) == c,
{
    mix_same(red(c), level);
    mix_same(green(c), level);
    mix_same(blue(c), level);
}

proof fn mix_same(v: int, level: int)
    requires
        0 <= v < 32,
        0 <= level <= 256,
    ensures
        mix1(v, v, level) == v,
{
    assert(v * level + v * (256 - level) == v * 256) by (nonlinear_arith);
}

/// The neutral shade changes nothing but the top bit.
pub proof fn neutral_shade(c: u16)
    requires
        c < 0x8000,
    ensures
        shaded(c, rgb5(16, 16, 16)) == c,
{
    channels_round_trip(16, 16, 16);
}

} // verus!
