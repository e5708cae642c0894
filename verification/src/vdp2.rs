//! VDP2: fetching the dots of scrolling screens and mixing the layers.

pub mod laws;

use crate::bytes::{be16, be32, from_be16, from_be32};
use crate::vdp2_regs::{cram_color, cram_holds, cram_lookup};
use vstd::prelude::*;

verus! {

/// A pattern name entry, decoded.
#[derive(Clone, Copy, Debug, PartialEq, Eq, Structural)]
pub struct Vdp2CellInfo {
    pub addr: u32,
    pub charaddr: u32,
    pub paladdr: u32,
    pub flipfunction: u16,
    pub specialfunction: u16,
    pub specialcolorfunction: u16,
}

/// One dot of a layer. Priority 0 means that it is not shown.
#[derive(Clone, Copy, Debug, PartialEq, Eq, Structural)]
pub struct PixelData {
    pub pixel: u32,
    pub priority: u8,
    pub linescreen: u8,
    pub shadow_type: u8,
    pub shadow_enabled: u8,
}

pub open spec fn no_pixel() -> PixelData {
    PixelData { pixel: 0, priority: 0, linescreen: 0, shadow_type: 0, shadow_enabled: 0 }
}

impl Default for PixelData {
    fn default() -> (r: Self)
        ensures
            r == no_pixel(),
    {
        PixelData { pixel: 0, priority: 0, linescreen: 0, shadow_type: 0, shadow_enabled: 0 }
    }
}

/// Dots of the largest screen.
pub const LAYER_DOTS: usize = 360_448;

/// The dots of the six layers: four scrolling screens, the rotating one, and the
/// sprites.
pub struct LayerBuffers {
    pub buffers: [Vec<PixelData>; 6],
}

impl Default for LayerBuffers {
    fn default() -> (r: Self)
        ensures
            forall|l: int|
                0 <= l < 6 ==> (#[trigger] r.buffers[l])@ == Seq::new(
                    LAYER_DOTS as nat,
                    |i: int| no_pixel(),
                ),
    {
        Self::new()
    }
}

/// A layer whose first dots are not shown.
pub open spec fn hidden(s: Seq<PixelData>, size: int) -> Seq<PixelData> {
    Seq::new(
        s.len(),
        |i: int|
            if i < size {
                PixelData { priority: 0, ..s[i] }
            } else {
                s[i]
            },
    )
}

fn blank_layer() -> (r: Vec<PixelData>)
    ensures
        r@ == Seq::new(LAYER_DOTS as nat, |i: int| no_pixel()),
{
    let r: Vec<PixelData> = vec![PixelData::default(); LAYER_DOTS];
    assert(r@ =~= Seq::new(LAYER_DOTS as nat, |i: int| no_pixel()));
    r
}

fn hide_layer(v: &mut Vec<PixelData>, size: usize)
    requires
        size <= old(v)@.len(),
    ensures
        final(v)@ == hidden(old(v)@, size as int),
{
    let mut i: usize = 0;
    while i < size
        invariant
            i <= size,
            size <= v@.len(),
            v@.len() == old(v)@.len(),
            forall|k: int|
                0 <= k < i ==> v@[k] == (PixelData { priority: 0, ..old(v)@[k] }),
            forall|k: int| i <= k < v@.len() ==> v@[k] == old(v)@[k],
        decreases size - i,
    {
        let mut p: PixelData = v[i];
        p.priority = 0;
        v[i] = p;
        i += 1;
    }
    assert(v@ =~= hidden(old(v)@, size as int));
}

impl LayerBuffers {
    /// Six layers with nothing on them.
    pub fn new() -> (r: Self)
        ensures
            forall|l: int|
                0 <= l < 6 ==> (#[trigger] r.buffers[l])@ == Seq::new(
                    LAYER_DOTS as nat,
                    |i: int| no_pixel(),
                ),
    {
        Self {
            buffers: [
                blank_layer(),
                blank_layer(),
                blank_layer(),
                blank_layer(),
                blank_layer(),
                blank_layer(),
            ],
        }
    }

    /// Take the dots of a frame off all layers.
    pub fn clear_frame(&mut self, width: usize, height: usize)
        requires
            width * height <= usize::MAX,
            forall|l: int|
                0 <= l < 6 ==> width * height <= (#[trigger] old(self).buffers[l])@.len(),
        ensures
            forall|l: int|
                0 <= l < 6 ==> (#[trigger] final(self).buffers[l])@ == hidden(
                    old(self).buffers[l]@,
                    width * height,
                ),
    {
        let size: usize = width * height;
        assert(size <= old(self).buffers[0]@.len());
        assert(size <= old(self).buffers[1]@.len());
        assert(size <= old(self).buffers[2]@.len());
        assert(size <= old(self).buffers[3]@.len());
        assert(size <= old(self).buffers[4]@.len());
        assert(size <= old(self).buffers[5]@.len());
        hide_layer(&mut self.buffers[0], size);
        hide_layer(&mut self.buffers[1], size);
        hide_layer(&mut self.buffers[2], size);
        hide_layer(&mut self.buffers[3], size);
        hide_layer(&mut self.buffers[4], size);
        hide_layer(&mut self.buffers[5], size);
    }
}

/// Whether a dot has the special function: two neighbouring dot values share a bit
/// of the code that the layer has selected.
pub fn pixel_is_special(layer: usize, dot: u32, sfsel: u16, sfcode: u16) -> (r: bool)
    requires
        layer < 16,
    ensures
        r == ({
            let code: u16 = if (sfsel >> layer) & 1 != 0 {
                sfcode / 0x100
            } else {
                sfcode % 0x100
            };
            code & (1u16 << (dot % 16 / 2)) != 0
        }),
{
    let code: u16 = if (sfsel >> layer) & 1 != 0 {
        sfcode / 0x100
    } else {
        sfcode % 0x100
    };
    code & (1u16 << (dot % 16 / 2)) != 0
}

/// A channel of a pixel: red, green or blue.
pub open spec fn chan(p: u32, i: int) -> int {
    if i == 0 {
        p as int % 32
    } else if i == 1 {
        p as int / 32 % 32
    } else {
        p as int / 1024 % 32
    }
}

/// How opaque a pixel is, of 255.
pub open spec fn opacity(p: u32) -> int {
    p as int / 0x100_0000 % 64 * 4 + 3
}

/// One channel of two pixels mixed.
pub open spec fn mix255(top: int, bottom: int, alpha: int) -> int {
    (top * alpha + bottom * (255 - alpha)) / 255
}

pub open spec fn sum31(a: int, b: int) -> int {
    if a + b < 31 {
        a + b
    } else {
        31
    }
}

/// Three channels put together, above what is given.
pub open spec fn pixel_of(above: int, r: int, g: int, b: int) -> u32 {
    (above + r + g * 32 + b * 1024) as u32
}

/// Two pixels mixed: by the opacity of the top one, by that of the bottom one where
/// the top one is marked, or added. Other modes show the top one.
pub open spec fn mixed_pixels(top: u32, bottom: u32, mode: u8) -> u32 {
    if mode == 0 {
        let a = opacity(top);
        pixel_of(
            0x3F00_0000,
            mix255(chan(top, 0), chan(bottom, 0), a),
            mix255(chan(top, 1), chan(bottom, 1), a),
            mix255(chan(top, 2), chan(bottom, 2), a),
        )
    } else if mode == 1 && top >= 0x8000_0000 {
        let a = opacity(bottom);
        pixel_of(
            0x8000_0000 + top / 0x100_0000 % 64 * 0x100_0000,
            mix255(chan(top, 0), chan(bottom, 0), a),
            mix255(chan(top, 1), chan(bottom, 1), a),
            mix255(chan(top, 2), chan(bottom, 2), a),
        )
    } else if mode == 2 {
        pixel_of(
            0x3F00_0000,
            sum31(chan(top, 0), chan(bottom, 0)),
            sum31(chan(top, 1), chan(bottom, 1)),
            sum31(chan(top, 2), chan(bottom, 2)),
        )
    } else {
        top
    }
}

fn mix_channel(t: u32, b: u32, alpha: u32) -> (r: u32)
    requires
        t < 32,
        b < 32,
        alpha <= 255,
    ensures
        r == mix255(t as int, b as int, alpha as int),
        r <= 31,
{
    assert(0 <= t * alpha <= 31 * 255 && 0 <= b * (255 - alpha) <= 31 * 255 && t * alpha + b * (255
        - alpha) <= 31 * 255) by (nonlinear_arith)
        requires
            0 <= t <= 31,
            0 <= b <= 31,
            0 <= alpha <= 255,
    ;
    (t * alpha + b * (255 - alpha)) / 255
}

fn add_channel(t: u32, b: u32) -> (r: u32)
    requires
        t < 32,
        b < 32,
    ensures
        r == sum31(t as int, b as int),
        r <= 31,
{
    if t + b < 31 {
        t + b
    } else {
        31
    }
}

/// Mix two pixels.
pub fn blend_pixels(top: u32, bottom: u32, mode: u8) -> (r: u32)
    ensures
        r == mixed_pixels(top, bottom, mode),
{
    let (tr, tg, tb): (u32, u32, u32) = (top % 32, top / 32 % 32, top / 1024 % 32);
    let (br, bg, bb): (u32, u32, u32) = (bottom % 32, bottom / 32 % 32, bottom / 1024 % 32);
    if mode == 0 {
        let alpha: u32 = top / 0x100_0000 % 64 * 4 + 3;
        0x3F00_0000 + mix_channel(tr, br, alpha) + mix_channel(tg, bg, alpha) * 32 + mix_channel(
            tb,
            bb,
            alpha,
        ) * 1024
    } else if mode == 1 && top >= 0x8000_0000 {
        let alpha: u32 = bottom / 0x100_0000 % 64 * 4 + 3;
        0x8000_0000 + top / 0x100_0000 % 64 * 0x100_0000 + mix_channel(tr, br, alpha)
            + mix_channel(tg, bg, alpha) * 32 + mix_channel(tb, bb, alpha) * 1024
    } else if mode == 2 {
        0x3F00_0000 + add_channel(tr, br) + add_channel(tg, bg) * 32 + add_channel(tb, bb) * 1024
    } else {
        top
    }
}

/// Whether a dot is shown at all.
pub open spec fn shown(p: PixelData) -> bool {
    1 <= p.priority <= 7
}

/// The frontmost of the first `n` layers, apart from `skip`; -1 if none is shown.
/// Of equal priorities the later layer is in front.
pub open spec fn frontmost(px: Seq<PixelData>, skip: int, n: nat) -> int
    decreases n,
{
    if n == 0 {
        -1
    } else {
        let before = frontmost(px, skip, (n - 1) as nat);
        let l = n - 1;
        if l == skip || !shown(px[l]) {
            before
        } else if before < 0 || px[l].priority >= px[before].priority {
            l
        } else {
            before
        }
    }
}

/// No shown layer has a higher priority than the frontmost one, and none of the same
/// priority comes later.
pub proof fn frontmost_is_in_front(px: Seq<PixelData>, skip: int, n: nat, k: int)
    requires
        0 <= k < n,
        n <= px.len(),
        k != skip,
        shown(px[k]),
    ensures
        ({
            let f = frontmost(px, skip, n);
            &&& 0 <= f < n
            &&& f != skip
            &&& shown(px[f])
            &&& px[k].priority < px[f].priority || (px[k].priority == px[f].priority && k <= f)
        }),
    decreases n,
{
    frontmost_is_shown(px, skip, (n - 1) as nat);
    if k < n - 1 {
        frontmost_is_in_front(px, skip, (n - 1) as nat, k);
    }
}

/// The frontmost layer, if there is one, is shown.
proof fn frontmost_is_shown(px: Seq<PixelData>, skip: int, n: nat)
    requires
        n <= px.len(),
    ensures
        ({
            let f = frontmost(px, skip, n);
            f == -1 || (0 <= f < n && f != skip && shown(px[f]))
        }),
    decreases n,
{
    if n > 0 {
        frontmost_is_shown(px, skip, (n - 1) as nat);
    }
}

/// How the two frontmost dots are mixed: 3 for not at all.
pub open spec fn mix_mode(top: u32, layer: int, ccctl: u16) -> u8 {
    let enabled = ccctl & (1u16 << (layer as u16)) != 0;
    let flagged = top >= 0x8000_0000;
    if ccctl / 0x100 % 2 == 1 && enabled && flagged {
        2
    } else if ccctl / 0x200 % 2 == 1 && enabled && flagged {
        1
    } else if top / 0x100_0000 % 64 < 0x3F {
        0
    } else {
        3
    }
}

/// The pixel and priority that six dots, one per layer, make over the back screen.
pub open spec fn composed(px: Seq<PixelData>, back_screen: u32, ccctl: u16, sfccmd: u16) -> (
    u32,
    u8,
) {
    let f = frontmost(px, -1, 6);
    if f < 0 {
        (back_screen, 0)
    } else {
        let next = frontmost(px, f, 6);
        let below = if next < 0 {
            back_screen
        } else {
            px[next].pixel
        };
        let top = px[f].pixel;
        let mode = mix_mode(top, f, ccctl);
        (
            if mode == 3 || (sfccmd % 4 == 3 && top < 0x8000_0000) {
                top
            } else {
                mixed_pixels(top, below, mode)
            },
            px[f].priority,
        )
    }
}

/// Where no layer shows a dot, the back screen shows.
pub proof fn empty_column_shows_the_back_screen(
    px: Seq<PixelData>,
    back_screen: u32,
    ccctl: u16,
    sfccmd: u16,
)
    requires
        px.len() == 6,
        forall|l: int| 0 <= l < 6 ==> !shown(#[trigger] px[l]),
    ensures
        composed(px, back_screen, ccctl, sfccmd) == (back_screen, 0u8),
{
    frontmost_is_shown(px, -1, 6);
}

/// A fully opaque dot in front, with colour calculation off, hides all that is behind it.
pub proof fn opaque_front_hides_the_rest(
    px: Seq<PixelData>,
    back_screen: u32,
    ccctl: u16,
    sfccmd: u16,
)
    requires
        px.len() == 6,
        0 <= frontmost(px, -1, 6),
        px[frontmost(px, -1, 6)].pixel / 0x100_0000 % 64 == 0x3F,
        ccctl / 0x100 % 4 == 0,
    ensures
        composed(px, back_screen, ccctl, sfccmd) == (
            px[frontmost(px, -1, 6)].pixel,
            px[frontmost(px, -1, 6)].priority,
        ),
{
}

/// The priority of the result is the highest of all dots shown.
pub proof fn highest_priority_wins(
    px: Seq<PixelData>,
    back_screen: u32,
    ccctl: u16,
    sfccmd: u16,
    l: int,
)
    requires
        px.len() == 6,
        0 <= l < 6,
        shown(px[l]),
    ensures
        px[l].priority <= composed(px, back_screen, ccctl, sfccmd).1,
{
    frontmost_is_in_front(px, -1, 6, l);
}

/// A mixed channel lies between the two that are mixed, and two equal channels stay as
/// they are.
pub proof fn mixed_channel_lies_between(top: int, bottom: int, alpha: int)
    requires
        0 <= top,
        0 <= bottom,
        0 <= alpha <= 255,
    ensures
        (if top <= bottom {
            top
        } else {
            bottom
        }) <= mix255(top, bottom, alpha) <= (if top <= bottom {
            bottom
        } else {
            top
        }),
{
    let lo = if top <= bottom {
        top
    } else {
        bottom
    };
    let hi = if top <= bottom {
        bottom
    } else {
        top
    };
    let sum = top * alpha + bottom * (255 - alpha);
    assert(lo * 255 <= sum <= hi * 255) by (nonlinear_arith)
        requires
            sum == top * alpha + bottom * (255 - alpha),
            lo <= top <= hi,
            lo <= bottom <= hi,
            0 <= alpha <= 255,
    ;
}

/// The dots of the layers at one place.
pub open spec fn column(layers: &[&[PixelData]; 6], index: int) -> Seq<PixelData> {
    Seq::new(6, |l: int| layers[l]@[index])
}

/// Whether every layer has a dot at an index.
pub open spec fn all_have(layers: &[&[PixelData]; 6], index: int) -> bool {
    &&& index < layers[0]@.len()
    &&& index < layers[1]@.len()
    &&& index < layers[2]@.len()
    &&& index < layers[3]@.len()
    &&& index < layers[4]@.len()
    &&& index < layers[5]@.len()
}

/// Find the frontmost layer apart from `skip`; 6 if none is shown.
fn find_frontmost(layers: &[&[PixelData]; 6], index: usize, skip: usize) -> (r: usize)
    requires
        all_have(layers, index as int),
    ensures
        r <= 6,
        r == 6 <==> frontmost(
            column(layers, index as int),
            if skip < 6 { skip as int } else { -1 },
            6,
        ) < 0,
        r < 6 ==> r == frontmost(
            column(layers, index as int),
            if skip < 6 { skip as int } else { -1 },
            6,
        ),
{
    let ghost px = column(layers, index as int);
    let ghost sk = if skip < 6 { skip as int } else { -1 };
    let mut best: usize = 6;
    let mut l: usize = 0;
    while l < 6
        invariant
            l <= 6,
            best == 6 || best < l,
            all_have(layers, index as int),
            px == column(layers, index as int),
            sk == if skip < 6 { skip as int } else { -1 },
            frontmost(px, sk, l as nat) == if best < 6 { best as int } else { -1 },
        decreases 6 - l,
    {
        let p: PixelData = layers[l][index];
        assert(p == px[l as int]);
        if l != skip && 1 <= p.priority && p.priority <= 7 {
            if best == 6 {
                best = l;
            } else {
                let b: PixelData = layers[best][index];
                assert(b == px[best as int]);
                if p.priority >= b.priority {
                    best = l;
                }
            }
        }
        l += 1;
    }
    best
}

/// Mix the dots of all layers at one place.
pub fn dig_pixel(
    layers: &[&[PixelData]; 6],
    index: usize,
    back_screen: u32,
    ccctl: u16,
    sfccmd: u16,
) -> (r: (u32, u8))
    requires
        all_have(layers, index as int),
    ensures
        r == composed(column(layers, index as int), back_screen, ccctl, sfccmd),
{
    let f: usize = find_frontmost(layers, index, 6);
    if f == 6 {
        return (back_screen, 0);
    }
    let next: usize = find_frontmost(layers, index, f);
    let front: PixelData = layers[f][index];
    assert(front == column(layers, index as int)[f as int]);
    let bottom: u32 = if next == 6 {
        back_screen
    } else {
        layers[next][index].pixel
    };
    let top: u32 = front.pixel;
    let enabled: bool = ccctl & (1u16 << (f as u16)) != 0;
    let flagged: bool = top >= 0x8000_0000;
    let mode: u8 = if ccctl / 0x100 % 2 == 1 && enabled && flagged {
        2
    } else if ccctl / 0x200 % 2 == 1 && enabled && flagged {
        1
    } else if top / 0x100_0000 % 64 < 0x3F {
        0
    } else {
        3
    };
    let out: u32 = if mode == 3 || (sfccmd % 4 == 3 && !flagged) {
        top
    } else {
        blend_pixels(top, bottom, mode)
    };
    (out, front.priority)
}

/// Show the frontmost dot as it is.
pub fn old_dig_pixel(layers: &[&[PixelData]; 6], index: usize, back_screen: u32) -> (r: (u32, u8))
    requires
        all_have(layers, index as int),
    ensures
        r == ({
            let px = column(layers, index as int);
            let f = frontmost(px, -1, 6);
            if f < 0 {
                (back_screen, 0u8)
            } else {
                (px[f].pixel, px[f].priority)
            }
        }),
{
    let f: usize = find_frontmost(layers, index, 6);
    if f == 6 {
        return (back_screen, 0);
    }
    let front: PixelData = layers[f][index];
    assert(front == column(layers, index as int)[f as int]);
    (front.pixel, front.priority)
}

/// Where the drawing of a scrolling screen is.
pub struct Vdp2State {
    /// The current and the previous pattern.
    pub pipe: [Vdp2CellInfo; 2],
    /// The cell that the current pattern covers.
    pub oldcellcheck: u32,
    pub planenum: usize,
    /// Where the four planes begin.
    pub planetbl: [u32; 4],
}

pub open spec fn no_cell() -> Vdp2CellInfo {
    Vdp2CellInfo {
        addr: 0,
        charaddr: 0,
        paladdr: 0,
        flipfunction: 0,
        specialfunction: 0,
        specialcolorfunction: 0,
    }
}

impl Default for Vdp2State {
    fn default() -> (r: Self)
        ensures
            r.pipe@ == seq![no_cell(), no_cell()],
            r.oldcellcheck == u32::MAX,
            r.planenum == 0,
            r.planetbl@ == seq![0u32, 0u32, 0u32, 0u32],
    {
        Self::new()
    }
}

impl Vdp2State {
    /// No cell fetched yet.
    pub fn new() -> (r: Self)
        ensures
            r.pipe@ == seq![no_cell(), no_cell()],
            r.oldcellcheck == u32::MAX,
            r.planenum == 0,
            r.planetbl@ == seq![0u32, 0u32, 0u32, 0u32],
    {
        let blank = Vdp2CellInfo {
            addr: 0,
            charaddr: 0,
            paladdr: 0,
            flipfunction: 0,
            specialfunction: 0,
            specialcolorfunction: 0,
        };
        let r = Self {
            pipe: [blank, blank],
            oldcellcheck: 0xFFFF_FFFF,
            planenum: 0,
            planetbl: [0, 0, 0, 0],
        };
        assert(r.pipe@ =~= seq![no_cell(), no_cell()]);
        assert(r.planetbl@ =~= seq![0u32, 0u32, 0u32, 0u32]);
        r
    }
}

/// How a scrolling screen is set up.
#[derive(Clone, Copy, Debug, PartialEq, Eq, Structural)]
pub struct Vdp2LayerConfig {
    pub mpofn: u16,
    pub mpab: u16,
    pub mpcd: u16,
    /// Words per pattern name.
    pub patterndatasize: u16,
    /// Cells per pattern side.
    pub patternwh: u16,
    pub planew: u32,
    pub planeh: u32,
    pub vram_8mbit: bool,
    /// Planes per map side.
    pub mapwh: u32,
    pub supplementdata: u16,
    pub auxmode: u16,
    pub colornumber: u16,
    pub transparencyenable: bool,
    pub coloroffset: u32,
    pub cram_mode: u16,
}

/// The part of a plane's number that counts.
pub open spec fn plane_number(
    tmp: u16,
    patterndatasize: u16,
    patternwh: u16,
    vram_8mbit: bool,
) -> u32 {
    (if patterndatasize == 1 {
        if patternwh == 1 {
            (tmp % 0x40) as u32
        } else if vram_8mbit {
            tmp as u32
        } else {
            (tmp % 0x100) as u32
        }
    } else if patternwh == 1 {
        (tmp % 0x20) as u32
    } else {
        (tmp % 0x80) as u32
    })
}

/// Bytes of a page of pattern names.
pub open spec fn page_bytes(patterndatasize: u16, patternwh: u16) -> int {
    if patterndatasize == 1 {
        if patternwh == 1 {
            0x2000
        } else {
            0x800
        }
    } else if patternwh == 1 {
        0x4000
    } else {
        0x1000
    }
}

/// Where a plane begins: planes of several pages count in whole planes.
pub open spec fn plane_addr(
    map_offset: u16,
    plane_byte: u16,
    patterndatasize: u16,
    patternwh: u16,
    planew: u32,
    planeh: u32,
    vram_8mbit: bool,
) -> int {
    let deca = (planeh + planew - 2) as u32;
    (plane_number(map_offset | plane_byte, patterndatasize, patternwh, vram_8mbit) >> deca) * (planew
        * planeh * page_bytes(patterndatasize, patternwh))
}

/// Whether a plane's address can be computed.
pub open spec fn plane_addr_fits(
    map_offset: u16,
    plane_byte: u16,
    patterndatasize: u16,
    patternwh: u16,
    planew: u32,
    planeh: u32,
    vram_8mbit: bool,
) -> bool {
    &&& 2 <= planeh + planew <= 33
    &&& planew * planeh * page_bytes(patterndatasize, patternwh) <= u32::MAX
    &&& plane_addr(
        map_offset,
        plane_byte,
        patterndatasize,
        patternwh,
        planew,
        planeh,
        vram_8mbit,
    ) <= u32::MAX
}

/// Where a plane begins.
pub fn calc_plane_addr(
    map_offset: u16,
    plane_byte: u16,
    patterndatasize: u16,
    patternwh: u16,
    planew: u32,
    planeh: u32,
    vram_8mbit: bool,
) -> (r: u32)
    requires
        plane_addr_fits(
            map_offset,
            plane_byte,
            patterndatasize,
            patternwh,
            planew,
            planeh,
            vram_8mbit,
        ),
    ensures
        r == plane_addr(
            map_offset,
            plane_byte,
            patterndatasize,
            patternwh,
            planew,
            planeh,
            vram_8mbit,
        ),
{
    let deca: u32 = planeh + planew - 2;
    let tmp: u16 = map_offset | plane_byte;
    let number: u32 = if patterndatasize == 1 {
        if patternwh == 1 {
            (tmp % 0x40) as u32
        } else if vram_8mbit {
            tmp as u32
        } else {
            (tmp % 0x100) as u32
        }
    } else if patternwh == 1 {
        (tmp % 0x20) as u32
    } else {
        (tmp % 0x80) as u32
    };
    let page: u32 = if patterndatasize == 1 {
        if patternwh == 1 {
            0x2000
        } else {
            0x800
        }
    } else if patternwh == 1 {
        0x4000
    } else {
        0x1000
    };
    assert(0 <= planew * planeh <= planew * planeh * page) by (nonlinear_arith)
        requires
            planew >= 0,
            planeh >= 0,
            page >= 1,
    ;
    let multi: u32 = planew * planeh;
    (number >> deca) * (multi * page)
}

/// The byte of the map registers that belongs to a plane.
pub open spec fn map_byte(cfg: Vdp2LayerConfig, i: int) -> u16 {
    if i == 0 {
        (cfg.mpab % 0x100) as u16
    } else if i == 1 {
        (cfg.mpab / 0x100) as u16
    } else if i == 2 {
        (cfg.mpcd % 0x100) as u16
    } else {
        (cfg.mpcd / 0x100) as u16
    }
}

/// Where plane `i` of a screen begins.
pub open spec fn layer_plane(cfg: Vdp2LayerConfig, i: int) -> int {
    plane_addr(
        cfg.mpofn,
        map_byte(cfg, i),
        cfg.patterndatasize,
        cfg.patternwh,
        cfg.planew,
        cfg.planeh,
        cfg.vram_8mbit,
    )
}

pub open spec fn layer_plane_fits(cfg: Vdp2LayerConfig, i: int) -> bool {
    plane_addr_fits(
        cfg.mpofn,
        map_byte(cfg, i),
        cfg.patterndatasize,
        cfg.patternwh,
        cfg.planew,
        cfg.planeh,
        cfg.vram_8mbit,
    )
}

/// Find out where the four planes of a screen begin.
pub fn generate_plane_addr_table(planetbl: &mut [u32; 4], cfg: &Vdp2LayerConfig)
    requires
        layer_plane_fits(*cfg, 0),
        layer_plane_fits(*cfg, 1),
        layer_plane_fits(*cfg, 2),
        layer_plane_fits(*cfg, 3),
    ensures
        final(planetbl)@[0] == layer_plane(*cfg, 0),
        final(planetbl)@[1] == layer_plane(*cfg, 1),
        final(planetbl)@[2] == layer_plane(*cfg, 2),
        final(planetbl)@[3] == layer_plane(*cfg, 3),
{
    let mut i: usize = 0;
    while i < 4
        invariant
            i <= 4,
            layer_plane_fits(*cfg, 0),
            layer_plane_fits(*cfg, 1),
            layer_plane_fits(*cfg, 2),
            layer_plane_fits(*cfg, 3),
            forall|k: int| 0 <= k < i ==> planetbl@[k] == layer_plane(*cfg, k),
        decreases 4 - i,
    {
        let byte: u16 = if i == 0 {
            cfg.mpab % 0x100
        } else if i == 1 {
            cfg.mpab / 0x100
        } else if i == 2 {
            cfg.mpcd % 0x100
        } else {
            cfg.mpcd / 0x100
        };
        assert(byte == map_byte(*cfg, i as int));
        assert(layer_plane_fits(*cfg, i as int));
        planetbl[i] = calc_plane_addr(
            cfg.mpofn,
            byte,
            cfg.patterndatasize,
            cfg.patternwh,
            cfg.planew,
            cfg.planeh,
            cfg.vram_8mbit,
        );
        i += 1;
    }
}

/// The dimensions of a screen in dots.
#[derive(Clone, Copy, Debug, PartialEq, Eq, Structural)]
pub struct ScreenVars {
    pub pagepixelwh: u32,
    pub planepixelwidth: u32,
    pub planepixelheight: u32,
    pub screenwidth: u32,
    pub xmask: u32,
    pub ymask: u32,
}

/// Work out the dimensions of a screen. A page is 512 dots wide and high.
pub fn setup_screen_vars(_patternwh: u16, planew: u32, planeh: u32, mapwh: u32) -> (r: ScreenVars)
    requires
        planew * 512 <= u32::MAX,
        planeh * 512 <= u32::MAX,
        1 <= mapwh * (planew * 512) <= u32::MAX,
        1 <= mapwh * (planeh * 512) <= u32::MAX,
    ensures
        r == (ScreenVars {
            pagepixelwh: 512,
            planepixelwidth: (planew * 512) as u32,
            planepixelheight: (planeh * 512) as u32,
            screenwidth: (mapwh * (planew * 512)) as u32,
            xmask: (mapwh * (planew * 512) - 1) as u32,
            ymask: (mapwh * (planeh * 512) - 1) as u32,
        }),
{
    let planepixelwidth: u32 = planew * 512;
    let planepixelheight: u32 = planeh * 512;
    let screenwidth: u32 = mapwh * planepixelwidth;
    let screenheight: u32 = mapwh * planepixelheight;
    ScreenVars {
        pagepixelwh: 512,
        planepixelwidth,
        planepixelheight,
        screenwidth,
        xmask: screenwidth - 1,
        ymask: screenheight - 1,
    }
}

/// A pattern name decoded.
#[derive(Clone, Copy, Debug, PartialEq, Eq, Structural)]
pub struct PatternName {
    pub charaddr: u32,
    pub paladdr: u32,
    pub flipfunction: u16,
    pub specialfunction: u16,
    pub specialcolorfunction: u16,
}

/// The character number in a pattern name of one or two words.
pub open spec fn char_number(w1: int, w2: int, cfg: Vdp2LayerConfig) -> int {
    let sup = cfg.supplementdata as int;
    if cfg.patterndatasize != 1 {
        w2 % 0x8000
    } else if cfg.auxmode == 0 {
        if cfg.patternwh == 1 {
            w1 % 0x400 + sup % 0x20 * 0x400
        } else {
            w1 % 0x400 * 4 + sup % 4 + sup / 4 % 8 * 0x1000
        }
    } else {
        if cfg.patternwh == 1 {
            w1 % 0x1000 + sup / 4 % 8 * 0x1000
        } else {
            w1 % 0x1000 * 4 + sup % 4 + sup / 16 % 2 * 0x4000
        }
    }
}

/// The palette in a pattern name.
pub open spec fn palette_number(w1: int, cfg: Vdp2LayerConfig) -> int {
    if cfg.patterndatasize == 1 {
        if cfg.colornumber == 0 {
            w1 / 0x1000 * 0x10 + cfg.supplementdata as int / 0x20 % 8 * 0x100
        } else {
            w1 / 0x1000 % 8 * 0x100
        }
    } else if cfg.colornumber == 0 {
        w1 % 0x80 * 0x10
    } else {
        w1 / 0x10 % 8 * 0x100
    }
}

/// A pattern name decoded.
pub open spec fn decoded(w1: int, w2: int, cfg: Vdp2LayerConfig) -> PatternName {
    let number = char_number(w1, w2, cfg);
    PatternName {
        charaddr: ((if cfg.vram_8mbit {
            number
        } else {
            number % 0x4000
        }) * 0x20) as u32,
        paladdr: palette_number(w1, cfg) as u32,
        flipfunction: (if cfg.patterndatasize != 1 {
            w1 / 0x4000
        } else if cfg.auxmode == 0 {
            w1 / 0x400 % 4
        } else {
            0
        }) as u16,
        specialfunction: (if cfg.patterndatasize != 1 {
            w1 / 0x2000 % 2
        } else {
            0
        }) as u16,
        specialcolorfunction: (if cfg.patterndatasize != 1 {
            w1 / 0x1000 % 2
        } else {
            0
        }) as u16,
    }
}

/// Decode a pattern name: character and palette address, how it is flipped, and its
/// special functions.
pub fn pattern_addr(tmp1: u16, tmp2: u16, cfg: &Vdp2LayerConfig) -> (r: (u32, u32, u16, u16, u16))
    ensures
        ({
            let d = decoded(tmp1 as int, tmp2 as int, *cfg);
            r == (
                d.charaddr,
                d.paladdr,
                d.flipfunction,
                d.specialfunction,
                d.specialcolorfunction,
            )
        }),
{
    let w1: u32 = tmp1 as u32;
    let sup: u32 = cfg.supplementdata as u32;
    let number: u32 = if cfg.patterndatasize != 1 {
        tmp2 as u32 % 0x8000
    } else if cfg.auxmode == 0 {
        if cfg.patternwh == 1 {
            w1 % 0x400 + sup % 0x20 * 0x400
        } else {
            w1 % 0x400 * 4 + sup % 4 + sup / 4 % 8 * 0x1000
        }
    } else {
        if cfg.patternwh == 1 {
            w1 % 0x1000 + sup / 4 % 8 * 0x1000
        } else {
            w1 % 0x1000 * 4 + sup % 4 + sup / 16 % 2 * 0x4000
        }
    };
    let palette: u32 = if cfg.patterndatasize == 1 {
        if cfg.colornumber == 0 {
            w1 / 0x1000 * 0x10 + sup / 0x20 % 8 * 0x100
        } else {
            w1 / 0x1000 % 8 * 0x100
        }
    } else if cfg.colornumber == 0 {
        w1 % 0x80 * 0x10
    } else {
        w1 / 0x10 % 8 * 0x100
    };
    let charaddr: u32 = (if cfg.vram_8mbit {
        number
    } else {
        number % 0x4000
    }) * 0x20;
    if cfg.patterndatasize != 1 {
        (charaddr, palette, tmp1 / 0x4000, tmp1 / 0x2000 % 2, tmp1 / 0x1000 % 2)
    } else if cfg.auxmode == 0 {
        (charaddr, palette, tmp1 / 0x400 % 4, 0, 0)
    } else {
        (charaddr, palette, 0, 0, 0)
    }
}

/// The cell that a dot lies in.
pub open spec fn cell_check(x: u32, y: u32, cfg: Vdp2LayerConfig) -> u32 {
    let cell = (2 + cfg.patternwh) as u16;
    ((y >> cell) << 16) | (x >> cell)
}

/// The plane that a dot lies in.
pub open spec fn plane_of(x: u32, y: u32, vars: ScreenVars, cfg: Vdp2LayerConfig) -> int {
    let wide = if vars.planepixelwidth == 512 {
        9u32
    } else {
        10u32
    };
    let high = if vars.planepixelheight == 512 {
        9u32
    } else {
        10u32
    };
    (y >> high) * cfg.mapwh + (x >> wide)
}

/// The number of a dot's pattern within its plane.
pub open spec fn pattern_of(x: u32, y: u32, vars: ScreenVars, cfg: Vdp2LayerConfig) -> int {
    let cell = (2 + cfg.patternwh) as u16;
    let mx = x & ((vars.planepixelwidth - 1) as u32);
    let my = y & ((vars.planepixelheight - 1) as u32);
    let row_bits = if cfg.patternwh == 1 {
        6u32
    } else {
        5u32
    };
    let page_bits = (row_bits * 2) as u32;
    let wide_bits = if vars.planepixelwidth == 512 {
        0u32
    } else {
        1u32
    };
    (((my >> 9u32) << page_bits) << wide_bits) + ((mx >> 9u32) << page_bits) + (((my & 511) >> cell)
        << row_bits) + ((mx & 511) >> cell)
}

/// Bytes per pattern name.
pub open spec fn name_bytes(cfg: Vdp2LayerConfig) -> int {
    if cfg.patterndatasize == 1 {
        2
    } else {
        4
    }
}

/// Where the pattern name of a dot stands.
pub open spec fn name_addr(
    planetbl: Seq<u32>,
    x: u32,
    y: u32,
    vars: ScreenVars,
    cfg: Vdp2LayerConfig,
) -> int {
    planetbl[plane_of(x, y, vars, cfg)] + pattern_of(x, y, vars, cfg) * name_bytes(cfg)
}

/// Whether a dot lies in one of the four planes and the address of its pattern name fits.
pub open spec fn name_can_be_found(
    planetbl: Seq<u32>,
    x: u32,
    y: u32,
    vars: ScreenVars,
    cfg: Vdp2LayerConfig,
) -> bool {
    &&& vars.planepixelwidth >= 1
    &&& vars.planepixelheight >= 1
    &&& plane_of(x, y, vars, cfg) < 4
    &&& pattern_of(x, y, vars, cfg) * name_bytes(cfg) <= u32::MAX
    &&& name_addr(planetbl, x, y, vars, cfg) <= u32::MAX
}

/// The pattern name at an address; all zero behind the end of VRAM.
pub open spec fn name_at(a: int, cfg: Vdp2LayerConfig, vram: Seq<u8>) -> PatternName {
    if a + 1 < vram.len() {
        let w1 = be16(vram[a], vram[a + 1]);
        let w2 = if cfg.patterndatasize == 2 && a + 3 < vram.len() {
            be16(vram[a + 2], vram[a + 3])
        } else {
            0
        };
        decoded(w1 as int, w2 as int, cfg)
    } else {
        PatternName {
            charaddr: 0,
            paladdr: 0,
            flipfunction: 0,
            specialfunction: 0,
            specialcolorfunction: 0,
        }
    }
}

/// How a look at a dot moves the state on: not at all within the current cell; in another
/// cell its pattern comes to the front, and the last one moves behind it.
pub open spec fn looked_at(
    before: Vdp2State,
    after: Vdp2State,
    x: u32,
    y: u32,
    vars: ScreenVars,
    cfg: Vdp2LayerConfig,
    vram: Seq<u8>,
) -> bool {
    &&& after.planetbl@ == before.planetbl@
    &&& cell_check(x, y, cfg) == before.oldcellcheck ==> after == before
    &&& cell_check(x, y, cfg) != before.oldcellcheck ==> {
        let a = name_addr(before.planetbl@, x, y, vars, cfg);
        let n = name_at(a, cfg, vram);
        &&& after.oldcellcheck == cell_check(x, y, cfg)
        &&& after.planenum == plane_of(x, y, vars, cfg)
        &&& after.pipe@[1] == before.pipe@[0]
        &&& after.pipe@[0] == (Vdp2CellInfo {
            addr: a as u32,
            charaddr: n.charaddr,
            paladdr: n.paladdr,
            flipfunction: n.flipfunction,
            specialfunction: n.specialfunction,
            specialcolorfunction: n.specialcolorfunction,
        })
    }
}

/// Move on to the pattern that covers a dot, unless it is the current one.
pub fn map_calc_xy(
    state: &mut Vdp2State,
    x: u32,
    y: u32,
    vars: &ScreenVars,
    cfg: &Vdp2LayerConfig,
    vram: &[u8],
)
    requires
        cfg.patternwh < 30,
        cell_check(x, y, *cfg) != old(state).oldcellcheck ==> name_can_be_found(
            old(state).planetbl@,
            x,
            y,
            *vars,
            *cfg,
        ),
    ensures
        looked_at(*old(state), *final(state), x, y, *vars, *cfg, vram@),
{
    let cell: u16 = 2 + cfg.patternwh;
    let check: u32 = ((y >> cell) << 16) | (x >> cell);
    if check != state.oldcellcheck {
        let previous: Vdp2CellInfo = state.pipe[0];
        let wide: u32 = if vars.planepixelwidth == 512 {
            9
        } else {
            10
        };
        let high: u32 = if vars.planepixelheight == 512 {
            9
        } else {
            10
        };
        let rows: u32 = y >> high;
        assert(0 <= rows * cfg.mapwh) by (nonlinear_arith)
            requires
                0 <= rows,
                0 <= cfg.mapwh,
        ;
        let plane: usize = (rows * cfg.mapwh + (x >> wide)) as usize;
        let mx: u32 = x & (vars.planepixelwidth - 1);
        let my: u32 = y & (vars.planepixelheight - 1);
        let row_bits: u32 = if cfg.patternwh == 1 {
            6
        } else {
            5
        };
        let page_bits: u32 = row_bits * 2;
        let wide_bits: u32 = if vars.planepixelwidth == 512 {
            0
        } else {
            1
        };
        let offset: u32 = (((my >> 9u32) << page_bits) << wide_bits) + ((mx >> 9u32) << page_bits)
            + (((my & 511) >> cell) << row_bits) + ((mx & 511) >> cell);
        let multiplier: u32 = if cfg.patterndatasize == 1 {
            2
        } else {
            4
        };
        let addr: u32 = state.planetbl[plane] + offset * multiplier;
        let at: usize = addr as usize;
        let (charaddr, paladdr, flipfunction, specialfunction, specialcolorfunction): (
            u32,
            u32,
            u16,
            u16,
            u16,
        ) = if at < vram.len() && 1 < vram.len() - at {
            let w1: u16 = from_be16(vram[at], vram[at + 1]);
            let w2: u16 = if cfg.patterndatasize == 2 && 3 < vram.len() - at {
                from_be16(vram[at + 2], vram[at + 3])
            } else {
                0
            };
            pattern_addr(w1, w2, cfg)
        } else {
            (0, 0, 0, 0, 0)
        };
        state.oldcellcheck = check;
        state.planenum = plane;
        state.pipe = [
            Vdp2CellInfo {
                addr,
                charaddr,
                paladdr,
                flipfunction,
                specialfunction,
                specialcolorfunction,
            },
            previous,
        ];
    }
}

/// Where a dot lies within its character: across, and down in lines of eight dots. A
/// large character is four cells in a row, and flipping turns it as a whole.
pub open spec fn dot_in_char(x: u32, y: u32, flip: u16, cfg: Vdp2LayerConfig) -> (int, int) {
    let mirror = flip % 2 == 1;
    let upside = flip / 2 % 2 == 1;
    let cx = if mirror {
        7 - x % 8
    } else {
        x as int % 8
    };
    let cy = if upside {
        7 - y % 8
    } else {
        y as int % 8
    };
    if cfg.patternwh == 1 {
        (cx, cy)
    } else {
        // The right half follows the left one, the lower cells follow the upper.
        let right = (x / 8 % 2 == 1) != mirror;
        let lower = (y / 8 % 2 == 1) != upside;
        (
            cx,
            cy + (if right {
                8int
            } else {
                0
            }) + (if lower {
                16int
            } else {
                0
            }),
        )
    }
}

/// How far behind the start of its character the data of a dot stand.
pub open spec fn dot_offset(d: (int, int), cellw: u32, colors: u16) -> int {
    let n = d.1 * cellw + d.0;
    if colors == 0 {
        n / 2
    } else if colors == 1 {
        n
    } else if colors <= 3 {
        n * 2
    } else {
        n * 4
    }
}

/// The data of a dot; nothing where it is transparent or outside VRAM.
pub open spec fn dot_data(
    charaddr: u32,
    d: (int, int),
    cellw: u32,
    cfg: Vdp2LayerConfig,
    vram: Seq<u8>,
) -> Option<u32> {
    let a = (charaddr + dot_offset(d, cellw, cfg.colornumber)) % 0x8_0000;
    let size = if cfg.colornumber <= 1 {
        1int
    } else if cfg.colornumber <= 3 {
        2
    } else {
        4
    };
    if cfg.colornumber > 4 || a + size > vram.len() {
        None
    } else {
        let dot: u32 = if cfg.colornumber == 0 {
            (if d.0 % 2 == 0 {
                vram[a] / 16
            } else {
                vram[a] % 16
            }) as u32
        } else if cfg.colornumber == 1 {
            vram[a] as u32
        } else if cfg.colornumber <= 3 {
            be16(vram[a], vram[a + 1]) as u32
        } else {
            be32(vram[a], vram[a + 1], vram[a + 2], vram[a + 3])
        };
        let clear = if cfg.colornumber <= 2 {
            dot == 0
        } else if cfg.colornumber == 3 {
            dot < 0x8000
        } else {
            dot < 0x8000_0000
        };
        if clear && cfg.transparencyenable {
            None
        } else {
            Some(dot)
        }
    }
}

/// The entry of colour RAM that a palette dot asks for.
pub open spec fn dot_entry(paladdr: u32, dot: u32, cfg: Vdp2LayerConfig) -> int {
    if cfg.colornumber == 0 {
        cfg.coloroffset + paladdr + dot
    } else if cfg.colornumber == 1 {
        cfg.coloroffset + (paladdr | dot)
    } else {
        cfg.coloroffset + dot
    }
}

/// The colour of a dot; nothing where it is transparent or its data lie outside VRAM.
pub open spec fn dot_color(
    addr: (u32, u32),
    x: u32,
    y: u32,
    flip: u16,
    cellw: u32,
    cfg: Vdp2LayerConfig,
    vram: Seq<u8>,
    cram: Seq<u8>,
) -> Option<u32> {
    match dot_data(addr.0, dot_in_char(x, y, flip, cfg), cellw, cfg, vram) {
        None => None,
        Some(dot) => if cfg.colornumber <= 2 {
            Some(
                cram_color((dot_entry(addr.1, dot, cfg) % 0x1_0000) as u16, cfg.cram_mode, cram),
            )
        } else if cfg.colornumber == 3 {
            Some((dot % 0x8000) as u32)
        } else {
            Some((dot % 0x100_0000) as u32)
        },
    }
}

/// Whether the addresses of a dot can be computed, and colour RAM holds its entry.
pub open spec fn dot_fits(
    addr: (u32, u32),
    d: (int, int),
    cellw: u32,
    cfg: Vdp2LayerConfig,
    vram: Seq<u8>,
    cram: Seq<u8>,
) -> bool {
    &&& cfg.colornumber <= 4 ==> {
        &&& d.1 * cellw + d.0 <= u32::MAX
        &&& addr.0 + dot_offset(d, cellw, cfg.colornumber) <= u32::MAX
    }
    &&& match dot_data(addr.0, d, cellw, cfg, vram) {
        Some(dot) => cfg.colornumber <= 2 ==> {
            let entry = dot_entry(addr.1, dot, cfg);
            &&& entry <= u32::MAX
            &&& cram_holds((entry % 0x1_0000) as u16, cfg.cram_mode, cram.len() as int)
        },
        None => true,
    }
}

fn locate_dot(x: u32, y: u32, flip: u16, cfg: &Vdp2LayerConfig) -> (r: (u32, u32))
    ensures
        r.0 == dot_in_char(x, y, flip, *cfg).0,
        r.1 == dot_in_char(x, y, flip, *cfg).1,
        r.0 <= 7,
        r.1 <= 31,
{
    let mirror: bool = flip % 2 == 1;
    let upside: bool = flip / 2 % 2 == 1;
    let cx: u32 = if mirror {
        7 - x % 8
    } else {
        x % 8
    };
    let mut cy: u32 = if upside {
        7 - y % 8
    } else {
        y % 8
    };
    if cfg.patternwh != 1 {
        if (x / 8 % 2 == 1) != mirror {
            cy = cy + 8;
        }
        if (y / 8 % 2 == 1) != upside {
            cy = cy + 16;
        }
    }
    (cx, cy)
}

/// Fetch the colour of a dot.
#[verifier::rlimit(30)]
pub fn fetch_pixel(
    addr: (u32, u32),
    x: u32,
    y: u32,
    flipfunction: u16,
    cellw: u32,
    cfg: &Vdp2LayerConfig,
    mem: (&[u8], &[u8]),
) -> (r: Option<u32>)
    requires
        dot_fits(
            addr,
            dot_in_char(x, y, flipfunction, *cfg),
            cellw,
            *cfg,
            mem.0@,
            mem.1@,
        ),
    ensures
        r == dot_color(addr, x, y, flipfunction, cellw, *cfg, mem.0@, mem.1@),
{
    let (charaddr, paladdr): (u32, u32) = addr;
    let vram: &[u8] = mem.0;
    let cram: &[u8] = mem.1;
    let (dx, dy): (u32, u32) = locate_dot(x, y, flipfunction, cfg);
    if cfg.colornumber > 4 {
        return None;
    }
    assert(0 <= dy * cellw) by (nonlinear_arith)
        requires
            0 <= dy,
            0 <= cellw,
    ;
    let n: u32 = dy * cellw + dx;
    if cfg.colornumber == 0 {
        let at: usize = ((charaddr + n / 2) % 0x8_0000) as usize;
        if at >= vram.len() {
            return None;
        }
        let dot: u8 = if dx % 2 == 0 {
            vram[at] / 16
        } else {
            vram[at] % 16
        };
        if dot == 0 && cfg.transparencyenable {
            return None;
        }
        let entry: u32 = (cfg.coloroffset + paladdr + dot as u32) % 0x1_0000;
        Some(cram_lookup(entry as u16, cfg.cram_mode, cram))
    } else if cfg.colornumber == 1 {
        let at: usize = ((charaddr + n) % 0x8_0000) as usize;
        if at >= vram.len() {
            return None;
        }
        let dot: u8 = vram[at];
        if dot == 0 && cfg.transparencyenable {
            return None;
        }
        let entry: u32 = (cfg.coloroffset + (paladdr | (dot as u32))) % 0x1_0000;
        Some(cram_lookup(entry as u16, cfg.cram_mode, cram))
    } else if cfg.colornumber == 2 {
        let at: usize = ((charaddr + n * 2) % 0x8_0000) as usize;
        if at + 1 >= vram.len() {
            return None;
        }
        let dot: u16 = from_be16(vram[at], vram[at + 1]);
        if dot == 0 && cfg.transparencyenable {
            return None;
        }
        let entry: u32 = (cfg.coloroffset + dot as u32) % 0x1_0000;
        Some(cram_lookup(entry as u16, cfg.cram_mode, cram))
    } else if cfg.colornumber == 3 {
        let at: usize = ((charaddr + n * 2) % 0x8_0000) as usize;
        if at + 1 >= vram.len() {
            return None;
        }
        let dot: u16 = from_be16(vram[at], vram[at + 1]);
        if dot < 0x8000 && cfg.transparencyenable {
            return None;
        }
        Some((dot % 0x8000) as u32)
    } else {
        let at: usize = ((charaddr + n * 4) % 0x8_0000) as usize;
        if at + 3 >= vram.len() {
            return None;
        }
        let dot: u32 = from_be32(vram[at], vram[at + 1], vram[at + 2], vram[at + 3]);
        if dot < 0x8000_0000 && cfg.transparencyenable {
            return None;
        }
        Some(dot % 0x100_0000)
    }
}

/// A second look at a cell changes nothing, whatever VRAM holds by then.
pub proof fn second_look_changes_nothing(
    states: (Vdp2State, Vdp2State, Vdp2State),
    first: (u32, u32),
    second: (u32, u32),
    vars: ScreenVars,
    cfg: Vdp2LayerConfig,
    vram: Seq<u8>,
    later: Seq<u8>,
)
    requires
        first.0 >> ((2 + cfg.patternwh) as u16) == second.0 >> ((2 + cfg.patternwh) as u16),
        first.1 >> ((2 + cfg.patternwh) as u16) == second.1 >> ((2 + cfg.patternwh) as u16),
        looked_at(states.0, states.1, first.0, first.1, vars, cfg, vram),
        looked_at(states.1, states.2, second.0, second.1, vars, cfg, later),
    ensures
        states.2 == states.1,
{
}

/// A bit of the flip function toggles by itself.
proof fn flip_bits_toggle(flip: u16)
    ensures
        (flip ^ 1) % 2 == 1 - flip % 2,
        (flip ^ 1) / 2 % 2 == flip / 2 % 2,
        (flip ^ 2) % 2 == flip % 2,
        (flip ^ 2) / 2 % 2 == 1 - flip / 2 % 2,
{
    assert((flip ^ 1) % 2 == 1 - flip % 2 && (flip ^ 1) / 2 % 2 == flip / 2 % 2 && (flip ^ 2) % 2
        == flip % 2 && (flip ^ 2) / 2 % 2 == 1 - flip / 2 % 2) by (bit_vector);
}

/// The flip bits mirror a cell: toggling one gives the same dot as fetching at the mirrored
/// place, across for the first bit and down for the second. What lies outside the cell
/// wraps into it. All of these look at one place of the character, so that one of them can be
/// fetched exactly if the others can.
pub proof fn flip_bits_mirror_a_cell(
    addr: (u32, u32),
    x: u32,
    y: u32,
    flip: u16,
    cellw: u32,
    cfg: Vdp2LayerConfig,
    vram: Seq<u8>,
    cram: Seq<u8>,
)
    requires
        cfg.patternwh == 1,
    ensures
        dot_in_char((7 - (x & 7)) as u32, y, flip ^ 1, cfg) == dot_in_char(x, y, flip, cfg),
        dot_in_char(x, (7 - (y & 7)) as u32, flip ^ 2, cfg) == dot_in_char(x, y, flip, cfg),
        dot_in_char(x & 7, y & 7, flip, cfg) == dot_in_char(x, y, flip, cfg),
        dot_color(addr, (7 - (x & 7)) as u32, y, flip ^ 1, cellw, cfg, vram, cram) == dot_color(
            addr,
            x,
            y,
            flip,
            cellw,
            cfg,
            vram,
            cram,
        ),
        dot_color(addr, x, (7 - (y & 7)) as u32, flip ^ 2, cellw, cfg, vram, cram) == dot_color(
            addr,
            x,
            y,
            flip,
            cellw,
            cfg,
            vram,
            cram,
        ),
        dot_color(addr, x & 7, y & 7, flip, cellw, cfg, vram, cram) == dot_color(
            addr,
            x,
            y,
            flip,
            cellw,
            cfg,
            vram,
            cram,
        ),
{
    flip_bits_toggle(flip);
    assert(x & 7 == x % 8 && y & 7 == y % 8) by (bit_vector);
}

/// Mirroring within sixteen dots mirrors the half and the place in it.
proof fn mirrored_in_sixteen(x: u32)
    ensures
        x & 15 <= 15,
        (15 - (x & 15)) as u32 % 8 == 7 - x % 8,
        (15 - (x & 15)) as u32 / 8 % 2 == 1 - x / 8 % 2,
        (x & 15) % 8 == x % 8,
        (x & 15) / 8 % 2 == x / 8 % 2,
{
    assert(x & 15 <= 15 && (15 - (x & 15)) as u32 % 8 == 7 - x % 8 && (15 - (x & 15)) as u32 / 8 % 2
        == 1 - x / 8 % 2 && (x & 15) % 8 == x % 8 && (x & 15) / 8 % 2 == x / 8 % 2) by (bit_vector);
}

/// In a character of two by two cells the flip bits mirror the whole character.
pub proof fn flip_bits_mirror_a_character(
    addr: (u32, u32),
    x: u32,
    y: u32,
    flip: u16,
    cellw: u32,
    cfg: Vdp2LayerConfig,
    vram: Seq<u8>,
    cram: Seq<u8>,
)
    requires
        cfg.patternwh != 1,
    ensures
        dot_in_char((15 - (x & 15)) as u32, y, flip ^ 1, cfg) == dot_in_char(x, y, flip, cfg),
        dot_in_char(x, (15 - (y & 15)) as u32, flip ^ 2, cfg) == dot_in_char(x, y, flip, cfg),
        dot_in_char(x & 15, y & 15, flip, cfg) == dot_in_char(x, y, flip, cfg),
        dot_color(addr, (15 - (x & 15)) as u32, y, flip ^ 1, cellw, cfg, vram, cram) == dot_color(
            addr,
            x,
            y,
            flip,
            cellw,
            cfg,
            vram,
            cram,
        ),
        dot_color(addr, x, (15 - (y & 15)) as u32, flip ^ 2, cellw, cfg, vram, cram) == dot_color(
            addr,
            x,
            y,
            flip,
            cellw,
            cfg,
            vram,
            cram,
        ),
        dot_color(addr, x & 15, y & 15, flip, cellw, cfg, vram, cram) == dot_color(
            addr,
            x,
            y,
            flip,
            cellw,
            cfg,
            vram,
            cram,
        ),
{
    flip_bits_toggle(flip);
    mirrored_in_sixteen(x);
    mirrored_in_sixteen(y);
    assert(dot_in_char((15 - (x & 15)) as u32, y, flip ^ 1, cfg) == dot_in_char(x, y, flip, cfg));
    assert(dot_in_char(x, (15 - (y & 15)) as u32, flip ^ 2, cfg) == dot_in_char(x, y, flip, cfg));
    assert(dot_in_char(x & 15, y & 15, flip, cfg) == dot_in_char(x, y, flip, cfg));
}

} // verus!
