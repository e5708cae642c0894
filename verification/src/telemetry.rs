//! Counters of what the cores do, and pictures of what they show.

use crate::vdp::frame::{FrameView, Framebuffer};
use vstd::prelude::*;

verus! {

/// Cores that have a counter of their own.
pub const IDLE_COUNTERS: usize = 8;

/// What has been counted.
#[derive(Clone, Copy, Debug)]
pub struct Telemetry {
    pub enabled: bool,
    pub wram_reads: u64,
    pub wram_writes: u64,
    /// Nanoseconds that each core was idle.
    pub thread_idle_ns: [u64; 8],
}

/// A counter moved on; it starts over at the top.
pub open spec fn counted(n: u64, by: u64) -> u64 {
    ((n + by) % 0x1_0000_0000_0000_0000) as u64
}

/// Whether counting is on and nothing has been counted yet.
pub open spec fn counts_nothing(t: Telemetry) -> bool {
    &&& t.enabled
    &&& t.wram_reads == 0
    &&& t.wram_writes == 0
    &&& forall|i: int| 0 <= i < 8 ==> t.thread_idle_ns@[i] == 0
}

impl Telemetry {
    /// Counting, from zero.
    pub fn new() -> (r: Self)
        ensures
            counts_nothing(r),
    {
        Self { enabled: true, wram_reads: 0, wram_writes: 0, thread_idle_ns: [0; 8] }
    }
}

impl Default for Telemetry {
    fn default() -> (r: Self)
        ensures
            counts_nothing(r),
    {
        Self::new()
    }
}

fn move_on(n: u64, by: u64) -> (r: u64)
    ensures
        r == counted(n, by),
{
    n.wrapping_add(by)
}

/// The counters after so many bytes of Work RAM were read.
pub open spec fn reads_counted(t: Telemetry, n: u64) -> Telemetry {
    if t.enabled {
        Telemetry { wram_reads: counted(t.wram_reads, n), ..t }
    } else {
        t
    }
}

/// The counters after so many bytes of Work RAM were written.
pub open spec fn writes_counted(t: Telemetry, n: u64) -> Telemetry {
    if t.enabled {
        Telemetry { wram_writes: counted(t.wram_writes, n), ..t }
    } else {
        t
    }
}

/// Count bytes that were read from Work RAM.
pub fn count_wram_reads(t: &mut Telemetry, n: u64)
    ensures
        *final(t) == reads_counted(*old(t), n),
{
    if t.enabled {
        t.wram_reads = move_on(t.wram_reads, n);
    }
}

/// Count bytes that were written to Work RAM.
pub fn count_wram_writes(t: &mut Telemetry, n: u64)
    ensures
        *final(t) == writes_counted(*old(t), n),
{
    if t.enabled {
        t.wram_writes = move_on(t.wram_writes, n);
    }
}

/// Count a read of Work RAM.
pub fn record_wram_read(t: &mut Telemetry)
    ensures
        *final(t) == reads_counted(*old(t), 1),
{
    count_wram_reads(t, 1);
}

/// Count a write to Work RAM.
pub fn record_wram_write(t: &mut Telemetry)
    ensures
        *final(t) == writes_counted(*old(t), 1),
{
    count_wram_writes(t, 1);
}

/// Count the time that a core was idle. Cores without a counter are not counted.
pub fn record_idle_time(t: &mut Telemetry, core_id: usize, duration_ns: u64)
    ensures
        final(t).enabled == old(t).enabled,
        final(t).wram_reads == old(t).wram_reads,
        final(t).wram_writes == old(t).wram_writes,
        final(t).thread_idle_ns@ == if old(t).enabled && core_id < 8 {
            old(t).thread_idle_ns@.update(
                core_id as int,
                counted(old(t).thread_idle_ns@[core_id as int], duration_ns),
            )
        } else {
            old(t).thread_idle_ns@
        },
{
    if t.enabled && core_id < IDLE_COUNTERS {
        t.thread_idle_ns[core_id] = move_on(t.thread_idle_ns[core_id], duration_ns);
    }
}

/// The low 32 bits of a number.
pub open spec fn word32(n: int) -> u32 {
    (n % 0x1_0000_0000) as u32
}

/// A number as four bytes, lowest first.
#[verifier::opaque]
pub open spec fn le32(n: u32) -> Seq<u8> {
    seq![
        (n % 0x100) as u8,
        (n / 0x100 % 0x100) as u8,
        (n / 0x1_0000 % 0x100) as u8,
        (n / 0x100_0000 % 0x100) as u8,
    ]
}

/// A byte of a pixel: 0 for blue, 1 for green, 2 for red.
pub open spec fn pixel_byte(p: u32, i: int) -> u8 {
    (if i == 0 {
        p % 0x100
    } else if i == 1 {
        p / 0x100 % 0x100
    } else {
        p / 0x1_0000 % 0x100
    }) as u8
}

/// The bytes before the pixels of a bitmap file: 32 bits per pixel, uncompressed,
/// topmost row first, which a negative height says.
pub open spec fn bmp_header(width: int, height: int) -> Seq<u8> {
    let image = width * height * 4;
    seq![0x42u8, 0x4Du8] + le32(word32(54 + image)) + le32(0) + le32(54) + le32(40) + le32(
        word32(width),
    ) + le32(word32(-height)) + seq![1u8, 0u8, 32u8, 0u8] + le32(0) + le32(word32(image)) + le32(
        2835,
    ) + le32(2835) + le32(0) + le32(0)
}

/// The pixels of a bitmap file: blue, green, red, and full opacity.
pub open spec fn bmp_pixels(pixels: Seq<u32>) -> Seq<u8> {
    Seq::new(
        pixels.len() * 4,
        |j: int|
            if j % 4 == 3 {
                0xFFu8
            } else {
                pixel_byte(pixels[j / 4], j % 4)
            },
    )
}

/// A frame as a bitmap file.
pub open spec fn bmp_file(f: FrameView) -> Seq<u8> {
    bmp_header(f.width, f.height) + bmp_pixels(f.pixels)
}

fn push_le32(v: &mut Vec<u8>, n: u32)
    ensures
        final(v)@ == old(v)@ + le32(n),
{
    reveal(le32);
    v.push((n % 0x100) as u8);
    v.push((n / 0x100 % 0x100) as u8);
    v.push((n / 0x1_0000 % 0x100) as u8);
    v.push((n / 0x100_0000 % 0x100) as u8);
    assert(v@ =~= old(v)@ + le32(n));
}

fn low_word(n: usize) -> (r: u32)
    ensures
        r == word32(n as int),
{
    (n as u64 % 0x1_0000_0000) as u32
}

/// The header of a bitmap file.
fn header_bytes(width: usize, height: usize) -> (v: Vec<u8>)
    requires
        width * height * 4 + 54 <= usize::MAX,
    ensures
        v@ == bmp_header(width as int, height as int),
{
    assert(0 <= width * height) by (nonlinear_arith)
        requires
            width >= 0,
            height >= 0,
    ;
    let image: usize = width * height * 4;
    let rows: u32 = low_word(height);
    let upward: u32 = 0u32.wrapping_sub(rows);
    assert(upward == word32(-(height as int)));
    let mut v: Vec<u8> = vec![0x42u8, 0x4Du8];
    push_le32(&mut v, low_word(54 + image));
    push_le32(&mut v, 0);
    push_le32(&mut v, 54);
    push_le32(&mut v, 40);
    push_le32(&mut v, low_word(width));
    push_le32(&mut v, upward);
    let ghost before = v@;
    v.push(1);
    v.push(0);
    v.push(32);
    v.push(0);
    assert(v@ =~= before + seq![1u8, 0u8, 32u8, 0u8]);
    push_le32(&mut v, 0);
    push_le32(&mut v, low_word(image));
    push_le32(&mut v, 2835);
    push_le32(&mut v, 2835);
    push_le32(&mut v, 0);
    push_le32(&mut v, 0);
    v
}

/// Turn a frame into a bitmap file.
pub fn bmp_image(frame: &Framebuffer) -> (r: Vec<u8>)
    requires
        frame.width * frame.height * 4 + 54 <= usize::MAX,
        word32(frame.height as int) != 0x8000_0000,
    ensures
        r@ == bmp_file(frame@),
{
    let mut v: Vec<u8> = header_bytes(frame.width, frame.height);
    let ghost header = v@;
    let mut i: usize = 0;
    while i < frame.pixels.len()
        invariant
            i <= frame.pixels@.len(),
            v@ == header + bmp_pixels(frame.pixels@.take(i as int)),
        decreases frame.pixels@.len() - i,
    {
        let p: u32 = frame.pixels[i];
        let ghost done = frame.pixels@.take(i as int);
        v.push((p % 0x100) as u8);
        v.push((p / 0x100 % 0x100) as u8);
        v.push((p / 0x1_0000 % 0x100) as u8);
        v.push(0xFF);
        assert(frame.pixels@.take(i + 1) =~= done.push(p));
        assert(bmp_pixels(done.push(p)) =~= bmp_pixels(done).push(pixel_byte(p, 0)).push(
            pixel_byte(p, 1),
        ).push(pixel_byte(p, 2)).push(0xFF));
        assert(v@ =~= header + bmp_pixels(done.push(p)));
        i += 1;
    }
    assert(frame.pixels@.take(i as int) =~= frame.pixels@);
    v
}

/// Pixels as bytes: red, green, blue.
pub open spec fn rgb_pixels(pixels: Seq<u32>) -> Seq<u8> {
    Seq::new(pixels.len() * 3, |j: int| pixel_byte(pixels[j / 3], 2 - j % 3))
}

/// The colours of a frame, three bytes per pixel.
pub fn rgb_image(frame: &Framebuffer) -> (r: Vec<u8>)
    ensures
        r@ == rgb_pixels(frame@.pixels),
{
    let mut v: Vec<u8> = Vec::new();
    assert(v@ =~= rgb_pixels(frame.pixels@.take(0)));
    let mut i: usize = 0;
    while i < frame.pixels.len()
        invariant
            i <= frame.pixels@.len(),
            v@ == rgb_pixels(frame.pixels@.take(i as int)),
        decreases frame.pixels@.len() - i,
    {
        let p: u32 = frame.pixels[i];
        let ghost done = frame.pixels@.take(i as int);
        v.push((p / 0x1_0000 % 0x100) as u8);
        v.push((p / 0x100 % 0x100) as u8);
        v.push((p % 0x100) as u8);
        assert(frame.pixels@.take(i + 1) =~= done.push(p));
        assert(rgb_pixels(done.push(p)) =~= rgb_pixels(done).push(pixel_byte(p, 2)).push(
            pixel_byte(p, 1),
        ).push(pixel_byte(p, 0)));
        i += 1;
    }
    assert(frame.pixels@.take(i as int) =~= frame.pixels@);
    v
}

/// Why a picture could not be encoded.
#[derive(Clone, Debug, PartialEq, Eq)]
pub enum PngError {
    /// The size was refused.
    Header(String),
    /// The pixels were refused.
    Data(String),
}

/// The PNG file of 8-bit RGB pixels, or what is said of them if they cannot be encoded.
pub uninterp spec fn png_encoding(width: u32, height: u32, rgb: Seq<u8>) -> Result<
    Seq<u8>,
    Seq<char>,
>;

/// `png::Encoder` writing to memory: `new`, `set_color(Rgb)`, `set_depth(Eight)`,
/// `write_header`, then `write_image_data`. The file, and the text of an error, depend on
/// the size and the bytes alone. The header is refused exactly if the picture has no rows
/// or no columns, and the data are refused if they are not three bytes per pixel. That
/// encoding succeeds otherwise is not stated.
#[verifier::external_body]
fn encode_png(width: u32, height: u32, rgb: &Vec<u8>) -> (r: Result<Vec<u8>, PngError>)
    requires
        width * 3 < usize::MAX,
        width * 3 * height <= usize::MAX,
    ensures
        match r {
            Ok(v) => png_encoding(width, height, rgb@) == Ok::<Seq<u8>, Seq<char>>(v@),
            Err(PngError::Header(text)) => png_encoding(width, height, rgb@) == Err::<
                Seq<u8>,
                Seq<char>,
            >(text@),
            Err(PngError::Data(text)) => png_encoding(width, height, rgb@) == Err::<
                Seq<u8>,
                Seq<char>,
            >(text@),
        },
        (width == 0 || height == 0) <==> (r matches Err(e) && e is Header),
        rgb@.len() != width * 3 * height ==> r is Err,
{
    let mut out: Vec<u8> = Vec::new();
    let mut encoder = png::Encoder::new(&mut out, width, height);
    encoder.set_color(png::ColorType::Rgb);
    encoder.set_depth(png::BitDepth::Eight);
    let mut writer = encoder.write_header().map_err(|e| PngError::Header(e.to_string()))?;
    writer.write_image_data(rgb).map_err(|e| PngError::Data(e.to_string()))?;
    drop(writer);
    Ok(out)
}

/// A frame as a PNG file, or what is said of it if it cannot be one.
pub open spec fn png_file(f: FrameView) -> Result<Seq<u8>, Seq<char>> {
    png_encoding(word32(f.width), word32(f.height), rgb_pixels(f.pixels))
}

/// Turn a frame into a PNG file.
pub fn png_image(frame: &Framebuffer) -> (r: Result<Vec<u8>, PngError>)
    requires
        word32(frame.width as int) * 3 < usize::MAX,
        word32(frame.width as int) * 3 * word32(frame.height as int) <= usize::MAX,
    ensures
        match r {
            Ok(v) => png_file(frame@) == Ok::<Seq<u8>, Seq<char>>(v@),
            Err(PngError::Header(text)) => png_file(frame@) == Err::<Seq<u8>, Seq<char>>(text@),
            Err(PngError::Data(text)) => png_file(frame@) == Err::<Seq<u8>, Seq<char>>(text@),
        },
        (word32(frame.width as int) == 0 || word32(frame.height as int) == 0) <==> (r matches Err(e)
            && e is Header),
        frame@.pixels.len() * 3 != word32(frame.width as int) * 3 * word32(frame.height as int)
            ==> r is Err,
{
    let rgb: Vec<u8> = rgb_image(frame);
    encode_png(low_word(frame.width), low_word(frame.height), &rgb)
}

/// The number that four bytes spell, the least significant one first.
pub open spec fn spelled(b: Seq<u8>, at: int) -> int {
    b[at] + b[at + 1] * 0x100 + b[at + 2] * 0x1_0000 + b[at + 3] * 0x100_0000
}

#[verifier::spinoff_prover]
proof fn spelled_back(n: u32)
    ensures
        spelled(le32(n), 0) == n,
        le32(n).len() == 4,
{
    reveal(le32);
}

/// A bitmap begins with its mark, says how long it is and that its pixels begin at 54, and then
/// its width and, as a negative number because rows go down, its height; one plane of 32 bits.
#[verifier::spinoff_prover]
pub proof fn bitmaps_say_their_size(f: FrameView)
    requires
        0 < f.width < 0x4000,
        0 < f.height < 0x4000,
        f.pixels.len() == f.width * f.height,
    ensures
        ({
            let b = bmp_file(f);
            &&& b[0] == 0x42 && b[1] == 0x4D
            &&& b.len() == 54 + f.width * f.height * 4
            &&& spelled(b, 2) == b.len()
            &&& spelled(b, 6) == 0
            &&& spelled(b, 10) == 54
            &&& spelled(b, 14) == 40
            &&& spelled(b, 18) == f.width
            &&& spelled(b, 22) == 0x1_0000_0000 - f.height
            &&& b[26] == 1 && b[27] == 0
            &&& b[28] == 32 && b[29] == 0
            &&& spelled(b, 30) == 0
            &&& spelled(b, 34) == f.width * f.height * 4
        }),
{
    let image = f.width * f.height * 4;
    assert(0 < f.width * f.height < 0x1000_0000) by (nonlinear_arith)
        requires
            0 < f.width < 0x4000,
            0 < f.height < 0x4000,
    ;
    spelled_back(word32(54 + image));
    spelled_back(0);
    spelled_back(54);
    spelled_back(40);
    spelled_back(word32(f.width));
    spelled_back(word32(-f.height));
    spelled_back(word32(image));
    spelled_back(2835);
    let b = bmp_file(f);
    let kind = seq![1u8, 0u8, 32u8, 0u8];
    let p0 = seq![0x42u8, 0x4Du8];
    let p1 = p0 + le32(word32(54 + image));
    let p2 = p1 + le32(0);
    let p3 = p2 + le32(54);
    let p4 = p3 + le32(40);
    let p5 = p4 + le32(word32(f.width));
    let p6 = p5 + le32(word32(-f.height));
    let p7 = p6 + kind;
    let p8 = p7 + le32(0);
    let p9 = p8 + le32(word32(image));
    let p10 = p9 + le32(2835);
    let p11 = p10 + le32(2835);
    let p12 = p11 + le32(0);
    let p13 = p12 + le32(0);
    assert(b =~= p13 + bmp_pixels(f.pixels));
    assert(begins(b, b)) by {
        reveal(begins);
    }
    step_back(b, p13, bmp_pixels(f.pixels));
    step_back(b, p12, le32(0));
    step_back(b, p11, le32(0));
    step_back(b, p10, le32(2835));
    step_back(b, p9, le32(2835));
    step_back(b, p8, le32(word32(image)));
    step_back(b, p7, le32(0));
    step_back(b, p6, kind);
    step_back(b, p5, le32(word32(-f.height)));
    step_back(b, p4, le32(word32(f.width)));
    step_back(b, p3, le32(40));
    step_back(b, p2, le32(54));
    step_back(b, p1, le32(0));
    step_back(b, p0, le32(word32(54 + image)));
    assert(b[0] == 0x42 && b[1] == 0x4D) by {
        reveal(begins);
    }
    assert(b[26] == 1 && b[27] == 0 && b[28] == 32 && b[29] == 0) by {
        reveal(begins);
        assert(b[26] == p7[26] && b[27] == p7[27] && b[28] == p7[28] && b[29] == p7[29]);
    }
}

/// Whether a sequence begins with another.
#[verifier::opaque]
spec fn begins(b: Seq<u8>, p: Seq<u8>) -> bool {
    p.len() <= b.len() && forall|k: int| 0 <= k < p.len() ==> #[trigger] b[k] == p[k]
}

proof fn step_back(b: Seq<u8>, p: Seq<u8>, x: Seq<u8>)
    requires
        begins(b, p + x),
    ensures
        begins(b, p),
        x.len() >= 4 ==> spelled(b, p.len() as int) == spelled(x, 0),
{
    reveal(begins);
    assert forall|k: int| 0 <= k < p.len() implies #[trigger] b[k] == p[k] by {
        assert((p + x)[k] == p[k]);
    }
    let n = p.len() as int;
    if x.len() >= 4 {
        assert((p + x)[n] == x[0] && (p + x)[n + 1] == x[1] && (p + x)[n + 2] == x[2] && (p + x)[n
            + 3] == x[3]);
        assert(b[n] == x[0] && b[n + 1] == x[1] && b[n + 2] == x[2] && b[n + 3] == x[3]);
    }
}

/// The pixels of a bitmap follow row by row from the top: blue, green, red and 255 each. In the
/// picture that is compressed they are red, green and blue.
#[verifier::spinoff_prover]
pub proof fn pixels_are_spelled_out(f: FrameView, x: int, y: int)
    requires
        0 <= x < f.width,
        0 <= y < f.height,
        f.pixels.len() == f.width * f.height,
        0 <= y * f.width + x < f.pixels.len(),
    ensures
        ({
            let i = y * f.width + x;
            let p = f.pixels[i] as int;
            let b = bmp_file(f);
            let c = rgb_pixels(f.pixels);
            &&& b[54 + 4 * i] == p % 0x100
            &&& b[54 + 4 * i + 1] == p / 0x100 % 0x100
            &&& b[54 + 4 * i + 2] == p / 0x1_0000 % 0x100
            &&& b[54 + 4 * i + 3] == 255
            &&& c[3 * i] == p / 0x1_0000 % 0x100
            &&& c[3 * i + 1] == p / 0x100 % 0x100
            &&& c[3 * i + 2] == p % 0x100
            &&& c.len() == 3 * f.width * f.height
        }),
{
    let i = y * f.width + x;
    assert(bmp_header(f.width, f.height).len() == 54) by {
        reveal(le32);
    }
    assert((4 * i) / 4 == i && (4 * i + 1) / 4 == i && (4 * i + 2) / 4 == i && (4 * i + 3) / 4 == i);
    assert((3 * i) / 3 == i && (3 * i + 1) / 3 == i && (3 * i + 2) / 3 == i);
    assert(3 * f.width * f.height == 3 * (f.width * f.height)) by (nonlinear_arith);
}

/// Every access to high RAM counts its bytes while counting is on, and none when it is off.
pub proof fn accesses_are_counted(t: Telemetry, n: u64)
    ensures
        t.enabled && t.wram_reads + n <= u64::MAX ==> reads_counted(t, n).wram_reads == t.wram_reads
            + n,
        t.enabled && t.wram_writes + n <= u64::MAX ==> writes_counted(t, n).wram_writes
            == t.wram_writes + n,
        reads_counted(t, n).wram_writes == t.wram_writes,
        writes_counted(t, n).wram_reads == t.wram_reads,
        !t.enabled ==> reads_counted(t, n) == t && writes_counted(t, n) == t,
{
}

} // verus!
