//! What a frontend decides between looking at the machine and showing it: whether the
//! processor still moves, whether the window fits the frame, and a picture to try a
//! window with.

use vstd::arithmetic::div_mod::lemma_fundamental_div_mod_converse;
use vstd::prelude::*;

verus! {

/// How long the program counter may stand still before it counts as settled, in
/// nanoseconds.
pub const SETTLED_AFTER: u64 = 500_000_000;

/// Frames from one progress report to the next.
pub const REPORT_INTERVAL: u64 = 300;

/// The width of the test picture.
pub const TEST_WIDTH: usize = 352;

/// The height of the test picture.
pub const TEST_HEIGHT: usize = 240;

/// A look at the program counter.
#[derive(Copy, Clone, Debug, PartialEq, Eq, Structural)]
pub enum WatchStep {
    /// It has moved since the last look.
    Advanced { from: u32, to: u32, sample: u64 },
    /// It has stood still for too long to be worth watching.
    Settled,
    /// It stands where it stood.
    Unchanged,
}

/// Watching a program counter after a reset.
#[derive(Copy, Clone, Debug, PartialEq, Eq, Structural)]
pub struct BootWatch {
    pub start_pc: u32,
    pub last_pc: u32,
    /// When the program counter was last seen to move, in nanoseconds.
    pub last_change: u64,
    pub samples: u64,
}

/// What a look finds.
pub open spec fn watch_step(w: BootWatch, pc: u32, now: u64) -> WatchStep {
    if pc != w.last_pc {
        WatchStep::Advanced { from: w.last_pc, to: pc, sample: (w.samples + 1) as u64 }
    } else if now - w.last_change > SETTLED_AFTER {
        WatchStep::Settled
    } else {
        WatchStep::Unchanged
    }
}

/// The watch after a look.
pub open spec fn watched(w: BootWatch, pc: u32, now: u64) -> BootWatch {
    BootWatch {
        start_pc: w.start_pc,
        last_pc: pc,
        last_change: if pc != w.last_pc {
            now
        } else {
            w.last_change
        },
        samples: (w.samples + 1) as u64,
    }
}

impl BootWatch {
    /// Begin to watch.
    pub fn new(pc: u32, now: u64) -> (r: Self)
        ensures
            r == (BootWatch { start_pc: pc, last_pc: pc, last_change: now, samples: 0 }),
    {
        Self { start_pc: pc, last_pc: pc, last_change: now, samples: 0 }
    }

    /// Look at the program counter.
    pub fn sample(&mut self, pc: u32, now: u64) -> (r: WatchStep)
        requires
            old(self).samples < u64::MAX,
        ensures
            r == watch_step(*old(self), pc, now),
            *final(self) == watched(*old(self), pc, now),
    {
        self.samples = self.samples + 1;
        if pc != self.last_pc {
            let from: u32 = self.last_pc;
            self.last_pc = pc;
            self.last_change = now;
            WatchStep::Advanced { from, to: pc, sample: self.samples }
        } else if now > self.last_change && now - self.last_change > SETTLED_AFTER {
            WatchStep::Settled
        } else {
            WatchStep::Unchanged
        }
    }

    /// Whether the program counter was last seen away from where it began.
    pub fn moved(&self) -> (r: bool)
        ensures
            r == (self.last_pc != self.start_pc),
    {
        self.last_pc != self.start_pc
    }
}

/// The window that shows the frames.
#[derive(Copy, Clone, Debug, PartialEq, Eq, Structural)]
pub struct WindowState {
    pub width: usize,
    pub height: usize,
    /// Frames shown so far.
    pub presented: u64,
}

/// What showing a frame asks for.
#[derive(Copy, Clone, Debug, PartialEq, Eq, Structural)]
pub struct WindowStep {
    /// The window must first take the frame's size.
    pub resize: bool,
    /// Progress is to be reported afterwards.
    pub report: bool,
}

impl WindowState {
    /// A window of the given size that has shown nothing.
    pub fn new(width: usize, height: usize) -> (r: Self)
        ensures
            r == (WindowState { width, height, presented: 0 }),
    {
        Self { width, height, presented: 0 }
    }

    /// Show a frame of the given size.
    pub fn present(&mut self, width: usize, height: usize) -> (r: WindowStep)
        requires
            old(self).presented < u64::MAX,
        ensures
            *final(self) == (WindowState {
                width,
                height,
                presented: (old(self).presented + 1) as u64,
            }),
            r == (WindowStep {
                resize: width != old(self).width || height != old(self).height,
                report: (old(self).presented + 1) % REPORT_INTERVAL as int == 0,
            }),
    {
        let resize: bool = width != self.width || height != self.height;
        self.width = width;
        self.height = height;
        self.presented = self.presented + 1;
        WindowStep { resize, report: self.presented % REPORT_INTERVAL == 0 }
    }
}

/// A pixel of the test picture: red rises to the right and green downwards, and both
/// move on with every frame.
pub open spec fn test_pixel(x: int, y: int, frame: u32) -> u32 {
    ((x + frame) % 256 * 0x1_0000 + (y + frame) % 256 * 0x100 + 128) as u32
}

/// The test picture, row by row.
pub fn test_picture(frame: u32) -> (r: Vec<u32>)
    ensures
        r@ == Seq::new(
            (TEST_WIDTH * TEST_HEIGHT) as nat,
            |i: int| test_pixel(i % TEST_WIDTH as int, i / TEST_WIDTH as int, frame),
        ),
{
    let offset: u32 = frame % 256;
    let mut pixels: Vec<u32> = Vec::new();
    let mut y: usize = 0;
    while y < TEST_HEIGHT
        invariant
            y <= TEST_HEIGHT,
            offset == frame % 256,
            pixels@.len() == y * TEST_WIDTH,
            forall|i: int|
                0 <= i < y * TEST_WIDTH ==> #[trigger] pixels@[i] == test_pixel(
                    i % TEST_WIDTH as int,
                    i / TEST_WIDTH as int,
                    frame,
                ),
        decreases TEST_HEIGHT - y,
    {
        let green: u32 = (y as u32 + offset) % 256;
        let mut x: usize = 0;
        while x < TEST_WIDTH
            invariant
                x <= TEST_WIDTH,
                y < TEST_HEIGHT,
                offset == frame % 256,
                green == (y + frame) % 256,
                pixels@.len() == y * TEST_WIDTH + x,
                forall|i: int|
                    0 <= i < y * TEST_WIDTH + x ==> #[trigger] pixels@[i] == test_pixel(
                        i % TEST_WIDTH as int,
                        i / TEST_WIDTH as int,
                        frame,
                    ),
            decreases TEST_WIDTH - x,
        {
            let red: u32 = (x as u32 + offset) % 256;
            proof {
                lemma_fundamental_div_mod_converse(
                    y * TEST_WIDTH + x,
                    TEST_WIDTH as int,
                    y as int,
                    x as int,
                );
            }
            pixels.push(red * 0x1_0000 + green * 0x100 + 128);
            x += 1;
        }
        y += 1;
    }
    pixels
}

/// In the test picture each step to the right adds one to the red, each step down one to the
/// green, and each frame one to both, modulo 256; the blue stands at half.
pub proof fn test_picture_moves(x: int, y: int, frame: u32)
    requires
        0 <= x < 352,
        0 <= y < 240,
        frame < u32::MAX,
    ensures
        test_pixel(0, 0, 0) == 128,
        test_pixel(x, y, frame) as int % 0x100 == 128,
        test_pixel(x, y, frame) as int / 0x1_0000 == (x + frame) % 256,
        test_pixel(x, y, frame) as int / 0x100 % 0x100 == (y + frame) % 256,
        test_pixel(x, y, (frame + 1) as u32) == test_pixel(x + 1, y + 1, frame),
{
}

/// A counter that stands still is given up after half a second, and not before; one that moves
/// never is.
pub proof fn still_counters_settle(w: BootWatch, pc: u32, now: u64)
    requires
        w.samples < u64::MAX,
    ensures
        watch_step(w, pc, now) is Advanced <==> pc != w.last_pc,
        watch_step(w, pc, now) is Settled <==> pc == w.last_pc && now > w.last_change
            + 500_000_000,
        watched(w, pc, now).last_pc == pc,
        pc != w.last_pc ==> watched(w, pc, now).last_change == now && watch_step(w, pc, now) == (
        WatchStep::Advanced { from: w.last_pc, to: pc, sample: (w.samples + 1) as u64 }),
        pc == w.last_pc ==> watched(w, pc, now).last_change == w.last_change,
        watched(w, pc, now).samples == w.samples + 1,
        watched(w, pc, now).start_pc == w.start_pc,
{
}

} // verus!
