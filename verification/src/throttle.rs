//! Pacing a processor against the clock on the wall.
//!
//! Cycles are counted in batches. How long a batch ought to take, what time it is and
//! sleeping are the caller's business; here it is decided when a batch is full and how
//! long to sleep.

use vstd::prelude::*;

verus! {

/// The cycles that the flat estimate charges for an instruction of the sound CPU.
pub const M68K_NOMINAL_CYCLES_PER_INSTRUCTION: u64 = 8;

/// The longest sleep in one go, in nanoseconds: a sleeper cannot be interrupted, and
/// must stay responsive.
pub const MAX_SINGLE_SLEEP: u64 = 50_000_000;

/// The pacer of one clock.
#[derive(Copy, Clone, Debug, PartialEq, Eq, Structural)]
pub struct ClockThrottle {
    /// Cycles per batch.
    pub batch_cycles: u64,
    /// Cycles since the last batch was full.
    pub accumulated: u64,
    /// When the current batch ought to have ended, in nanoseconds.
    pub next_batch_due: u64,
}

/// The pacer after a batch: the schedule moves on by the time that the batch ought to
/// take, or starts from now where nothing is paced.
pub open spec fn scheduled(t: ClockThrottle, ideal: Option<u64>, now: u64) -> ClockThrottle {
    ClockThrottle {
        next_batch_due: match ideal {
            Some(d) => (t.next_batch_due + d) as u64,
            None => now,
        },
        ..t
    }
}

/// How long to sleep: until the schedule is met, but never longer than the limit.
pub open spec fn pause(t: ClockThrottle, now: u64) -> u64 {
    if t.next_batch_due <= now {
        0
    } else if t.next_batch_due - now < MAX_SINGLE_SLEEP {
        (t.next_batch_due - now) as u64
    } else {
        MAX_SINGLE_SLEEP
    }
}

impl ClockThrottle {
    /// A pacer that starts now. A batch has at least one cycle.
    pub fn new(batch_cycles: u64, now: u64) -> (r: Self)
        ensures
            r == (ClockThrottle {
                batch_cycles: if batch_cycles >= 1 {
                    batch_cycles
                } else {
                    1
                },
                accumulated: 0,
                next_batch_due: now,
            }),
    {
        let batch: u64 = if batch_cycles >= 1 {
            batch_cycles
        } else {
            1
        };
        Self { batch_cycles: batch, accumulated: 0, next_batch_due: now }
    }

    /// Count cycles. Returns how many there are in the batch once it is full.
    pub fn advance(&mut self, cycles: u64) -> (r: Option<u64>)
        requires
            old(self).accumulated + cycles <= u64::MAX,
        ensures
            ({
                let total = old(self).accumulated + cycles;
                if total < old(self).batch_cycles {
                    &&& r is None
                    &&& *final(self) == (ClockThrottle {
                        accumulated: total as u64,
                        ..*old(self)
                    })
                } else {
                    &&& r == Some(total as u64)
                    &&& *final(self) == (ClockThrottle { accumulated: 0, ..*old(self) })
                }
            }),
    {
        let total: u64 = self.accumulated + cycles;
        if total < self.batch_cycles {
            self.accumulated = total;
            None
        } else {
            self.accumulated = 0;
            Some(total)
        }
    }

    /// Close a batch that ought to take `ideal` nanoseconds, or is not paced. Returns how
    /// many nanoseconds to sleep.
    pub fn pace(&mut self, ideal: Option<u64>, now: u64) -> (r: u64)
        requires
            ideal matches Some(d) ==> old(self).next_batch_due + d <= u64::MAX,
        ensures
            *final(self) == scheduled(*old(self), ideal, now),
            r == pause(*final(self), now),
    {
        match ideal {
            Some(d) => {
                self.next_batch_due = self.next_batch_due + d;
            },
            None => {
                self.next_batch_due = now;
            },
        }
        if self.next_batch_due <= now {
            0
        } else if self.next_batch_due - now < MAX_SINGLE_SLEEP {
            self.next_batch_due - now
        } else {
            MAX_SINGLE_SLEEP
        }
    }
}

/// No sleep is longer than the limit, and without pacing there is none.
pub proof fn sleeps_are_short(t: ClockThrottle, ideal: Option<u64>, now: u64)
    ensures
        pause(scheduled(t, ideal, now), now) <= MAX_SINGLE_SLEEP,
        ideal is None ==> pause(scheduled(t, ideal, now), now) == 0,
{
}

/// The schedule does not depend on when the batches were closed, so that a slow batch is
/// made up for by the next ones.
pub proof fn schedule_does_not_drift(
    t: ClockThrottle,
    first: u64,
    second: u64,
    now1: u64,
    now2: u64,
)
    requires
        t.next_batch_due + first + second <= u64::MAX,
    ensures
        scheduled(scheduled(t, Some(first), now1), Some(second), now2).next_batch_due
            == t.next_batch_due + first + second,
{
}

/// A pause ends when the schedule is met, or after 50 milliseconds.
pub proof fn pauses_meet_the_schedule(t: ClockThrottle, ideal: u64, now: u64)
    requires
        t.next_batch_due + ideal <= u64::MAX,
    ensures
        ({
            let ahead = t.next_batch_due + ideal - now;
            let slept = pause(scheduled(t, Some(ideal), now), now);
            &&& ahead <= 0 ==> slept == 0
            &&& 0 <= ahead <= 50_000_000 ==> slept == ahead
            &&& ahead >= 50_000_000 ==> slept == 50_000_000
        }),
{
}

} // verus!
