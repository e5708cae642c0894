//! Pacing, on a clock that only sleeping moves.

use saturn_core::throttle::ClockThrottle;

const SH2_CLOCK_HZ: f64 = (39_375_000.0 / 11.0) * 8.0;
const MILLISECOND: u64 = 1_000_000;

/// A pacer with its clock rate, its speed, and the time on its clock.
struct Paced {
    throttle: ClockThrottle,
    clock_hz: f64,
    multiplier: Option<f64>,
    now: u64,
}

impl Paced {
    fn new(clock_hz: f64, multiplier: Option<f64>) -> Self {
        Self {
            throttle: ClockThrottle::new((clock_hz * 0.001) as u64, 0),
            clock_hz,
            multiplier: multiplier.filter(|m| *m > 0.0),
            now: 0,
        }
    }

    fn advance(&mut self, cycles: u64) {
        if let Some(batch) = self.throttle.advance(cycles) {
            let ideal = self
                .multiplier
                .map(|m| (batch as f64 / (self.clock_hz * m) * 1_000_000_000.0) as u64);
            self.now += self.throttle.pace(ideal, self.now);
        }
    }
}

#[test]
fn unthrottled_never_sleeps() {
    let mut paced = Paced::new(10_000.0, None);
    assert_eq!(paced.throttle.batch_cycles, 10);
    for _ in 0..10_000 {
        paced.advance(1);
    }
    assert!(paced.now < 200 * MILLISECOND, "Unthrottled must not pace at all");
    assert_eq!(paced.now, 0);
}

#[test]
fn real_speed_paces_close_to_the_ideal_duration() {
    let mut paced = Paced::new(10_000.0, Some(1.0));
    for _ in 0..100 {
        paced.advance(1);
    }
    assert!(paced.now >= 7 * MILLISECOND, "real-speed throttle paced too fast: {:?}", paced.now);
    assert!(
        paced.now < 300 * MILLISECOND,
        "real-speed throttle paced far too slow: {:?}",
        paced.now
    );
    assert_eq!(paced.now, 10 * MILLISECOND);
}

#[test]
fn higher_multiplier_paces_faster() {
    let mut slow = Paced::new(10_000.0, Some(1.0));
    let mut fast = Paced::new(10_000.0, Some(50.0));
    for _ in 0..100 {
        slow.advance(1);
    }
    for _ in 0..100 {
        fast.advance(1);
    }
    assert!(
        fast.now < slow.now,
        "a higher multiplier must pace faster (real: {:?}, 50x: {:?})",
        slow.now,
        fast.now
    );
}

#[test]
fn advance_never_sleeps_longer_than_the_cap() {
    let mut paced = Paced::new(10_000.0, Some(0.00001));
    for _ in 0..10 {
        paced.advance(1);
    }
    assert!(
        paced.now < 200 * MILLISECOND,
        "a single advance() call must never block anywhere near the (unbounded) ideal duration: {:?}",
        paced.now
    );
    assert_eq!(paced.now, 50 * MILLISECOND);
}

#[test]
fn non_positive_multiplier_behaves_like_unthrottled() {
    for bad_multiplier in [0.0, -1.0] {
        let mut paced = Paced::new(10_000.0, Some(bad_multiplier));
        for _ in 0..10_000 {
            paced.advance(1);
        }
        assert!(
            paced.now < 200 * MILLISECOND,
            "a non-positive multiplier ({}) must not hang or pace",
            bad_multiplier
        );
    }
}

#[test]
fn test_cycles_p8_t5_throttle_end_to_end() {
    let mut paced = Paced::new(SH2_CLOCK_HZ, Some(1.0));
    paced.advance(100);
    assert_eq!(paced.throttle.accumulated, 100);
    assert_eq!(paced.now, 0);
}
