//! Keeping cores together, and pacing them.

use saturn_core::sync::{Activation, LockStepSync, ParkStep, SyncStep};
use saturn_core::throttle::{ClockThrottle, MAX_SINGLE_SLEEP};

const GO: SyncStep = SyncStep::Proceed { notify: false };
const GO_AND_WAKE: SyncStep = SyncStep::Proceed { notify: true };

#[test]
fn a_core_ahead_waits_until_the_others_have_caught_up() {
    let mut sync = LockStepSync::new(4, 10);
    assert_eq!(sync.slack_limit(), 10);
    assert_eq!(sync.sync_core(0, 12), SyncStep::Wait);

    // At 1 the others are still 11 behind.
    assert_eq!(sync.sync_core(1, 1), GO);
    assert_eq!(sync.sync_core(2, 1), GO);
    assert_eq!(sync.sync_core(3, 1), GO);
    assert_eq!(sync.resume_core(0, 12), SyncStep::Wait);

    // The last one to reach 2 wakes the waiting core.
    assert_eq!(sync.sync_core(1, 2), GO);
    assert_eq!(sync.sync_core(2, 2), GO);
    assert_eq!(sync.sync_core(3, 2), GO_AND_WAKE);
    assert_eq!(sync.resume_core(0, 12), GO);
    assert_eq!(sync.get_cycles(0), 12);
}

#[test]
fn drift_bounds_hold_exactly() {
    let mut sync = LockStepSync::new(2, 100);
    assert_eq!(sync.sync_core(0, 100), GO);
    assert_eq!(sync.sync_core(0, 101), SyncStep::Wait);
    assert_eq!(sync.sync_core(1, 0), GO);
    assert_eq!(sync.sync_core(1, 1), GO_AND_WAKE);
}

#[test]
fn the_slowest_core_never_waits() {
    let mut sync = LockStepSync::new(3, 5);
    assert_eq!(sync.sync_core(1, 5), GO);
    assert_eq!(sync.sync_core(2, 4), GO);
    assert_eq!(sync.sync_core(0, 1), GO);
}

#[test]
fn counts_wrap_around() {
    let mut sync = LockStepSync::new(2, 10);
    assert_eq!(sync.sync_core(0, u64::MAX), GO);
    assert_eq!(sync.sync_core(1, u64::MAX - 3), GO);
    // 2 is three cycles ahead of the top.
    assert_eq!(sync.sync_core(0, 2), GO);
}

#[test]
fn an_inactive_core_is_refused_and_does_not_hold_the_others_up() {
    let mut sync = LockStepSync::new(2, 10);
    let stopped = sync.set_thread_active(1, false);
    assert_eq!(
        stopped,
        Activation { cycles: 0, notify_waiters: true, notify_parked: false }
    );
    assert_eq!(sync.sync_core(1, 7), SyncStep::Refused);
    assert_eq!(sync.get_cycles(1), 0);
    assert_eq!(sync.sync_core(0, 1_000_000), GO);

    // It starts again where the slowest active core is.
    let started = sync.set_thread_active(1, true);
    assert_eq!(
        started,
        Activation { cycles: 1_000_000, notify_waiters: true, notify_parked: true }
    );
    // Starting an active core changes nothing.
    let again = sync.set_thread_active(1, true);
    assert_eq!(
        again,
        Activation { cycles: 1_000_000, notify_waiters: false, notify_parked: false }
    );
}

#[test]
fn a_parked_core_runs_once_it_is_started() {
    let mut sync = LockStepSync::new(2, 10);
    sync.set_thread_active(1, false);
    assert_eq!(sync.park_while_inactive(1), ParkStep::Wait);
    assert_eq!(sync.park_while_inactive(0), ParkStep::Run);
    sync.set_thread_active(1, true);
    assert_eq!(sync.park_while_inactive(1), ParkStep::Run);
}

#[test]
fn a_shutdown_releases_everyone() {
    let mut sync = LockStepSync::new(2, 10);
    assert_eq!(sync.sync_core(0, 50), SyncStep::Wait);
    assert!(!sync.is_shutdown());
    sync.request_shutdown();
    assert!(sync.is_shutdown());
    assert_eq!(sync.resume_core(0, 50), GO);
    assert_eq!(sync.sync_core(0, 60), SyncStep::Refused);
    assert_eq!(sync.park_while_inactive(0), ParkStep::Stop);
}

#[test]
fn batches_are_counted_up() {
    let mut t = ClockThrottle::new(10, 0);
    for _ in 0..9 {
        assert_eq!(t.advance(1), None);
    }
    assert_eq!(t.advance(1), Some(10));
    assert_eq!(t.advance(25), Some(25));
    assert_eq!(ClockThrottle::new(0, 7).batch_cycles, 1);
}

#[test]
fn pacing_sleeps_until_the_schedule_is_met() {
    let mut t = ClockThrottle::new(10, 1_000);
    assert_eq!(t.pace(Some(500), 1_100), 400);
    // A slow batch is made up for.
    assert_eq!(t.pace(Some(500), 2_600), 0);
    assert_eq!(t.next_batch_due, 2_000);
    assert_eq!(t.pace(Some(700), 2_650), 50);
}

#[test]
fn pacing_never_sleeps_longer_than_the_limit() {
    let mut t = ClockThrottle::new(10, 0);
    assert_eq!(t.pace(Some(1_000_000_000_000), 0), MAX_SINGLE_SLEEP);
    assert_eq!(MAX_SINGLE_SLEEP, 50_000_000);
}

#[test]
fn without_pacing_the_schedule_starts_from_now() {
    let mut t = ClockThrottle::new(10, 0);
    assert_eq!(t.pace(None, 9_000), 0);
    assert_eq!(t.next_batch_due, 9_000);
}

#[test]
fn after_a_shutdown_every_report_is_refused() {
    let mut sync = LockStepSync::new(2, 10);
    sync.sync_core(0, 7);
    sync.set_thread_active(1, false);
    sync.request_shutdown();
    // Even of a core that does not exist.
    assert_eq!(sync.sync_core(9, 100), SyncStep::Refused);
    assert_eq!(sync.sync_core(0, 100), SyncStep::Refused);
    assert_eq!((sync.get_cycles(0), sync.get_cycles(1)), (7, 0));
    assert_eq!(sync.park_while_inactive(1), ParkStep::Stop);
    sync.set_thread_active(1, true);
    assert!(sync.is_shutdown());
}

#[test]
fn inactive_cores_do_not_count_for_the_slack() {
    let mut sync = LockStepSync::new(3, u64::MAX >> 1);
    sync.set_thread_active(2, false);
    assert_eq!(sync.sync_core(1, 1 << 62), GO);
    assert_eq!(sync.sync_core(0, (1 << 62) + 5), GO);
}
