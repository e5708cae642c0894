//! What a frontend decides.

use saturn_core::frontend::{
    test_picture, BootWatch, WatchStep, WindowState, WindowStep, SETTLED_AFTER, TEST_HEIGHT,
    TEST_WIDTH,
};

#[test]
fn a_watch_sees_movement_and_rest() {
    let mut watch = BootWatch::new(0x2000_0200, 0);
    assert_eq!(watch.sample(0x2000_0200, 20_000_000), WatchStep::Unchanged);
    assert!(!watch.moved());
    assert_eq!(
        watch.sample(0x0600_0000, 40_000_000),
        WatchStep::Advanced { from: 0x2000_0200, to: 0x0600_0000, sample: 2 }
    );
    assert!(watch.moved());
    assert_eq!(watch.sample(0x0600_0000, 40_000_000 + SETTLED_AFTER), WatchStep::Unchanged);
    assert_eq!(watch.sample(0x0600_0000, 40_000_001 + SETTLED_AFTER), WatchStep::Settled);
    // A clock that reads an earlier time is no rest.
    assert_eq!(watch.sample(0x0600_0000, 0), WatchStep::Unchanged);
    assert_eq!(watch.samples, 5);
    watch.sample(0x2000_0200, 0);
    assert!(!watch.moved());
}

#[test]
fn a_window_follows_the_size_of_the_frames() {
    let mut window = WindowState::new(320, 224);
    assert_eq!(window.present(320, 224), WindowStep { resize: false, report: false });
    assert_eq!(window.present(704, 224), WindowStep { resize: true, report: false });
    assert_eq!(window.present(704, 448), WindowStep { resize: true, report: false });
    for _ in 3..299 {
        assert!(!window.present(704, 448).report);
    }
    assert_eq!(window.present(704, 448), WindowStep { resize: false, report: true });
    assert_eq!(window.presented, 300);
}

#[test]
fn the_test_picture_moves() {
    let first = test_picture(0);
    assert_eq!(first.len(), TEST_WIDTH * TEST_HEIGHT);
    assert_eq!(first[0], 0x0000_0080);
    assert_eq!(first[3 * TEST_WIDTH + 5], 0x0005_0380);
    assert_eq!(first[256], first[0]);
    let later = test_picture(255);
    assert_eq!(later[0], 0x00FF_FF80);
    assert_eq!(later[1], 0x0000_FF80);
    assert_eq!(test_picture(256), first);
}
