use std::time::Instant;

use edwardium_logger::timing::{DummyTiming, Duration, Timing};

fn wait_millis(millis: u64) {
    let begun = Instant::now();
    while begun.elapsed() < std::time::Duration::from_millis(millis) {
        std::hint::spin_loop();
    }
}

#[test]
fn a_duration_keeps_seconds_and_nanoseconds() {
    let d = Duration::new(65, 250_000_000);
    assert_eq!(d.as_secs(), 65);
    assert_eq!(d.subsec_nanos(), 250_000_000);
    assert_eq!(d.subsec_millis(), 250);
}

#[test]
fn whole_seconds_among_the_nanoseconds_are_carried() {
    let d = Duration::new(1, 2_500_000_000);
    assert_eq!(d.as_secs(), 3);
    assert_eq!(d.subsec_nanos(), 500_000_000);
    let d = Duration::new(0, 1_000_000_000);
    assert_eq!(d.as_secs(), 1);
    assert_eq!(d.subsec_nanos(), 0);
    let d = Duration::new(0, u32::MAX);
    assert_eq!(d.as_secs(), 4);
    assert_eq!(d.subsec_nanos(), 294_967_295);
}

#[test]
fn a_duration_agrees_with_that_of_std() {
    for (secs, nanos) in [(0u64, 0u32), (65, 250_000_000), (1, 2_500_000_000), (7, 999_999_999)] {
        let mine = Duration::new(secs, nanos);
        let theirs = std::time::Duration::new(secs, nanos);
        assert_eq!(mine.as_secs(), theirs.as_secs());
        assert_eq!(mine.subsec_nanos(), theirs.subsec_nanos());
        assert_eq!(mine.subsec_millis(), theirs.subsec_millis());
    }
}

#[test]
fn milliseconds_are_cut_not_rounded() {
    assert_eq!(Duration::new(0, 999_999).subsec_millis(), 0);
    assert_eq!(Duration::new(0, 1_000_000).subsec_millis(), 1);
    assert_eq!(Duration::new(0, 999_999_999).subsec_millis(), 999);
}

#[test]
fn from_millis_splits_at_the_second() {
    let d = Duration::from_millis(125_400);
    assert_eq!(d.as_secs(), 125);
    assert_eq!(d.subsec_millis(), 400);
    assert_eq!(d.subsec_nanos(), 400_000_000);
    let d = Duration::from_millis(999);
    assert_eq!(d.as_secs(), 0);
    assert_eq!(d.subsec_millis(), 999);
    let d = Duration::from_millis(u64::MAX);
    assert_eq!(d.as_secs(), u64::MAX / 1000);
    assert_eq!(d.subsec_millis(), (u64::MAX % 1000) as u32);
}

#[test]
fn zero_is_no_time_at_all() {
    let d = Duration::zero();
    assert_eq!(d.as_secs(), 0);
    assert_eq!(d.subsec_nanos(), 0);
    assert_eq!(d.subsec_millis(), 0);
}

#[test]
fn the_dummy_clock_stands_still() {
    let start = DummyTiming::now();
    let now = DummyTiming::now();
    let d = now.duration_since(&start);
    assert_eq!(d.as_secs(), 0);
    assert_eq!(d.subsec_nanos(), 0);
}

#[test]
fn the_monotonic_clock_moves_forward() {
    let start = <Instant as Timing>::now();
    wait_millis(20);
    let now = <Instant as Timing>::now();
    let d = Timing::duration_since(&now, &start);
    assert!(d.subsec_nanos() < 1_000_000_000);
    assert!(d.as_secs() > 0 || d.subsec_millis() >= 20);
    assert!(d.as_secs() < 10);
}

#[test]
fn the_monotonic_clock_never_runs_backwards() {
    let start = <Instant as Timing>::now();
    wait_millis(5);
    let now = <Instant as Timing>::now();
    let d = Timing::duration_since(&start, &now);
    assert_eq!(d.as_secs(), 0);
    assert_eq!(d.subsec_nanos(), 0);
}

#[test]
fn the_monotonic_clock_agrees_with_std() {
    let start = Instant::now();
    wait_millis(3);
    let now = Instant::now();
    let mine = Timing::duration_since(&now, &start);
    let theirs = now.duration_since(start);
    assert_eq!(mine.as_secs(), theirs.as_secs());
    assert_eq!(mine.subsec_nanos(), theirs.subsec_nanos());
}
