use pixel_shapes::fps::{FpsCounter, WINDOW_NANOS};

const MS: u128 = 1_000_000;

#[test]
fn window_is_one_second() {
    assert_eq!(WINDOW_NANOS, 1_000_000_000);
}

#[test]
fn first_frame_counts_itself() {
    let mut counter = FpsCounter::new();
    assert_eq!(counter.record(0), (0, 1));
    let mut counter = FpsCounter::new();
    assert_eq!(counter.record(16 * MS), (16 * MS, 1));
}

#[test]
fn frames_within_a_second_are_counted() {
    let mut counter = FpsCounter::new();
    assert_eq!(counter.record(100 * MS), (100 * MS, 1));
    assert_eq!(counter.record(350 * MS), (250 * MS, 2));
    assert_eq!(counter.record(600 * MS), (250 * MS, 3));
    assert_eq!(counter.record(1099 * MS), (499 * MS, 4));
}

#[test]
fn a_frame_exactly_a_second_old_is_counted() {
    let mut counter = FpsCounter::new();
    assert_eq!(counter.record(0), (0, 1));
    assert_eq!(counter.record(WINDOW_NANOS), (WINDOW_NANOS, 2));
    let mut counter = FpsCounter::new();
    assert_eq!(counter.record(0), (0, 1));
    assert_eq!(counter.record(WINDOW_NANOS + 1), (WINDOW_NANOS + 1, 1));
}

#[test]
fn frames_older_than_a_second_are_evicted() {
    let mut counter = FpsCounter::new();
    assert_eq!(counter.record(0), (0, 1));
    assert_eq!(counter.record(500 * MS), (500 * MS, 2));
    // 0 is exactly a second old: it stays
    assert_eq!(counter.record(1000 * MS), (500 * MS, 3));
    // 0 is older than a second and leaves
    assert_eq!(counter.record(1500 * MS - 1), (500 * MS - 1, 3));
    // 500 ms is exactly a second old: it stays
    assert_eq!(counter.record(1500 * MS), (1, 4));
    assert_eq!(counter.record(10_000 * MS), (8500 * MS, 1));
}

#[test]
fn fifty_frames_a_second() {
    let mut counter = FpsCounter::new();
    let step = 20 * MS;
    let mut last = (0, 0);
    for frame in 1..=200u128 {
        last = counter.record(frame * step);
        assert_eq!(last.0, step);
    }
    // the frame exactly a second back is counted with the fifty after it
    assert_eq!(last.1, 51);
}

#[test]
fn a_clock_that_steps_back_gives_no_negative_time() {
    let mut counter = FpsCounter::new();
    assert_eq!(counter.record(2000 * MS), (2000 * MS, 1));
    assert_eq!(counter.record(1500 * MS), (0, 2));
    assert_eq!(counter.record(2600 * MS), (1100 * MS, 2));
}

#[test]
fn largest_times_do_not_overflow() {
    let mut counter = FpsCounter::new();
    assert_eq!(counter.record(u128::MAX), (u128::MAX, 1));
    assert_eq!(counter.record(u128::MAX), (0, 2));
    assert_eq!(counter.record(0), (0, 3));
}

#[test]
fn update_reads_the_clock() {
    let mut counter = FpsCounter::new();
    let (first_time, first_count) = counter.update();
    assert_eq!(first_count, 1);
    let (_, second_count) = counter.update();
    assert!(second_count == 2 || second_count == 1);
    assert!(first_time < 60 * WINDOW_NANOS);
}
