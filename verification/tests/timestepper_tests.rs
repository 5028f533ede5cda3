use client::timestepper::{
    EARLIEST_INSTANT_NANOS, FixedTimeStepper, LATEST_INSTANT_NANOS, GAME_TIME_STEP_NANOS, MAX_TIME_BETWEEN_STEPS_NANOS,
    MAX_SIGNED_SPAN_NANOS, MAX_UNSIGNED_SPAN_NANOS, MIN_SIGNED_SPAN_NANOS,
};

const MS: i128 = 1_000_000;

#[test]
fn default_step_lengths() {
    assert_eq!(GAME_TIME_STEP_NANOS, 16_667_000);
    assert_eq!(MAX_TIME_BETWEEN_STEPS_NANOS, 250 * MS);
    let mut s = FixedTimeStepper::default_started_at(1_000);
    assert_eq!(s.accumulated(), 0);
    assert_eq!(s.get_time_since_last_step(), 0);
    assert_eq!(s.last_checked_time(), 1_000);
    assert!(!s.step(1_000 + 16_666_999));
    assert!(s.step(1_000 + 16_667_000));
    assert_eq!(s.accumulated(), 0);
}

#[test]
fn no_tick_before_a_full_step() {
    let mut s = FixedTimeStepper::new(10, 100, 1_000);
    assert!(!s.step(1_009));
    assert_eq!(s.accumulated(), 9);
    assert_eq!(s.get_time_since_last_step(), 9);
    assert_eq!(s.last_checked_time(), 1_009);
}

#[test]
fn exactly_one_step_ticks_and_empties() {
    let mut s = FixedTimeStepper::new(10, 100, 0);
    assert!(s.step(10));
    assert_eq!(s.accumulated(), 0);
}

#[test]
fn draining_at_one_instant_reports_each_pending_tick() {
    let mut s = FixedTimeStepper::new(10, 100, 0);
    let mut ticks = 0;
    while s.step(35) {
        ticks += 1;
    }
    assert_eq!(ticks, 3);
    assert_eq!(s.accumulated(), 5);
    assert!(!s.step(35));
    assert_eq!(s.accumulated(), 5);
    assert_eq!(s.get_time_since_last_step(), 0);
}

#[test]
fn long_frames_are_capped() {
    let mut s = FixedTimeStepper::new(10, 100, 0);
    assert!(s.step(1_000));
    // only 100 of the 1000 elapsed count; one step of 10 is consumed
    assert_eq!(s.accumulated(), 90);
    // the frame time itself is reported uncapped
    assert_eq!(s.get_time_since_last_step(), 1_000);
}

#[test]
fn default_cap_is_a_quarter_second() {
    let mut s = FixedTimeStepper::new(GAME_TIME_STEP_NANOS, MAX_TIME_BETWEEN_STEPS_NANOS, 0);
    assert!(s.step(10_000 * MS));
    assert_eq!(s.accumulated(), 250 * MS - 16_667_000);
}

#[test]
fn clock_going_back_drains_the_accumulator() {
    let mut s = FixedTimeStepper::new(10, 100, 0);
    assert!(!s.step(5));
    assert_eq!(s.accumulated(), 5);
    assert!(!s.step(0));
    assert_eq!(s.accumulated(), 0);
    assert!(!s.step(-20));
    assert_eq!(s.accumulated(), -20);
    assert_eq!(s.get_time_since_last_step(), -20);
    // it takes 30 ns to reach a tick again
    assert!(!s.step(9));
    assert!(s.step(10));
    assert_eq!(s.accumulated(), 0);
}

#[test]
fn elapsed_time_is_conserved_within_the_cap() {
    let mut s = FixedTimeStepper::new(16, 50, 0);
    let times = [7i128, 30, 31, 80, 95, 140, 141, 141, 141];
    let mut ticks: i128 = 0;
    for t in times {
        if s.step(t) {
            ticks += 1;
        }
    }
    assert_eq!(s.accumulated() + ticks * 16, 141);
}

#[test]
fn zero_step_ticks_on_every_observation() {
    let mut s = FixedTimeStepper::new(0, 100, 0);
    assert!(s.step(0));
    assert!(s.step(0));
    assert_eq!(s.accumulated(), 0);
}

#[test]
fn step_longer_than_any_signed_span_never_ticks() {
    let mut s = FixedTimeStepper::new(MAX_UNSIGNED_SPAN_NANOS, MAX_SIGNED_SPAN_NANOS, 0);
    assert!(!s.step(1_000_000));
    assert_eq!(s.accumulated(), 1_000_000);
}

#[test]
fn can_step_at_detects_accumulator_overflow() {
    // a cap as large as any SignedDuration lets one observation fill the accumulator
    let mut s = FixedTimeStepper::new(MAX_UNSIGNED_SPAN_NANOS, MAX_SIGNED_SPAN_NANOS, EARLIEST_INSTANT_NANOS);
    assert!(s.can_step_at(LATEST_INSTANT_NANOS));
    assert!(!s.step(LATEST_INSTANT_NANOS));
    assert!(s.can_step_at(LATEST_INSTANT_NANOS));
    // a cap of the most negative span counts that span on every observation
    let mut t = FixedTimeStepper::new(10, MIN_SIGNED_SPAN_NANOS, 0);
    assert!(t.can_step_at(0));
    assert!(!t.step(0));
    assert_eq!(t.accumulated(), MIN_SIGNED_SPAN_NANOS);
    // a second such observation would leave the range, where the duration sum panics
    assert!(!t.can_step_at(0));
    let mut u = FixedTimeStepper::new(10, MAX_SIGNED_SPAN_NANOS, LATEST_INSTANT_NANOS);
    assert!(!u.step(EARLIEST_INSTANT_NANOS));
    assert_eq!(u.accumulated(), EARLIEST_INSTANT_NANOS - LATEST_INSTANT_NANOS);
    assert!(u.can_step_at(EARLIEST_INSTANT_NANOS));
}
