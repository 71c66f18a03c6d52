use idle_watch::clock::ActivityClock;
use idle_watch::sampler::{IdleSampler, SampleError};

const START: u128 = 1_700_000_000_000;

#[test]
fn fresh_sampler_has_reported_nothing() {
    let sampler = IdleSampler::new(1_000);
    assert_eq!(sampler.threshold(), 1_000);
    assert_eq!(sampler.last_reported(), 0);
}

#[test]
fn gap_equal_to_threshold_is_not_idle() {
    let mut sampler = IdleSampler::new(1_000);
    assert!(!sampler.sample(START + 1_000, START));
    assert_eq!(sampler.last_reported(), 0);
}

#[test]
fn gap_one_past_threshold_is_idle() {
    let mut sampler = IdleSampler::new(1_000);
    assert!(sampler.sample(START + 1_001, START));
    assert_eq!(sampler.last_reported(), START);
}

#[test]
fn one_second_threshold_logs_once_at_second_check() {
    let clock = ActivityClock::new(START);
    let mut sampler = IdleSampler::new(1_000);
    let mut records: Vec<u128> = Vec::new();
    for second in 1..=6u128 {
        let now = START + second * 1_000;
        if sampler.sample(now, clock.read()) {
            records.push(second);
        }
    }
    assert_eq!(records, vec![2]);
}

#[test]
fn steady_activity_never_logs() {
    let mut clock = ActivityClock::new(START);
    let mut sampler = IdleSampler::new(1_000);
    let mut records = 0;
    for step in 1..=10_000u128 {
        let now = START + step * 250;
        if step % 2 == 0 {
            clock.update(now);
        }
        if step % 4 == 0 && sampler.sample(now, clock.read()) {
            records += 1;
        }
    }
    assert_eq!(records, 0);
    assert_eq!(sampler.last_reported(), 0);
}

#[test]
fn unchanged_clock_logs_at_most_once() {
    let mut sampler = IdleSampler::new(300_000);
    let mut records = 0;
    for tick in 0..1_000u128 {
        if sampler.sample(START + tick * 30_000, START) {
            records += 1;
        }
    }
    assert_eq!(records, 1);
    assert_eq!(sampler.last_reported(), START);
}

#[test]
fn new_activity_rearms_the_sampler() {
    let mut clock = ActivityClock::new(START);
    let mut sampler = IdleSampler::new(1_000);
    assert!(sampler.sample(START + 2_000, clock.read()));
    assert!(!sampler.sample(START + 3_000, clock.read()));
    clock.update(START + 3_500);
    assert!(!sampler.sample(START + 4_000, clock.read()));
    assert!(sampler.sample(START + 5_000, clock.read()));
    assert!(!sampler.sample(START + 6_000, clock.read()));
    assert_eq!(sampler.last_reported(), START + 3_500);
}

#[test]
fn clock_value_equal_to_marker_is_never_reported() {
    let mut sampler = IdleSampler::new(1_000);
    assert!(!sampler.sample(5_000, 0));
    assert!(sampler.sample(5_000, 1));
    assert!(!sampler.sample(9_000, 1));
}

#[test]
fn sample_time_before_clock_value_is_not_idle() {
    let mut sampler = IdleSampler::new(0);
    assert!(!sampler.sample(START, START + 10));
    assert!(!sampler.sample(START, START));
    assert!(sampler.sample(START + 1, START));
}

#[test]
fn tick_gives_the_line_for_the_time_of_detection() {
    let mut sampler = IdleSampler::new(1_000);
    assert_eq!(sampler.tick(START + 1_000, START), Ok(None));
    assert_eq!(
        sampler.tick(START + 2_000, START),
        Ok(Some(String::from("idle threshold reached: 14/11/2023 22:13:22\n")))
    );
    assert_eq!(sampler.tick(START + 3_000, START), Ok(None));
    assert_eq!(sampler.last_reported(), START);
}

#[test]
fn tick_fails_when_detection_time_has_no_calendar_date() {
    let mut sampler = IdleSampler::new(1_000);
    assert_eq!(sampler.tick(u128::MAX, START), Err(SampleError::TimeOutOfRange));
    assert_eq!(sampler.last_reported(), START);
    assert_eq!(sampler.tick(u128::MAX, START), Ok(None));
}
