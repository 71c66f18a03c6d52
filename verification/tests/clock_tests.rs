use idle_watch::clock::ActivityClock;
use std::sync::{Arc, Mutex};

#[test]
fn clock_starts_at_start_time() {
    let clock = ActivityClock::new(42);
    assert_eq!(clock.read(), 42);
}

#[test]
fn update_overwrites_whatever_was_stored() {
    let mut clock = ActivityClock::new(1_000);
    clock.update(2_000);
    assert_eq!(clock.read(), 2_000);
    clock.update(500);
    assert_eq!(clock.read(), 500);
    clock.update(u128::MAX);
    assert_eq!(clock.read(), u128::MAX);
}

#[test]
fn read_does_not_change_the_clock() {
    let mut clock = ActivityClock::new(7);
    clock.update(9);
    assert_eq!(clock.read(), 9);
    assert_eq!(clock.read(), 9);
}

#[test]
fn interleaved_readers_see_the_latest_written_value() {
    let shared = Arc::new(Mutex::new(ActivityClock::new(1)));
    let writers: Vec<Arc<Mutex<ActivityClock>>> = (0..4).map(|_| Arc::clone(&shared)).collect();
    let readers: Vec<Arc<Mutex<ActivityClock>>> = (0..3).map(|_| Arc::clone(&shared)).collect();
    let mut latest: u128 = 1;
    let mut written: Vec<u128> = vec![1];
    for round in 0..500u128 {
        for (w, cell) in writers.iter().enumerate() {
            if (round + w as u128) % 3 != 0 {
                latest = (round * 4 + w as u128 + 2) * 0x0001_0001_0001_0001_0001_0001_0001;
                written.push(latest);
                cell.lock().unwrap().update(latest);
            }
            let reader = &readers[(round as usize + w) % readers.len()];
            let seen = reader.lock().unwrap().read();
            assert_eq!(seen, latest);
            assert!(written.contains(&seen));
        }
    }
}
