use std::sync::{Condvar, Mutex};
use std::time::{Duration, Instant};

use coffee_shop::sleep::{cancel_sleep, cancellable_sleep};

/// Parks on the condition variable for as long as the library says.
fn sleep_on(pair: &(Mutex<bool>, Condvar), max_wait: Duration) {
    let (lock, cvar) = pair;
    let mut flag = lock.lock().unwrap();
    let start = Instant::now();
    while let Some(nanos) =
        cancellable_sleep(&mut flag, start.elapsed().as_nanos(), max_wait.as_nanos())
    {
        let wait = Duration::new((nanos / 1_000_000_000) as u64, (nanos % 1_000_000_000) as u32);
        flag = cvar.wait_timeout(flag, wait).unwrap().0;
    }
}

fn wake(pair: &(Mutex<bool>, Condvar)) {
    let (lock, cvar) = pair;
    let mut flag = lock.lock().unwrap();
    cancel_sleep(&mut flag);
    cvar.notify_all();
}

#[test]
fn undisturbed_sleep_lasts_its_whole_length() {
    let pair = (Mutex::new(false), Condvar::new());
    let start = Instant::now();
    sleep_on(&pair, Duration::from_millis(150));
    assert!(start.elapsed() >= Duration::from_millis(150));
    assert!(!*pair.0.lock().unwrap());
}

#[test]
fn signalled_ten_second_sleep_returns_at_once() {
    let pair = (Mutex::new(false), Condvar::new());
    wake(&pair);
    let start = Instant::now();
    sleep_on(&pair, Duration::from_secs(10));
    assert!(start.elapsed() < Duration::from_secs(5));
}

#[test]
fn sleep_after_a_cancelled_one_is_whole_again() {
    let pair = (Mutex::new(false), Condvar::new());
    wake(&pair);
    let start = Instant::now();
    sleep_on(&pair, Duration::from_secs(10));
    assert!(start.elapsed() < Duration::from_secs(5));
    assert!(!*pair.0.lock().unwrap());

    let start = Instant::now();
    sleep_on(&pair, Duration::from_millis(150));
    assert!(start.elapsed() >= Duration::from_millis(150));
}
