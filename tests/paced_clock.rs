// Runs of the paced producer against the real monotonic clock. The waits
// that the pacer asks for are taken by polling the clock.
use std::time::{Duration, Instant};

use timed_iter::{Pull, TimeIter, TimedIterator};

fn ticks(origin: &Instant) -> u64 {
    origin.elapsed().as_nanos() as u64
}

fn millis(n: u64) -> u64 {
    n * 1_000_000
}

fn hold(origin: &Instant, span: u64) {
    let end = ticks(origin) + span;
    while ticks(origin) < end {
        std::hint::spin_loop();
    }
}

fn pull<I: Iterator>(paced: &mut TimedIterator<I>, origin: &Instant) -> Option<I::Item> {
    loop {
        match paced.next(ticks(origin)) {
            Pull::Wait(span) => hold(origin, span),
            Pull::Ready(item) => return item,
        }
    }
}

#[test]
fn sleep_works() {
    let origin = Instant::now();
    let now = Instant::now();
    let mut paced = (0..3).timed(millis(100), ticks(&origin));
    while let Some(_) = pull(&mut paced, &origin) {}
    assert!(now.elapsed() >= Duration::from_millis(300));
}

#[test]
fn not_sleeping_longer() {
    let origin = Instant::now();
    let now = Instant::now();
    let mut paced = (0..3).timed(millis(100), ticks(&origin));
    while let Some(_) = pull(&mut paced, &origin) {
        hold(&origin, millis(90));
    }
    assert!(now.elapsed() <= Duration::from_millis(401));
}

#[test]
fn consecutive_values_are_an_interval_apart() {
    let origin = Instant::now();
    let mut paced = vec![1, 2, 3, 4].into_iter().timed(millis(20), ticks(&origin));
    let mut stamps = Vec::new();
    while let Some(_) = pull(&mut paced, &origin) {
        stamps.push(origin.elapsed());
    }
    assert_eq!(stamps.len(), 4);
    for pair in stamps.windows(2) {
        assert!(pair[1] - pair[0] >= Duration::from_millis(20));
    }
}

#[test]
fn zero_interval_adds_no_delay() {
    let origin = Instant::now();
    let mut paced = (0..1000).timed(0, ticks(&origin));
    let mut seen = Vec::new();
    while let Some(v) = pull(&mut paced, &origin) {
        seen.push(v);
    }
    assert_eq!(seen, (0..1000).collect::<Vec<_>>());
    assert!(origin.elapsed() < Duration::from_millis(200));
}
