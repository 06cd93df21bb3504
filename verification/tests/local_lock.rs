use std::sync::Arc;
use std::sync::Mutex;

use lockstate::UpdateSignal;
use lockstate::UseLock;

/// Counts how often the owning consumer was told to recompute.
struct Counter {
    count: Mutex<u64>,
}

impl Counter {
    fn new() -> Arc<Self> {
        Arc::new(Counter { count: Mutex::new(0) })
    }

    fn taken(&self) -> u64 {
        *self.count.lock().unwrap()
    }
}

impl UpdateSignal for Counter {
    fn signal(&self) {
        *self.count.lock().unwrap() += 1;
    }
}

#[test]
fn starts_at_generation_zero() {
    let counter = Counter::new();
    let lock = UseLock::new(5u32, counter, 1);
    assert_eq!(lock.generation(), 0);
}

#[test]
fn read_sees_the_initial_value_without_signalling() {
    let counter = Counter::new();
    let lock = UseLock::new(5u32, counter.clone(), 1);
    let guard = lock.read();
    assert_eq!(*guard.value(), 5);
    guard.release();
    assert_eq!(counter.taken(), 0);
}

#[test]
fn set_replaces_the_value_and_signals_once() {
    let counter = Counter::new();
    let lock = UseLock::new(5u32, counter.clone(), 1);
    lock.set(9);
    assert_eq!(counter.taken(), 1);
    let guard = lock.read();
    assert_eq!(*guard.value(), 9);
    guard.release();
}

#[test]
fn write_signals_and_gives_exclusive_access() {
    let counter = Counter::new();
    let lock = UseLock::new(5u32, counter.clone(), 1);
    let mut guard = lock.write();
    assert_eq!(counter.taken(), 1);
    guard.set_value(6);
    guard.release();
    let read = lock.read();
    assert_eq!(*read.value(), 6);
    read.release();
}

#[test]
fn write_silent_does_not_signal() {
    let counter = Counter::new();
    let lock = UseLock::new(5u32, counter.clone(), 1);
    let mut guard = lock.write_silent();
    guard.set_value(8);
    guard.release();
    assert_eq!(counter.taken(), 0);
    let read = lock.read();
    assert_eq!(*read.value(), 8);
    read.release();
}

#[test]
fn with_reads_and_with_mut_writes() {
    let counter = Counter::new();
    let lock = UseLock::new(10u32, counter.clone(), 1);

    let tripled = lock.with(|v: &u32| *v * 3);
    assert_eq!(tripled, 30);
    assert_eq!(counter.taken(), 0);

    let was = lock.with_mut(|v: &mut u32| {
        let was = *v;
        *v += 1;
        was
    });
    assert_eq!(was, 10);
    assert_eq!(counter.taken(), 1);

    assert_eq!(lock.with(|v: &u32| *v), 11);
}

#[test]
fn needs_update_signals_each_call() {
    let counter = Counter::new();
    let lock = UseLock::new(0u32, counter.clone(), 1);
    lock.needs_update();
    lock.needs_update();
    assert_eq!(counter.taken(), 2);
}

#[test]
fn clones_share_the_value_and_equality_tracks_refreshed_generations() {
    let counter = Counter::new();
    let mut lock = UseLock::new(5u32, counter, 1);
    let stale = lock.clone();
    assert!(lock == stale);

    lock.set(6);
    assert_eq!(stale.with(|v: &u32| *v), 6);

    // the observed generation moves only on revisit
    assert!(lock == stale);
    lock.refresh();
    assert!(lock != stale);

    let mut caught_up = stale.clone();
    caught_up.refresh();
    assert!(lock == caught_up);
}

#[test]
fn each_write_bumps_the_generation_by_one() {
    let counter = Counter::new();
    let lock = UseLock::new(0u32, counter, 1);
    for expected in 1..=3u64 {
        let guard = lock.write();
        assert_eq!(guard.generation(), expected);
        guard.release();
    }
}

#[test]
fn set_bumps_the_generation_to_one() {
    let counter = Counter::new();
    let lock = UseLock::new(0u32, counter, 1);
    lock.set(5);
    let guard = lock.read();
    assert_eq!(*guard.value(), 5);
    assert_eq!(guard.generation(), 1);
    guard.release();
}

#[test]
fn with_mut_bumps_the_generation_and_write_silent_does_not() {
    let counter = Counter::new();
    let lock = UseLock::new(0u32, counter, 1);
    lock.with_mut(|v: &mut u32| *v = 3);

    let mut silent = lock.write_silent();
    assert_eq!(silent.generation(), 1);
    silent.set_value(9);
    silent.release();

    let guard = lock.read();
    assert_eq!(*guard.value(), 9);
    assert_eq!(guard.generation(), 1);
    guard.release();
}

#[test]
fn handles_to_different_values_are_never_equal() {
    let ca = Counter::new();
    let cb = Counter::new();
    let a = UseLock::new(5u32, ca, 1);
    let b = UseLock::new(5u32, cb, 2);
    assert!(a != b);
}
