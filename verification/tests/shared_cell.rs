use std::sync::Arc;
use std::sync::Mutex;

use lockstate::LockPoisoned;
use lockstate::NotifyAny;
use lockstate::SharedCell;
use lockstate::UseSharedLock;
use lockstate::attach_consumer;

/// Records every notify invocation so a test can check the fan-out.
#[derive(Clone)]
struct Recorder {
    hits: Arc<Mutex<Vec<u64>>>,
}

impl Recorder {
    fn new() -> Self {
        Recorder { hits: Arc::new(Mutex::new(Vec::new())) }
    }

    fn taken(&self) -> Vec<u64> {
        self.hits.lock().unwrap().clone()
    }
}

impl NotifyAny for Recorder {
    fn notify_any(&self, id: u64) {
        self.hits.lock().unwrap().push(id);
    }
}

fn count_of(hits: &[u64], id: u64) -> usize {
    hits.iter().filter(|&&h| h == id).count()
}

#[test]
fn set_notifies_both_consumers_and_bumps_generation() {
    let recorder = Recorder::new();
    let cell = SharedCell::new(0u32, recorder.clone());
    let a = attach_consumer(Some(cell.clone()), 10, 1).unwrap();
    let b = attach_consumer(Some(cell), 10, 2).unwrap();

    let mut guard = a.write().unwrap();
    guard.set_value(5);
    assert_eq!(guard.generation(), 1);
    guard.release();

    let hits = recorder.taken();
    assert_eq!(count_of(&hits, 1), 1);
    assert_eq!(count_of(&hits, 2), 1);
    assert_eq!(hits.len(), 2);

    let read = b.read().unwrap();
    assert_eq!(*read.value(), 5);
    assert_eq!(read.generation(), 1);
    read.release();
}

#[test]
fn detached_consumer_is_not_notified() {
    let recorder = Recorder::new();
    let cell = SharedCell::new(0u32, recorder.clone());
    let a = attach_consumer(Some(cell.clone()), 11, 1).unwrap();
    let b = attach_consumer(Some(cell), 11, 2).unwrap();

    a.unsubscribe(1);

    let guard = b.write().unwrap();
    guard.release();

    let hits = recorder.taken();
    assert_eq!(count_of(&hits, 1), 0);
    assert_eq!(count_of(&hits, 2), 1);
}

#[test]
fn attach_without_provider_yields_absent() {
    let attached = attach_consumer::<u32, Recorder>(None, 12, 1);
    assert!(attached.is_none());
}

#[test]
fn write_silent_changes_value_but_not_generation_and_notifies_nobody() {
    let recorder = Recorder::new();
    let cell = SharedCell::new(0u32, recorder.clone());
    let a = attach_consumer(Some(cell), 13, 1).unwrap();

    let mut guard = a.write_silent().unwrap();
    guard.set_value(7);
    assert_eq!(guard.generation(), 0);
    guard.release();

    assert!(recorder.taken().is_empty());

    let read = a.read().unwrap();
    assert_eq!(*read.value(), 7);
    assert_eq!(read.generation(), 0);
    read.release();
}

#[test]
fn each_write_bumps_generation_by_one() {
    let recorder = Recorder::new();
    let cell = SharedCell::new(0u32, recorder);
    let a = UseSharedLock::new(cell, 14);

    for expected in 1..=4u64 {
        let guard = a.write().unwrap();
        assert_eq!(guard.generation(), expected);
        guard.release();
    }
}

#[test]
fn subscribing_twice_notifies_once() {
    let recorder = Recorder::new();
    let cell = SharedCell::new(0u32, recorder.clone());
    let a = attach_consumer(Some(cell), 15, 1).unwrap();
    a.subscribe(1);

    let guard = a.write().unwrap();
    guard.release();

    assert_eq!(recorder.taken(), vec![1]);
}

#[test]
fn unsubscribe_of_absent_id_changes_nothing() {
    let recorder = Recorder::new();
    let cell = SharedCell::new(0u32, recorder.clone());
    let a = attach_consumer(Some(cell), 16, 1).unwrap();

    a.unsubscribe(2);
    a.unsubscribe(2);

    let guard = a.write().unwrap();
    guard.release();

    assert_eq!(recorder.taken(), vec![1]);
}

#[test]
fn poisoned_cell_fails_every_access() {
    let recorder = Recorder::new();
    let cell = SharedCell::new(3u32, recorder.clone());
    let mut a = attach_consumer(Some(cell), 17, 1).unwrap();

    a.poison();

    assert_eq!(a.read().err(), Some(LockPoisoned));
    assert_eq!(a.write().err(), Some(LockPoisoned));
    assert_eq!(a.write_silent().err(), Some(LockPoisoned));
    assert_eq!(a.with(|v: &u32| *v).err(), Some(LockPoisoned));
    assert_eq!(a.with_mut(|v: &mut u32| *v).err(), Some(LockPoisoned));
    // a poisoned write bumps nothing and notifies nobody
    assert!(recorder.taken().is_empty());
}

#[test]
fn clones_share_the_cell_and_compare_by_generation() {
    let recorder = Recorder::new();
    let cell = SharedCell::new(0u32, recorder);
    let mut a = UseSharedLock::new(cell, 18);
    let stale = a.clone();
    assert!(a == stale);

    let guard = a.write().unwrap();
    guard.release();

    // the observed generation is refreshed only on revisit
    assert!(a == stale);
    a.refresh();
    assert!(a != stale);

    let mut caught_up = stale.clone();
    caught_up.refresh();
    assert!(a == caught_up);
}

#[test]
fn handles_to_different_cells_are_never_equal() {
    let ra = Recorder::new();
    let rb = Recorder::new();
    let a = UseSharedLock::new(SharedCell::new(0u32, ra), 19);
    let b = UseSharedLock::new(SharedCell::new(0u32, rb), 20);
    assert_eq!(a.generation(), b.generation());
    assert!(a != b);
}

#[test]
fn with_reads_and_with_mut_writes_and_notifies() {
    let recorder = Recorder::new();
    let cell = SharedCell::new(21u32, recorder.clone());
    let mut a = attach_consumer(Some(cell), 21, 5).unwrap();

    let doubled = a.with(|v: &u32| *v * 2).unwrap();
    assert_eq!(doubled, 42);
    assert!(recorder.taken().is_empty());

    let previous = a
        .with_mut(|v: &mut u32| {
            let was = *v;
            *v = 100;
            was
        })
        .unwrap();
    assert_eq!(previous, 21);
    assert_eq!(recorder.taken(), vec![5]);

    let read = a.read().unwrap();
    assert_eq!(*read.value(), 100);
    assert_eq!(read.generation(), 1);
    read.release();
}

#[test]
fn value_mut_edits_in_place() {
    let recorder = Recorder::new();
    let cell = SharedCell::new(String::from("left"), recorder);
    let a = UseSharedLock::new(cell, 22);

    let mut guard = a.write().unwrap();
    guard.value_mut().push_str("-right");
    guard.release();

    let read = a.read().unwrap();
    assert_eq!(read.value().as_str(), "left-right");
    read.release();
}
