use atomics_and_locks::locks::spin_lock::SpinLock;
use std::sync::atomic::AtomicUsize;
use std::sync::atomic::Ordering;
use std::sync::Arc;

struct Probe(Arc<AtomicUsize>);

impl Drop for Probe {
    fn drop(&mut self) {
        self.0.fetch_add(1, Ordering::Relaxed);
    }
}

fn add_one_unless(lock: &SpinLock<u32>, leave: bool) -> Option<u32> {
    let mut guard = lock.try_lock()?;
    if leave {
        return None;
    }
    *guard += 1;
    Some(*guard)
}

#[test]
fn guard_reads_back_what_it_wrote() {
    let lock = SpinLock::new(Vec::new());
    {
        let mut guard = lock.lock().unwrap();
        guard.push(1);
        guard.push(2);
        assert_eq!(guard.as_slice(), [1, 2]);
    }
    let guard = lock.lock().unwrap();
    assert_eq!(guard.as_slice(), [1, 2]);
}

#[test]
fn second_acquisition_waits_for_the_guard() {
    let lock = SpinLock::new(7u32);
    let guard = lock.try_lock().unwrap();
    assert!(lock.try_lock().is_none());
    assert!(lock.lock_within(100).is_none());
    drop(guard);
    assert!(lock.lock_within(100).is_some());
}

#[test]
fn no_rounds_no_guard() {
    let lock = SpinLock::new(0u8);
    assert!(lock.lock_within(0).is_none());
    assert!(lock.lock_within(1000).is_some());
}

#[test]
fn every_append_under_the_lock_lands_once() {
    let lock = SpinLock::new(Vec::new());
    for item in [3, 1, 4, 1, 5, 9, 2, 6] {
        lock.lock().unwrap().push(item);
    }
    let mut list = lock.lock().unwrap().clone();
    assert_eq!(list, [3, 1, 4, 1, 5, 9, 2, 6]);
    list.sort();
    assert_eq!(list, [1, 1, 2, 3, 4, 5, 6, 9]);
}

#[test]
fn guard_releases_on_every_way_out() {
    let lock = SpinLock::new(1);
    assert_eq!(add_one_unless(&lock, true), None);
    assert_eq!(add_one_unless(&lock, false), Some(2));
    assert_eq!(*lock.try_lock().unwrap(), 2);
}

#[test]
fn forced_unlock_does_not_make_a_second_guard() {
    let lock = SpinLock::new(String::from("only one"));
    let guard = lock.try_lock().unwrap();
    lock.unlock();
    assert!(lock.try_lock().is_none());
    assert!(lock.lock_within(10).is_none());
    assert_eq!(guard.as_str(), "only one");
    drop(guard);
    assert_eq!(lock.try_lock().unwrap().as_str(), "only one");
}

#[test]
fn value_goes_with_the_lock() {
    let drops = Arc::new(AtomicUsize::new(0));
    let lock = SpinLock::new(Probe(drops.clone()));
    drop(lock.lock());
    assert_eq!(drops.load(Ordering::Relaxed), 0);
    drop(lock);
    assert_eq!(drops.load(Ordering::Relaxed), 1);
}
