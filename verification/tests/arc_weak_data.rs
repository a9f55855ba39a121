use atomics_and_locks::reference_counting::arc_weak_data::Arc;
use atomics_and_locks::reference_counting::counter::Counts;
use atomics_and_locks::reference_counting::counter::ResourceExhaustion;
use atomics_and_locks::reference_counting::counter::exceeds_limit;
use atomics_and_locks::reference_counting::counter::is_sole;
use atomics_and_locks::reference_counting::counter::raise;
use atomics_and_locks::reference_counting::counter::settle_raise;
use atomics_and_locks::reference_counting::counter::settle_upgrade;
use atomics_and_locks::reference_counting::counter::was_last;
use std::sync::atomic::AtomicUsize;
use std::sync::atomic::Ordering;

struct DetectDrop {
    drops: std::sync::Arc<AtomicUsize>,
}

impl Drop for DetectDrop {
    fn drop(&mut self) {
        self.drops.fetch_add(1, Ordering::Relaxed);
    }
}

fn probe() -> (DetectDrop, std::sync::Arc<AtomicUsize>) {
    let drops = std::sync::Arc::new(AtomicUsize::new(0));
    (DetectDrop { drops: drops.clone() }, drops)
}

#[test]
fn test_drop_weak() {
    let (detect, num_drops) = probe();
    let x = Arc::new(("Hello", detect));
    let y = x.clone().unwrap();

    // x goes to another owner, which reads it and lets it go.
    let moved = x;
    assert_eq!(moved.0, "Hello");
    drop(moved);

    // y is still usable.
    assert_eq!(y.0, "Hello");

    // One handle is gone, the other keeps the payload.
    assert_eq!(num_drops.load(Ordering::Relaxed), 0);

    drop(y);

    // With the last handle the payload is gone.
    assert_eq!(num_drops.load(Ordering::Relaxed), 1);
}

#[test]
fn test_weak_count() {
    let (detect, num_drops) = probe();
    // An Arc with two weak pointers.
    let x = Arc::new(("hello", detect));
    let y = Arc::downgrade(&x).unwrap();
    let z = Arc::downgrade(&x).unwrap();

    {
        // A weak pointer can be upgraded at this point.
        let y = y.upgrade().unwrap().unwrap();
        assert_eq!(y.0, "hello");
    }
    assert_eq!(x.0, "hello");

    // The payload is still there, and the weak pointer can be upgraded.
    assert_eq!(num_drops.load(Ordering::Relaxed), 0);
    assert!(z.upgrade().unwrap().is_some());

    drop(x);

    // Now the payload is gone, and the weak pointer can no longer be upgraded.
    assert_eq!(num_drops.load(Ordering::Relaxed), 1);
    assert!(z.upgrade().unwrap().is_none());
}

#[test]
fn payload_survives_until_the_last_clone() {
    let (detect, num_drops) = probe();
    let first = Arc::new(detect);
    let mut clones = Vec::new();
    for _ in 0..10 {
        clones.push(first.clone().unwrap());
    }
    drop(first);
    while let Some(clone) = clones.pop() {
        assert_eq!(num_drops.load(Ordering::Relaxed), 0);
        drop(clone);
    }
    assert_eq!(num_drops.load(Ordering::Relaxed), 1);
}

#[test]
fn get_mut_needs_the_only_handle() {
    let mut x = Arc::new(10u32);
    *Arc::get_mut(&mut x).unwrap() = 11;
    assert_eq!(*x, 11);

    let y = x.clone().unwrap();
    assert!(Arc::get_mut(&mut x).is_none());
    drop(y);
    *Arc::get_mut(&mut x).unwrap() += 1;
    assert_eq!(*x, 12);

    let w = Arc::downgrade(&x).unwrap();
    assert!(Arc::get_mut(&mut x).is_none());
    drop(w);
    *Arc::get_mut(&mut x).unwrap() += 1;
    assert_eq!(*x, 13);
}

#[test]
fn upgrade_after_get_mut_sees_the_new_payload() {
    let mut x = Arc::new(String::from("a"));
    Arc::get_mut(&mut x).unwrap().push('b');
    let w = Arc::downgrade(&x).unwrap();
    let y = w.upgrade().unwrap().unwrap();
    assert_eq!(y.as_str(), "ab");
    assert!(Arc::get_mut(&mut x).is_none());
}

#[test]
fn upgraded_arc_keeps_the_payload() {
    let (detect, num_drops) = probe();
    let x = Arc::new(detect);
    let w = Arc::downgrade(&x).unwrap();
    let y = w.upgrade().unwrap().unwrap();
    drop(x);
    assert_eq!(num_drops.load(Ordering::Relaxed), 0);
    assert!(w.upgrade().unwrap().is_some());
    assert_eq!(num_drops.load(Ordering::Relaxed), 0);
    drop(y);
    assert_eq!(num_drops.load(Ordering::Relaxed), 1);
    assert!(w.upgrade().unwrap().is_none());
}

#[test]
fn weak_clone_outlives_the_arc() {
    let (detect, num_drops) = probe();
    let x = Arc::new(detect);
    let w = Arc::downgrade(&x).unwrap();
    let v = w.clone().unwrap();
    drop(w);
    assert!(v.upgrade().unwrap().is_some());
    drop(x);
    assert_eq!(num_drops.load(Ordering::Relaxed), 1);
    assert!(v.upgrade().unwrap().is_none());
}

#[test]
fn one_arc_two_weaks() {
    let (detect, num_drops) = probe();
    let x = Arc::new(detect);
    let first = Arc::downgrade(&x).unwrap();
    let second = Arc::downgrade(&x).unwrap();
    assert_eq!(second.counts(), counts(1, 3));
    drop(x);
    assert_eq!(num_drops.load(Ordering::Relaxed), 1);
    assert!(first.upgrade().unwrap().is_none());
    assert!(second.upgrade().unwrap().is_none());
    assert_eq!(second.counts(), counts(0, 2));
    drop(first);
    assert_eq!(second.counts(), counts(0, 1));
    assert!(second.upgrade().unwrap().is_none());
    drop(second);
    assert_eq!(num_drops.load(Ordering::Relaxed), 1);
}

fn counts(data_ref_count: usize, alloc_ref_count: usize) -> Counts {
    Counts { data_ref_count, alloc_ref_count }
}

#[test]
fn counters_follow_the_handles() {
    let x = Arc::new(1u8);
    assert_eq!(Arc::counts(&x), counts(1, 1));

    let y = x.clone().unwrap();
    assert_eq!(Arc::counts(&x), counts(2, 2));

    let w = Arc::downgrade(&x).unwrap();
    assert_eq!(w.counts(), counts(2, 3));

    let v = w.clone().unwrap();
    assert_eq!(w.counts(), counts(2, 4));

    let z = w.upgrade().unwrap().unwrap();
    assert_eq!(w.counts(), counts(3, 5));

    drop(z);
    assert_eq!(w.counts(), counts(2, 4));
    drop(y);
    assert_eq!(w.counts(), counts(1, 3));
    drop(v);
    assert_eq!(Arc::counts(&x), counts(1, 2));
    drop(x);
    assert_eq!(w.counts(), counts(0, 1));

    assert!(w.upgrade().unwrap().is_none());
    assert_eq!(w.counts(), counts(0, 1));
}

#[test]
fn get_mut_goes_by_the_allocation_count() {
    let mut x = Arc::new(0u8);
    assert_eq!(Arc::counts(&x), counts(1, 1));
    assert!(Arc::get_mut(&mut x).is_some());

    let w = Arc::downgrade(&x).unwrap();
    assert_eq!(Arc::counts(&x), counts(1, 2));
    assert!(Arc::get_mut(&mut x).is_none());
    assert_eq!(Arc::counts(&x), counts(1, 2));

    drop(w);
    assert_eq!(Arc::counts(&x), counts(1, 1));
    assert!(Arc::get_mut(&mut x).is_some());
}

#[test]
fn counters_decide() {
    let half = usize::MAX / 2;
    assert!(!exceeds_limit(0));
    assert!(!exceeds_limit(half));
    assert!(exceeds_limit(half + 1));
    assert!(exceeds_limit(usize::MAX));

    assert_eq!(raise(0), None);
    assert_eq!(raise(1), Some(2));
    assert_eq!(raise(41), Some(42));
    assert_eq!(raise(half), Some(half + 1));
    assert_eq!(raise(half + 1), None);
    assert_eq!(raise(usize::MAX), None);

    assert!(was_last(1));
    assert!(!was_last(0));
    assert!(!was_last(2));

    assert!(is_sole(1));
    assert!(!is_sole(0));
    assert!(!is_sole(2));
}

#[test]
fn upgrade_tells_gone_from_exhausted() {
    assert_eq!(settle_upgrade(Ok(1)), Ok(true));
    assert_eq!(settle_upgrade(Ok(usize::MAX / 2)), Ok(true));
    assert_eq!(settle_upgrade(Err(0)), Ok(false));
    assert_eq!(
        settle_upgrade(Err(usize::MAX / 2 + 1)),
        Err(ResourceExhaustion { found: usize::MAX / 2 + 1 })
    );
    assert_eq!(settle_upgrade(Err(usize::MAX)), Err(ResourceExhaustion { found: usize::MAX }));
}

#[test]
fn a_count_past_the_limit_refuses_the_handle() {
    let half = usize::MAX / 2;
    assert_eq!(settle_raise(1), Ok(()));
    assert_eq!(settle_raise(half), Ok(()));
    assert_eq!(settle_raise(half + 1), Err(ResourceExhaustion { found: half + 1 }));
    assert_eq!(settle_raise(usize::MAX), Err(ResourceExhaustion { found: usize::MAX }));
}
