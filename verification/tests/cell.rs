use atomics_and_locks::cell::copy_of;
use atomics_and_locks::cell::Glimpse;
use atomics_and_locks::cell::Slot;

#[test]
fn exchange_swaps_both_ways() {
    let slot = Slot::new(Some(1));
    let mut held = Some(2);
    assert!(slot.exchange(&mut held));
    assert_eq!(held, Some(1));
    assert!(slot.exchange(&mut held));
    assert_eq!(held, Some(2));
    assert_eq!(slot.take(), Some(1));
}

#[test]
fn take_leaves_the_slot_empty() {
    let slot = Slot::new(Some("x"));
    assert_eq!(slot.take(), Some("x"));
    assert_eq!(slot.take(), None);
}

#[test]
fn put_hands_back_what_it_displaced() {
    let slot = Slot::new(None);
    assert_eq!(slot.put(1), Ok(None));
    assert_eq!(slot.put(2), Ok(Some(1)));
    assert_eq!(slot.take(), Some(2));
}

#[test]
fn glimpse_leaves_the_pointer_in_place() {
    let slot = Slot::new(Some(std::sync::Arc::new(9)));
    let copy = match slot.glimpse() {
        Glimpse::Holds(copy) => copy,
        _ => panic!("the slot holds a pointer"),
    };
    assert_eq!(*copy, 9);
    let stored = slot.take().unwrap();
    assert!(std::sync::Arc::ptr_eq(&copy, &stored));
    assert_eq!(std::sync::Arc::strong_count(&copy), 2);
    assert!(matches!(slot.glimpse(), Glimpse::Empty));
}

#[test]
fn copy_of_reports_what_is_there() {
    let stored = Some(std::sync::Arc::new(4));
    match copy_of(&stored) {
        Glimpse::Holds(copy) => {
            assert!(std::sync::Arc::ptr_eq(&copy, stored.as_ref().unwrap()));
            assert_eq!(*copy, 4);
        }
        _ => panic!("a pointer is stored"),
    }
    assert!(matches!(copy_of::<u8>(&None), Glimpse::Empty));
}
