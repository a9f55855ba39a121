//! A reference-counted pointer without weak references.
//!
//! One counter, `ref_count`, counts the [`Arc`]s to an allocation that holds
//! the payload beside it. The payload lives as long as any `Arc` does.

use crate::atomic::fetch_sub_usize;
use crate::cell::share;
use crate::reference_counting::counter::past_limit;
use crate::reference_counting::counter::settle_raise;
use crate::reference_counting::counter::ResourceExhaustion;
use std::sync::atomic::AtomicUsize;
use std::sync::atomic::Ordering;
use vstd::prelude::*;

verus! {

/// The allocation that all handles share.
struct ArcData<T> {
    ref_count: AtomicUsize,
    data: T,
}

/// A handle that keeps the payload.
pub struct Arc<T> {
    shared: std::sync::Arc<ArcData<T>>,
}

impl<T> Arc<T> {
    /// The payload.
    pub closed spec fn view(&self) -> T {
        self.shared.data
    }

    /// Whether two handles hold the same allocation. An `Arc` is nothing but
    /// its hold on an allocation, so two that hold the same one are equal.
    pub open spec fn same_allocation(&self, other: &Arc<T>) -> bool {
        *self == *other
    }

    /// A new allocation with `data` as its payload and the counter at one.
    pub fn new(data: T) -> (arc: Arc<T>)
        ensures
            arc@ == data,
    {
        Arc { shared: std::sync::Arc::new(ArcData { ref_count: AtomicUsize::new(1), data }) }
    }

    /// Another `Arc` to the same payload: raises the counter (relaxed). A
    /// counter found past the limit is put back and the clone is refused,
    /// with the count found; nothing else refuses a clone.
    pub fn clone(&self) -> (copy: Result<Arc<T>, ResourceExhaustion>)
        ensures
            match copy {
                Ok(arc) => arc@ == self@ && arc.same_allocation(self),
                Err(refusal) => past_limit(refusal.found),
            },
    {
        let previous: usize = self.shared.ref_count.fetch_add(1, Ordering::Relaxed);
        match settle_raise(previous) {
            Ok(_) => Ok(Arc { shared: share(&self.shared) }),
            Err(refusal) => {
                let _ = fetch_sub_usize(&self.shared.ref_count, 1, Ordering::Relaxed);
                Err(refusal)
            },
        }
    }
}

impl<T> std::ops::Deref for Arc<T> {
    type Target = T;

    /// The payload.
    fn deref(&self) -> (payload: &T)
        ensures
            *payload == self@,
    {
        &self.shared.data
    }
}

impl<T> Drop for Arc<T> {
    /// Gives up this handle's claim: decrements the counter with release
    /// ordering. The allocation goes with its last handle.
    fn drop(&mut self)
        opens_invariants none
        no_unwind
    {
        let _ = fetch_sub_usize(&self.shared.ref_count, 1, Ordering::Release);
    }
}

} // verus!
