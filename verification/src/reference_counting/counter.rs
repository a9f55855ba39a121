//! The rules by which a reference counter moves.
//!
//! A handle learns what a counter held from the atomic operation that changed
//! it, and decides here, on that plain number, what to do next.

use std::sync::atomic::AtomicUsize;
use std::sync::atomic::Ordering;
use vstd::prelude::*;

verus! {

/// Calls `AtomicUsize::fetch_update` with [`raise`] as the function to apply.
/// As std documents it: the previous value comes back as `Ok` if the function
/// returned `Some` for it, in which case the function's result was stored, and
/// as `Err` if the function returned `None`, in which case nothing was stored.
/// std retries for as long as other threads change the value in between.
/// `fetch_order` must be one that a load accepts.
#[verifier::external_body]
pub(crate) fn raise_atomically(
    count: &AtomicUsize,
    set_order: Ordering,
    fetch_order: Ordering,
) -> (previous: Result<usize, usize>)
    requires
        fetch_order is Relaxed || fetch_order is Acquire || fetch_order is SeqCst,
    ensures
        match previous {
            Ok(count) => raised(count) is Some,
            Err(count) => raised(count) is None,
        },
{
    count.fetch_update(set_order, fetch_order, |count| raise(count))
}

/// What the two counters of a block held when they were looked at.
#[derive(Clone, Copy, PartialEq, Eq, Debug, Structural)]
pub struct Counts {
    /// Number of `Arc`s.
    pub data_ref_count: usize,
    /// Number of `Arc`s and `Weak`s together.
    pub alloc_ref_count: usize,
}

/// A reference counter would overflow. No handle is made and the counters are
/// left as they were; a caller for whom this must be fatal ends the process.
#[derive(Clone, Copy, PartialEq, Eq, Debug, Structural)]
pub struct ResourceExhaustion {
    /// What the counter held when it was to be raised: a count past
    /// [`limit`].
    pub found: usize,
}

/// The largest count from which a counter may still be raised: half of what
/// a `usize` can hold, far from where it would wrap around.
pub open spec fn limit() -> usize {
    usize::MAX / 2
}

/// Whether a count is past [`limit`]: a counter found there is not raised.
pub open spec fn past_limit(count: usize) -> bool {
    count > limit()
}

/// Whether a count is past [`limit`].
pub fn exceeds_limit(count: usize) -> (exceeds: bool)
    ensures
        exceeds == past_limit(count),
    opens_invariants none
    no_unwind
{
    count > usize::MAX / 2
}

/// The count that an upgrade stores over `count`, if it may: one more, unless
/// `count` is zero (the payload is gone) or past [`limit`].
pub open spec fn raised(count: usize) -> Option<usize> {
    if 0 < count <= limit() {
        Some((count + 1) as usize)
    } else {
        None
    }
}

/// The count that an upgrade stores over `count`, if it may.
pub fn raise(count: usize) -> (next: Option<usize>)
    ensures
        next == raised(count),
    opens_invariants none
    no_unwind
{
    if count == 0 || exceeds_limit(count) {
        None
    } else {
        Some(count + 1)
    }
}

/// Whether a decrement that found `previous` took the counter to zero.
pub open spec fn takes_to_zero(previous: usize) -> bool {
    previous == 1
}

/// Whether a decrement that found `previous` took the counter to zero.
pub fn was_last(previous: usize) -> (last: bool)
    ensures
        last == takes_to_zero(previous),
    opens_invariants none
    no_unwind
{
    previous == 1
}

/// Whether an allocation count says that one handle is all there is.
pub open spec fn is_sole_count(count: usize) -> bool {
    count == 1
}

/// Whether an allocation count says that one handle is all there is.
pub fn is_sole(count: usize) -> (sole: bool)
    ensures
        sole == is_sole_count(count),
    opens_invariants none
    no_unwind
{
    count == 1
}

/// What an upgrade does with the outcome of raising the data count.
///
/// `Ok(true)`: the count was raised, and the upgrade goes on to make its
/// `Arc`. `Ok(false)`: the count was found at zero, so the payload is gone.
/// Otherwise the count was found where it cannot be raised, which is
/// exhaustion at the count found.
pub fn settle_upgrade(outcome: Result<usize, usize>) -> (answer: Result<bool, ResourceExhaustion>)
    ensures
        answer == match outcome {
            Ok(_) => Ok::<bool, ResourceExhaustion>(true),
            Err(found) => if found == 0 {
                Ok::<bool, ResourceExhaustion>(false)
            } else {
                Err::<bool, ResourceExhaustion>(ResourceExhaustion { found })
            },
        },
{
    match outcome {
        Ok(_) => Ok(true),
        Err(found) => if found == 0 {
            Ok(false)
        } else {
            Err(ResourceExhaustion { found })
        },
    }
}

/// What a handle in the making does with the count that its increment found:
/// it goes on if the count was within [`limit`], and is refused, with the
/// count found, if it was past it.
pub fn settle_raise(previous: usize) -> (answer: Result<(), ResourceExhaustion>)
    ensures
        answer == if past_limit(previous) {
            Err::<(), ResourceExhaustion>(ResourceExhaustion { found: previous })
        } else {
            Ok::<(), ResourceExhaustion>(())
        },
{
    if exceeds_limit(previous) {
        Err(ResourceExhaustion { found: previous })
    } else {
        Ok(())
    }
}

} // verus!
