//! Atomic operations in the form a destructor needs.
//!
//! A destructor may call only what is known not to unwind. The operations
//! below are std's own; each call goes through a function here that says for
//! which orderings std panics, and that with any other the call returns.

use std::sync::atomic::AtomicBool;
use std::sync::atomic::AtomicU8;
use std::sync::atomic::AtomicUsize;
use std::sync::atomic::Ordering;
use vstd::prelude::*;

verus! {

/// Calls `AtomicBool::store`, which panics for the orderings `Acquire` and
/// `AcqRel` and for no other input. Assumed: with one of the remaining
/// orderings the call returns without unwinding.
#[verifier::external_body]
pub(crate) fn store_bool(flag: &AtomicBool, value: bool, order: Ordering)
    requires
        order is Release || order is Relaxed || order is SeqCst,
    opens_invariants none
    no_unwind
{
    flag.store(value, order)
}

/// Calls `AtomicU8::load`, which panics for the orderings `Release` and
/// `AcqRel` and for no other input. Assumed: with one of the remaining
/// orderings the call returns without unwinding. Nothing is claimed of the
/// value returned, which other threads decide.
#[verifier::external_body]
pub(crate) fn load_u8(byte: &AtomicU8, order: Ordering) -> (value: u8)
    requires
        order is Relaxed || order is Acquire || order is SeqCst,
    opens_invariants none
    no_unwind
{
    byte.load(order)
}

/// Calls `AtomicUsize::fetch_sub`, which subtracts with wrap-around and
/// returns the previous value. Assumed: the call returns without unwinding.
/// Nothing is claimed of the value returned, which other threads decide.
#[verifier::external_body]
pub(crate) fn fetch_sub_usize(count: &AtomicUsize, by: usize, order: Ordering) -> (previous: usize)
    opens_invariants none
    no_unwind
{
    count.fetch_sub(by, order)
}

/// Calls `std::sync::atomic::fence`, which panics for the ordering `Relaxed`
/// and for no other. Assumed: with another ordering the call returns without
/// unwinding.
#[verifier::external_body]
pub(crate) fn fence(order: Ordering)
    requires
        !(order is Relaxed),
    opens_invariants none
    no_unwind
{
    std::sync::atomic::fence(order)
}

} // verus!
