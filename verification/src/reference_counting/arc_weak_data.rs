//! A reference-counted pointer with weak references.
//!
//! All handles to one payload share a block with two counters:
//! `data_ref_count`, the number of [`Arc`]s, and `alloc_ref_count`, the number
//! of [`Arc`]s and [`Weak`]s together (every `Arc` holds a `Weak` inside).
//! While `data_ref_count` is above zero the block keeps the payload within
//! reach of [`Weak::upgrade`]; the `Arc` that takes it to zero withdraws the
//! payload, and with that `Arc` the payload is destroyed, whatever `Weak`s
//! remain.
//!
//! Memory is handed back by `std::sync::Arc`, which carries both the block
//! and the payload; this module decides with its own counters what a handle
//! may do.

use crate::atomic::fence;
use crate::atomic::fetch_sub_usize;
use crate::cell::share;
use crate::cell::sole_mut;
use crate::cell::Glimpse;
use crate::cell::Slot;
use crate::reference_counting::counter::is_sole;
use crate::reference_counting::counter::is_sole_count;
use crate::reference_counting::counter::raise_atomically;
use crate::reference_counting::counter::raised;
use crate::reference_counting::counter::past_limit;
use crate::reference_counting::counter::settle_raise;
use crate::reference_counting::counter::settle_upgrade;
use crate::reference_counting::counter::takes_to_zero;
use crate::reference_counting::counter::was_last;
use crate::reference_counting::counter::Counts;
use crate::reference_counting::counter::ResourceExhaustion;
use std::sync::atomic::AtomicUsize;
use std::sync::atomic::Ordering;
use vstd::prelude::*;

verus! {

/// The block that all handles to one payload share.
#[verifier::reject_recursive_types(T)]
struct ArcData<T> {
    /// Number of `Arc`s.
    data_ref_count: AtomicUsize,
    /// Number of `Arc`s and `Weak`s together.
    alloc_ref_count: AtomicUsize,
    /// The payload, for as long as an upgrade may still reach it.
    data: Slot<std::sync::Arc<T>>,
}

/// A handle that keeps the block but not the payload.
#[verifier::reject_recursive_types(T)]
pub struct Weak<T> {
    block: std::sync::Arc<ArcData<T>>,
}

/// A handle that keeps the payload.
///
/// The fields are dropped in this order: the pointer to the payload goes
/// before the `Weak` lowers `alloc_ref_count`, so that a handle which finds
/// that count at one is alone with the payload too.
#[verifier::reject_recursive_types(T)]
pub struct Arc<T> {
    payload: std::sync::Arc<T>,
    weak: Weak<T>,
}

impl<T> ArcData<T> {
    /// Gives up one claim on the payload: decrements `data_ref_count` with
    /// release ordering and, if that took it to zero, synchronises with every
    /// earlier release by an acquire fence and withdraws the payload.
    fn release_data(&self)
        opens_invariants none
        no_unwind
    {
        let previous: usize = fetch_sub_usize(&self.data_ref_count, 1, Ordering::Release);
        if was_last(previous) {
            fence(Ordering::Acquire);
            self.withdraw();
        }
    }

    /// Takes the payload out of reach of upgrades. A slot found in use is a
    /// matter of a moment (a pointer is being copied), so the attempt is
    /// repeated.
    fn withdraw(&self)
        opens_invariants none
        no_unwind
    {
        let mut withdrawn: Option<std::sync::Arc<T>> = None;
        let mut left: usize = usize::MAX;
        while left > 0
            decreases left,
        {
            if self.data.exchange(&mut withdrawn) {
                break ;
            }
            left = left - 1;
        }
    }

    /// Puts `payload` within reach of upgrades, unless the slot holds it
    /// already.
    fn publish(&self, payload: &std::sync::Arc<T>) {
        let mut left: usize = usize::MAX;
        while left > 0
            decreases left,
        {
            match self.data.glimpse() {
                Glimpse::Holds(_) => {
                    break ;
                },
                Glimpse::Empty => {
                    let _ = self.data.put(share(payload));
                },
                Glimpse::Busy => {},
            }
            left = left - 1;
        }
    }

    /// A pointer to the payload, if it is within reach.
    fn published(&self) -> (payload: Option<std::sync::Arc<T>>) {
        let mut left: usize = usize::MAX;
        while left > 0
            decreases left,
        {
            match self.data.glimpse() {
                Glimpse::Holds(payload) => {
                    return Some(payload);
                },
                Glimpse::Empty => {
                    return None;
                },
                Glimpse::Busy => {},
            }
            left = left - 1;
        }
        None
    }
}

impl<T> Arc<T> {
    /// The payload.
    pub closed spec fn view(&self) -> T {
        *self.payload
    }

    /// The `Weak` that this `Arc` holds inside: its claim on the block.
    pub closed spec fn claim(&self) -> Weak<T> {
        self.weak
    }

    /// A new allocation with `data` as its payload and both counters at one.
    pub fn new(data: T) -> (arc: Arc<T>)
        ensures
            arc@ == data,
    {
        let payload = std::sync::Arc::new(data);
        let block = ArcData {
            data_ref_count: AtomicUsize::new(1),
            alloc_ref_count: AtomicUsize::new(1),
            data: Slot::new(Some(share(&payload))),
        };
        Arc { payload, weak: Weak { block: std::sync::Arc::new(block) } }
    }

    /// Another `Arc` to the same payload: raises both counters (relaxed).
    ///
    /// A counter found past [`limit`] is put back and the clone is refused,
    /// with the count found; nothing else refuses a clone.
    pub fn clone(&self) -> (copy: Result<Arc<T>, ResourceExhaustion>)
        ensures
            match copy {
                Ok(arc) => arc@ == self@ && arc.claim().same_allocation(&self.claim()),
                Err(refusal) => past_limit(refusal.found),
            },
    {
        let weak = match self.weak.clone() {
            Ok(weak) => weak,
            Err(refusal) => {
                return Err(refusal);
            },
        };
        let previous: usize = weak.block.data_ref_count.fetch_add(1, Ordering::Relaxed);
        match settle_raise(previous) {
            Ok(_) => Ok(Arc { payload: share(&self.payload), weak }),
            Err(refusal) => {
                let _ = fetch_sub_usize(&weak.block.data_ref_count, 1, Ordering::Relaxed);
                Err(refusal)
            },
        }
    }

    /// Exclusive access to the payload, granted only if `alloc_ref_count` is
    /// one: no other `Arc` and no `Weak` exists. An acquire fence then makes
    /// every write of a handle dropped earlier visible. Never blocks or
    /// retries.
    ///
    /// What is written through the reference is the payload afterwards.
    pub fn get_mut(arc: &mut Self) -> (payload: Option<&mut T>)
        ensures
            match payload {
                Some(inner) => *inner == old(arc)@ && final(arc)@ == *final(inner),
                None => final(arc)@ == old(arc)@,
            },
            final(arc).claim() == old(arc).claim(),
    {
        let found: usize = arc.weak.block.alloc_ref_count.load(Ordering::Relaxed);
        Arc::lend(arc, found)
    }

    /// Lends the payload to an `Arc` that found `found` in `alloc_ref_count`:
    /// to none that found another count than one.
    fn lend(arc: &mut Self, found: usize) -> (payload: Option<&mut T>)
        ensures
            payload is Some ==> is_sole_count(found),
            match payload {
                Some(inner) => *inner == old(arc)@ && final(arc)@ == *final(inner),
                None => final(arc)@ == old(arc)@,
            },
            final(arc).claim() == old(arc).claim(),
    {
        if is_sole(found) {
            fence(Ordering::Acquire);
            arc.weak.block.withdraw();
            sole_mut(&mut arc.payload)
        } else {
            None
        }
    }

    /// What the counters hold, each by a relaxed load. With other threads at
    /// work the answer may be stale as soon as it is given.
    pub fn counts(arc: &Self) -> (counts: Counts) {
        arc.weak.counts()
    }

    /// A `Weak` to the same allocation: raises `alloc_ref_count` only. The
    /// count found past [`limit`] is put back and refuses the `Weak`; nothing
    /// else does.
    pub fn downgrade(arc: &Self) -> (weak: Result<Weak<T>, ResourceExhaustion>)
        ensures
            match weak {
                Ok(made) => made.same_allocation(&arc.claim()),
                Err(refusal) => past_limit(refusal.found),
            },
    {
        let weak = match arc.weak.clone() {
            Ok(weak) => weak,
            Err(refusal) => {
                return Err(refusal);
            },
        };
        weak.block.publish(&arc.payload);
        Ok(weak)
    }
}

impl<T> std::ops::Deref for Arc<T> {
    type Target = T;

    /// The payload, which is there for as long as any `Arc` is.
    fn deref(&self) -> (payload: &T)
        ensures
            *payload == self@,
    {
        &self.payload
    }
}

impl<T> Drop for Arc<T> {
    /// Gives up this handle's claim on the payload; its claim on the block
    /// goes with the `Weak` inside.
    fn drop(&mut self)
        opens_invariants none
        no_unwind
    {
        self.weak.block.release_data();
    }
}

impl<T> Weak<T> {
    /// Whether two handles hold the same block. A `Weak` is nothing but its
    /// hold on a block, so two that hold the same block are equal.
    pub open spec fn same_allocation(&self, other: &Weak<T>) -> bool {
        *self == *other
    }

    /// An `Arc` to the payload, if the payload is still there.
    ///
    /// Raises `data_ref_count` from the value it finds to one more, unless it
    /// finds zero, and tries again if another thread changed the counter in
    /// between (relaxed); then registers as an owner of the block. `Ok(None)`
    /// says that the payload is gone.
    pub fn upgrade(&self) -> (arc: Result<Option<Arc<T>>, ResourceExhaustion>)
        ensures
            match arc {
                Ok(Some(made)) => made.claim().same_allocation(self),
                Ok(None) => true,
                Err(refusal) => past_limit(refusal.found),
            },
    {
        let raising = raise_atomically(
            &self.block.data_ref_count,
            Ordering::Relaxed,
            Ordering::Relaxed,
        );
        match settle_upgrade(raising) {
            Err(refusal) => Err(refusal),
            Ok(false) => Ok(None),
            Ok(true) => self.enlist(self.block.published()),
        }
    }

    /// Ends an upgrade that has raised the data count, given what it found
    /// within reach: the `Arc` made holds the payload found and this handle's
    /// block. Where nothing was found, or the claim on the block is refused,
    /// the data count is given back and no `Arc` is made.
    fn enlist(&self, found: Option<std::sync::Arc<T>>) -> (arc: Result<
        Option<Arc<T>>,
        ResourceExhaustion,
    >)
        ensures
            match found {
                Some(payload) => match arc {
                    Ok(Some(made)) => made@ == *payload && made.claim().same_allocation(self),
                    Ok(None) => false,
                    Err(refusal) => past_limit(refusal.found),
                },
                None => arc == Ok::<Option<Arc<T>>, ResourceExhaustion>(None),
            },
    {
        match found {
            Some(payload) => match self.clone() {
                Ok(weak) => Ok(Some(Arc { payload, weak })),
                Err(refusal) => {
                    self.block.release_data();
                    Err(refusal)
                },
            },
            None => {
                self.block.release_data();
                Ok(None)
            },
        }
    }

    /// What the counters hold, each by a relaxed load. With other threads at
    /// work the answer may be stale as soon as it is given.
    pub fn counts(&self) -> (counts: Counts) {
        Counts {
            data_ref_count: self.block.data_ref_count.load(Ordering::Relaxed),
            alloc_ref_count: self.block.alloc_ref_count.load(Ordering::Relaxed),
        }
    }

    /// Another `Weak` to the same allocation: raises `alloc_ref_count`
    /// (relaxed). A counter found past [`limit`] is put back and the clone is
    /// refused, with the count found; nothing else refuses a clone.
    pub fn clone(&self) -> (copy: Result<Weak<T>, ResourceExhaustion>)
        ensures
            match copy {
                Ok(made) => made.same_allocation(self),
                Err(refusal) => past_limit(refusal.found),
            },
    {
        let previous: usize = self.block.alloc_ref_count.fetch_add(1, Ordering::Relaxed);
        match settle_raise(previous) {
            Ok(_) => Ok(Weak { block: share(&self.block) }),
            Err(refusal) => {
                let _ = fetch_sub_usize(&self.block.alloc_ref_count, 1, Ordering::Relaxed);
                Err(refusal)
            },
        }
    }
}

impl<T> Drop for Weak<T> {
    /// Gives up this handle's claim on the block: decrements
    /// `alloc_ref_count` with release ordering. The block's memory goes when
    /// its last handle has gone, which is never before the payload went.
    fn drop(&mut self)
        opens_invariants none
        no_unwind
    {
        let _ = fetch_sub_usize(&self.block.alloc_ref_count, 1, Ordering::Release);
    }
}

/// The shared block as it runs when one handle at a time acts on it: the two
/// counters and whether the payload is there, beside the handles that exist.
pub struct Ledger {
    /// What `data_ref_count` holds.
    pub data_ref_count: usize,
    /// What `alloc_ref_count` holds.
    pub alloc_ref_count: usize,
    /// Whether the payload has not been destroyed.
    pub payload: bool,
    /// How many `Arc`s exist.
    pub arcs: nat,
    /// How many `Weak`s exist, those inside `Arc`s not counted.
    pub weaks: nat,
}

impl Ledger {
    /// The counters count the handles, and the payload is there exactly
    /// while an `Arc` is.
    pub open spec fn balanced(self) -> bool {
        &&& self.data_ref_count == self.arcs
        &&& self.alloc_ref_count == self.arcs + self.weaks
        &&& self.payload <==> self.data_ref_count > 0
    }

    /// What [`Weak::counts`] finds.
    pub open spec fn counts(self) -> Counts {
        Counts { data_ref_count: self.data_ref_count, alloc_ref_count: self.alloc_ref_count }
    }

    /// Whether the block is still allocated: some handle holds it.
    pub open spec fn allocated(self) -> bool {
        self.alloc_ref_count > 0
    }

    /// The block as [`Arc::new`] makes it.
    pub open spec fn created() -> Ledger {
        Ledger { data_ref_count: 1, alloc_ref_count: 1, payload: true, arcs: 1, weaks: 0 }
    }

    /// `Weak::clone` and `Arc::downgrade`: one more `Weak`, unless the
    /// allocation count is past the limit.
    pub open spec fn add_weak(self) -> Option<Ledger> {
        if past_limit(self.alloc_ref_count) {
            None
        } else {
            Some(
                Ledger {
                    alloc_ref_count: (self.alloc_ref_count + 1) as usize,
                    weaks: self.weaks + 1,
                    ..self
                },
            )
        }
    }

    /// `Arc::clone`: one more `Arc`, unless a count is past the limit.
    pub open spec fn add_arc(self) -> Option<Ledger> {
        if past_limit(self.alloc_ref_count) || past_limit(self.data_ref_count) {
            None
        } else {
            Some(
                Ledger {
                    data_ref_count: (self.data_ref_count + 1) as usize,
                    alloc_ref_count: (self.alloc_ref_count + 1) as usize,
                    arcs: self.arcs + 1,
                    ..self
                },
            )
        }
    }

    /// `Weak::upgrade`: one more `Arc` if [`raised`] allows it and the
    /// allocation count is within the limit; otherwise nothing changes.
    pub open spec fn upgrade(self) -> Option<Ledger> {
        match raised(self.data_ref_count) {
            Some(count) => if past_limit(self.alloc_ref_count) {
                None
            } else {
                Some(
                    Ledger {
                        data_ref_count: count,
                        alloc_ref_count: (self.alloc_ref_count + 1) as usize,
                        arcs: self.arcs + 1,
                        ..self
                    },
                )
            },
            None => None,
        }
    }

    /// Dropping an `Arc`: both counters go down, and the payload goes if this
    /// was the last `Arc`.
    pub open spec fn drop_arc(self) -> Ledger {
        Ledger {
            data_ref_count: (self.data_ref_count - 1) as usize,
            alloc_ref_count: (self.alloc_ref_count - 1) as usize,
            payload: self.payload && !takes_to_zero(self.data_ref_count),
            arcs: (self.arcs - 1) as nat,
            weaks: self.weaks,
        }
    }

    /// Dropping a `Weak`: the allocation count goes down.
    pub open spec fn drop_weak(self) -> Ledger {
        Ledger {
            alloc_ref_count: (self.alloc_ref_count - 1) as usize,
            weaks: (self.weaks - 1) as nat,
            ..self
        }
    }

    /// Whether `Arc::get_mut` lends the payload.
    pub open spec fn lends(self) -> bool {
        is_sole_count(self.alloc_ref_count)
    }
}

/// The counters stay true to the handles: a new block is balanced, and every
/// operation of a handle that exists takes a balanced block to a balanced
/// block. So the payload is there exactly while an `Arc` is, and
/// `alloc_ref_count` is never below `data_ref_count`.
pub proof fn operations_keep_the_ledger_balanced(block: Ledger)
    requires
        block.balanced(),
    ensures
        Ledger::created().balanced(),
        block.alloc_ref_count >= block.data_ref_count,
        block.add_weak() matches Some(next) ==> next.balanced(),
        block.arcs >= 1 ==> (block.add_arc() matches Some(next) ==> next.balanced()),
        block.upgrade() matches Some(next) ==> next.balanced(),
        block.arcs >= 1 ==> block.drop_arc().balanced(),
        block.weaks >= 1 ==> block.drop_weak().balanced(),
{
}

/// Sharing: dropping an `Arc` destroys the payload exactly if it was the
/// last one. While another `Arc` survives the payload stays, and a payload
/// once destroyed is not destroyed again.
pub proof fn payload_goes_with_the_last_arc(block: Ledger)
    requires
        block.balanced(),
        block.arcs >= 1,
    ensures
        block.payload,
        block.drop_arc().payload <==> block.arcs > 1,
        !block.drop_arc().payload ==> block.drop_arc().upgrade() is None,
{
}

/// Exclusivity: `get_mut` lends the payload exactly if the asking `Arc` is
/// the only handle: one `Arc` and no `Weak`.
pub proof fn get_mut_needs_the_only_handle(block: Ledger)
    requires
        block.balanced(),
        block.arcs >= 1,
    ensures
        block.lends() <==> block.arcs == 1 && block.weaks == 0,
{
}

/// Weak lifecycle: within the limit an upgrade yields an `Arc` exactly while
/// an `Arc` is alive; once the last is dropped it yields nothing, however
/// many `Weak`s remain. The block stays allocated until every `Arc` and
/// every `Weak` is dropped.
pub proof fn upgrade_needs_a_live_arc(block: Ledger)
    requires
        block.balanced(),
        block.weaks >= 1,
        !past_limit(block.alloc_ref_count),
    ensures
        block.upgrade() is Some <==> block.arcs >= 1,
        block.arcs == 0 ==> raised(block.data_ref_count) is None && block.data_ref_count == 0,
        block.allocated(),
        block.drop_weak().allocated() <==> block.arcs + block.weaks > 1,
{
}

} // verus!
