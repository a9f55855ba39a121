//! A lock that waits by spinning.

use crate::atomic::store_bool;
use crate::cell::Slot;
use std::sync::atomic::AtomicBool;
use std::sync::atomic::Ordering;
use vstd::prelude::*;
use vstd::seq_lib::*;

verus! {

/// `std::hint::spin_loop` tells the processor that the caller is busy-waiting.
/// It has no effect that a contract could speak of.
pub assume_specification[ std::hint::spin_loop ]();

/// Busy-wait mutual exclusion around a value of type `T`.
///
/// The flag `locked` is `true` from the moment an acquisition wins its
/// compare-and-swap until the [`Guard`] it produced is dropped. The protected
/// value rests in `value` while the flag is `false` and travels with the
/// guard while it is `true`.
#[verifier::reject_recursive_types(T)]
pub struct SpinLock<T> {
    locked: AtomicBool,
    value: Slot<T>,
}

/// The part of a guard that gives the value back when it is dropped.
#[verifier::reject_recursive_types(T)]
struct Lease<'a, T> {
    lock: &'a SpinLock<T>,
    value: Option<T>,
}

/// Exclusive access to the value of a [`SpinLock`], from a successful
/// acquisition until the guard goes out of scope.
#[verifier::reject_recursive_types(T)]
pub struct Guard<'a, T> {
    lease: Lease<'a, T>,
}

/// Exclusive access to the inside of an option known to be `Some`.
fn inside<T>(held: &mut Option<T>) -> (value: &mut T)
    requires
        *old(held) is Some,
    ensures
        *value == old(held)->Some_0,
        *final(held) == Some(*final(value)),
    opens_invariants none
    no_unwind
{
    match held {
        Some(value) => value,
        None => unreached(),
    }
}

impl<T> SpinLock<T> {
    /// An unlocked lock around `value`.
    pub fn new(value: T) -> (lock: Self) {
        SpinLock { locked: AtomicBool::new(false), value: Slot::new(Some(value)) }
    }

    /// Makes the guard for a winner of the flag out of what it found in the
    /// slot: a guard of this lock that holds the value found. Where no value
    /// was found (a guard was still alive when [`SpinLock::unlock`] forced
    /// the flag), the flag is given up again and there is no guard.
    fn seat(&self, found: Option<T>) -> (guard: Option<Guard<'_, T>>)
        ensures
            match found {
                Some(value) => guard matches Some(made) && made@ == value && made.guards(self),
                None => guard is None,
            },
    {
        match found {
            Some(value) => Some(Guard { lease: Lease { lock: self, value: Some(value) } }),
            None => {
                store_bool(&self.locked, false, Ordering::Release);
                None
            },
        }
    }

    /// One attempt to acquire the lock: a single compare-and-swap of the flag
    /// from `false` to `true`, with acquire ordering on success.
    pub fn try_lock(&self) -> (guard: Option<Guard<'_, T>>)
        ensures
            guard matches Some(made) ==> made.guards(self),
    {
        let swap = self.locked.compare_exchange(
            false,
            true,
            Ordering::Acquire,
            Ordering::Relaxed,
        );
        self.enter(swap)
    }

    /// What becomes of one compare-and-swap of the flag: no guard unless the
    /// swap won, and for a winner the guard of this lock that [`seat`] makes
    /// of what is in the slot.
    ///
    /// [`seat`]: SpinLock::seat
    fn enter(&self, swap: Result<bool, bool>) -> (guard: Option<Guard<'_, T>>)
        ensures
            swap is Err ==> guard is None,
            guard matches Some(made) ==> made.guards(self),
    {
        match swap {
            Ok(_) => self.seat(self.value.take()),
            Err(_) => None,
        }
    }

    /// Spins until the lock is acquired, but for at most `attempts` rounds.
    ///
    /// Each round is one weak compare-and-swap of the flag from `false` to
    /// `true` (acquire ordering on success, relaxed on failure) followed, on
    /// failure, by a spin hint. No round sleeps or parks.
    pub fn lock_within(&self, attempts: usize) -> (guard: Option<Guard<'_, T>>)
        ensures
            attempts == 0 ==> guard is None,
            guard matches Some(made) ==> made.guards(self),
    {
        let mut left: usize = attempts;
        while left > 0
            invariant
                left <= attempts,
            decreases left,
        {
            let swap = self.locked.compare_exchange_weak(
                false,
                true,
                Ordering::Acquire,
                Ordering::Relaxed,
            );
            match self.enter(swap) {
                Some(guard) => {
                    return Some(guard);
                },
                None => {},
            }
            std::hint::spin_loop();
            left = left - 1;
        }
        None
    }

    /// Spins until the lock is acquired.
    ///
    /// The wait is [`SpinLock::lock_within`] with the largest number of rounds
    /// a `usize` can count; `None` reports that even those were used up.
    /// Acquisition is not fair and not reentrant: a thread that asks again
    /// while it holds the guard spins through all its rounds.
    pub fn lock(&self) -> (guard: Option<Guard<'_, T>>)
        ensures
            guard matches Some(made) ==> made.guards(self),
    {
        self.lock_within(usize::MAX)
    }

    /// Forces the flag to `false` with release ordering, whoever holds it.
    pub fn unlock(&self) {
        store_bool(&self.locked, false, Ordering::Release)
    }
}

impl<'a, T> Guard<'a, T> {
    /// The protected value, as this guard currently sees it.
    pub closed spec fn view(&self) -> T {
        self.lease.value->Some_0
    }

    /// Whether this guard came from `lock`, whose flag it clears when it is
    /// dropped.
    pub closed spec fn guards(&self, lock: &SpinLock<T>) -> bool {
        *self.lease.lock == *lock
    }

    #[verifier::type_invariant]
    closed spec fn holds_value(&self) -> bool {
        self.lease.value is Some
    }
}

impl<'a, T> std::ops::Deref for Guard<'a, T> {
    type Target = T;

    /// Read access to the protected value.
    fn deref(&self) -> (value: &T)
        ensures
            *value == self@,
    {
        proof {
            use_type_invariant(self);
        }
        match &self.lease.value {
            Some(value) => value,
            None => unreached(),
        }
    }
}

impl<'a, T> std::ops::DerefMut for Guard<'a, T> {
    /// Write access to the protected value: what is written through the
    /// reference is what the guard holds afterwards, and it stays the guard
    /// of the same lock.
    fn deref_mut(&mut self) -> (value: &mut T)
        ensures
            *value == old(self)@,
            final(self)@ == *final(value),
            forall|lock: &SpinLock<T>| final(self).guards(lock) == old(self).guards(lock),
    {
        proof {
            use_type_invariant(&*self);
        }
        inside(&mut self.lease.value)
    }
}

impl<'a, T> Drop for Lease<'a, T> {
    /// Puts the value back and then stores `false` into the flag with release
    /// ordering, so that the next acquirer sees every write made under the
    /// guard.
    ///
    /// The slot is free while a guard is out, unless [`SpinLock::unlock`]
    /// forced the flag and another acquisition is looking into the slot at
    /// this moment. That is a matter of a moment, so the attempt to put the
    /// value back is repeated until it is taken. Only if every attempt that a
    /// `usize` can count found the slot in use is the value destroyed with
    /// the guard, and the lock left without one.
    fn drop(&mut self)
        opens_invariants none
        no_unwind
    {
        let mut left: usize = usize::MAX;
        while left > 0
            decreases left,
        {
            if self.lock.value.exchange(&mut self.value) {
                break ;
            }
            left = left - 1;
        }
        store_bool(&self.lock.locked, false, Ordering::Release);
    }
}

/// A lock as it runs when its holders take turns: the flag, and the value,
/// which rests in the lock while the flag is clear and is out with the guard
/// while it is set.
pub struct Turnstile<V> {
    pub locked: bool,
    pub value: Option<V>,
}

impl<V> Turnstile<V> {
    /// The lock as [`SpinLock::new`] makes it.
    pub open spec fn fresh(value: V) -> Turnstile<V> {
        Turnstile { locked: false, value: Some(value) }
    }

    /// The value is in the lock exactly while the flag is clear.
    pub open spec fn at_rest(self) -> bool {
        self.locked <==> self.value is None
    }

    /// One compare-and-swap of the flag from `false` to `true`: the winner
    /// leaves with the value, and nobody wins while the flag is set.
    pub open spec fn acquire(self) -> Option<(Turnstile<V>, V)> {
        match self.value {
            Some(value) if !self.locked => Some((Turnstile { locked: true, value: None }, value)),
            _ => None,
        }
    }

    /// The drop of a guard that holds `value`.
    pub open spec fn release(self, value: V) -> Turnstile<V> {
        Turnstile { locked: false, value: Some(value) }
    }
}

/// What a list under the lock holds after holders have taken turns, each to
/// append one item, in the order of `turns`.
pub open spec fn after_turns<A>(lock: Turnstile<Seq<A>>, turns: Seq<A>) -> Turnstile<Seq<A>>
    decreases turns.len(),
{
    if turns.len() == 0 {
        lock
    } else {
        match lock.acquire() {
            Some((held, list)) => after_turns(held.release(list.push(turns[0])), turns.drop_first()),
            None => lock,
        }
    }
}

/// Mutual exclusion: from a lock at rest one acquisition wins, and until its
/// guard is dropped no second one does; the drop puts things back as they
/// were, with what the guard last held.
pub proof fn one_guard_at_a_time<V>(lock: Turnstile<V>, written: V)
    requires
        lock.at_rest(),
    ensures
        lock.acquire() is Some <==> !lock.locked,
        lock.acquire() matches Some((held, value)) ==> {
            &&& lock.value == Some(value)
            &&& held.at_rest()
            &&& held.acquire() is None
            &&& held.release(written) == Turnstile::<V>::fresh(written)
        },
{
}

/// Appending under the lock: when holders take turns to append one item
/// each, in any order, the list ends up with the items it had and exactly the
/// items appended, none lost and none twice, and the lock is free again.
pub proof fn every_append_lands_once<A>(start: Seq<A>, turns: Seq<A>)
    ensures
        after_turns(Turnstile::fresh(start), turns) == Turnstile::fresh(start + turns),
        (start + turns).to_multiset() == start.to_multiset().add(turns.to_multiset()),
        (start + turns).len() == start.len() + turns.len(),
    decreases turns.len(),
{
    if turns.len() == 0 {
        assert(start + turns =~= start);
    } else {
        every_append_lands_once(start.push(turns[0]), turns.drop_first());
        assert(start.push(turns[0]) + turns.drop_first() =~= start + turns);
    }
    lemma_multiset_commutative(start, turns);
}

/// The order of the turns does not matter to what the list holds: two orders
/// of the same items leave lists with the same items.
pub proof fn order_of_turns_is_immaterial<A>(start: Seq<A>, turns: Seq<A>, other: Seq<A>)
    requires
        turns.to_multiset() == other.to_multiset(),
    ensures
        after_turns(Turnstile::fresh(start), turns).value->Some_0.to_multiset() == after_turns(
            Turnstile::fresh(start),
            other,
        ).value->Some_0.to_multiset(),
{
    every_append_lands_once(start, turns);
    every_append_lands_once(start, other);
}

} // verus!
