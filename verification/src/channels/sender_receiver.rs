//! A channel for one message, split into a sending and a receiving half.
//!
//! Each half is used up by its one operation, so a second send or a second
//! receive cannot be written. The halves share the channel by reference
//! counting and may go to different threads.

use crate::atomic::store_bool;
use crate::cell::share;
use crate::cell::Slot;
use crate::channels::one_shot_channel::settle_taken;
use crate::channels::one_shot_channel::ProtocolViolation;
use std::sync::atomic::AtomicBool;
use std::sync::atomic::Ordering;
use vstd::prelude::*;

verus! {

/// What both halves share: the slot, and whether a message waits in it.
#[verifier::reject_recursive_types(T)]
struct Channel<T> {
    message: Slot<T>,
    ready: AtomicBool,
}

/// The half that sends.
#[verifier::reject_recursive_types(T)]
pub struct Sender<T> {
    channel: std::sync::Arc<Channel<T>>,
}

/// The half that receives.
#[verifier::reject_recursive_types(T)]
pub struct Receiver<T> {
    channel: std::sync::Arc<Channel<T>>,
}

/// What a receiver is told for the flag it found: the message is its to take
/// exactly if the flag was set.
pub fn settle_receive(was_ready: bool) -> (answer: Result<(), ProtocolViolation>)
    ensures
        answer == if was_ready {
            Ok::<(), ProtocolViolation>(())
        } else {
            Err::<(), ProtocolViolation>(ProtocolViolation::NoMessage)
        },
{
    if was_ready {
        Ok(())
    } else {
        Err(ProtocolViolation::NoMessage)
    }
}

/// A new channel, as its two halves.
pub fn channel<T>() -> (halves: (Sender<T>, Receiver<T>))
    ensures
        halves.0.feeds(&halves.1),
{
    let shared = std::sync::Arc::new(
        Channel { message: Slot::new(None), ready: AtomicBool::new(false) },
    );
    (Sender { channel: share(&shared) }, Receiver { channel: shared })
}

impl<T> Sender<T> {
    /// Whether this sender and `receiver` are the two halves of one channel.
    pub closed spec fn feeds(&self, receiver: &Receiver<T>) -> bool {
        self.channel == receiver.channel
    }

    /// Stores `message` and then sets the flag with release ordering, so that
    /// a receiver that finds the flag set with acquire ordering finds the
    /// message.
    pub fn send(self, message: T) {
        let _ = self.channel.message.put(message);
        store_bool(&self.channel.ready, true, Ordering::Release)
    }
}

impl<T> Receiver<T> {
    /// Whether the flag is set, by a relaxed load: advice, no more.
    pub fn is_ready(&self) -> (ready: bool) {
        self.channel.ready.load(Ordering::Relaxed)
    }

    /// Clears the flag with acquire ordering and moves the message out. A
    /// flag that was not set is [`ProtocolViolation::NoMessage`]: ask
    /// [`Receiver::is_ready`] first.
    pub fn receive(self) -> (outcome: Result<T, ProtocolViolation>)
        ensures
            outcome is Err ==> outcome == Err::<T, ProtocolViolation>(ProtocolViolation::NoMessage),
    {
        match settle_receive(self.channel.ready.swap(false, Ordering::Acquire)) {
            Err(violation) => Err(violation),
            Ok(_) => settle_taken(self.channel.message.take()),
        }
    }
}

} // verus!
