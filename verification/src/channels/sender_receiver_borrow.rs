//! A channel for one message whose halves borrow it.
//!
//! The channel lives with its owner; [`Channel::split`] lends it out as a
//! sender and a receiver, each used up by its one operation. When both are
//! gone the owner may split the channel again.
//!
//! The halves do not wait: a receiver that finds no message is handed back,
//! and it is for the caller to let its thread rest until the sender has woken
//! it.

use crate::atomic::store_bool;
use crate::cell::Slot;
use crate::channels::sender_receiver::settle_receive;
use std::sync::atomic::AtomicBool;
use std::sync::atomic::Ordering;
use vstd::prelude::*;

verus! {

/// The slot, and whether a message waits in it.
#[verifier::reject_recursive_types(T)]
pub struct Channel<T> {
    message: Slot<T>,
    ready: AtomicBool,
}

/// The half that sends.
#[verifier::reject_recursive_types(T)]
pub struct Sender<'a, T> {
    channel: &'a Channel<T>,
}

/// The half that receives.
#[verifier::reject_recursive_types(T)]
pub struct Receiver<'a, T> {
    channel: &'a Channel<T>,
}

impl<T> Channel<T> {
    /// An empty channel.
    pub fn new() -> (channel: Self) {
        Channel { message: Slot::new(None), ready: AtomicBool::new(false) }
    }

    /// Empties the channel, destroying a message that was never received,
    /// and lends it out as its two halves.
    pub fn split<'a>(&'a mut self) -> (halves: (Sender<'a, T>, Receiver<'a, T>))
        ensures
            halves.0.feeds(&halves.1),
            halves.1.drains(final(self)),
    {
        *self = Channel::new();
        let shared: &'a Channel<T> = self;
        (Sender { channel: shared }, Receiver { channel: shared })
    }
}

impl<'a, T> Sender<'a, T> {
    /// Whether this sender and `receiver` are the two halves of one channel.
    pub closed spec fn feeds(&self, receiver: &Receiver<'a, T>) -> bool {
        *self.channel == *receiver.channel
    }

    /// Stores `message` and then sets the flag with release ordering.
    pub fn send(self, message: T) {
        let _ = self.channel.message.put(message);
        store_bool(&self.channel.ready, true, Ordering::Release)
    }
}

impl<'a, T> Receiver<'a, T> {
    /// Whether this receiver is a half of `channel`.
    pub closed spec fn drains(&self, channel: &Channel<T>) -> bool {
        *self.channel == *channel
    }

    /// Whether the flag is set, by a relaxed load: advice, no more.
    pub fn is_ready(&self) -> (ready: bool) {
        self.channel.ready.load(Ordering::Relaxed)
    }

    /// Clears the flag with acquire ordering and moves the message out.
    /// Where the flag was not set, or the slot proves empty, the receiver
    /// comes back unused, to be asked again.
    pub fn receive(self) -> (outcome: Result<T, Receiver<'a, T>>)
        ensures
            outcome matches Err(receiver) ==> receiver == self,
    {
        let was_ready = self.channel.ready.swap(false, Ordering::Acquire);
        match settle_receive(was_ready) {
            Ok(_) => {
                let taken = self.channel.message.take();
                self.settle_taken(taken)
            },
            Err(_) => Err(self),
        }
    }

    /// What a receiver that found the flag set answers, given what it found
    /// in the slot: the message found, and itself, unused, if there was
    /// none.
    pub fn settle_taken(self, taken: Option<T>) -> (outcome: Result<T, Receiver<'a, T>>)
        ensures
            outcome == match taken {
                Some(message) => Ok::<T, Receiver<'a, T>>(message),
                None => Err::<T, Receiver<'a, T>>(self),
            },
    {
        match taken {
            Some(message) => Ok(message),
            None => Err(self),
        }
    }
}

} // verus!
