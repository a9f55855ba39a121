//! A channel with room for one message in flight.
//!
//! The channel is a four-state machine kept in one atomic byte:
//!
//! ```text
//! Empty --StartSend--> Writing --FinishSend--> Ready
//!   ^                                            |
//!   +--FinishReceive-- Reading <--StartReceive---+
//! ```
//!
//! [`Step`] is the table of these transitions and [`OneShotChannel`] takes
//! every compare-and-swap and every store from it. [`Exchange`] is the same
//! machine together with its slot, as it runs when one thread at a time acts
//! on it; the laws at the end of this file are stated of it.

use crate::atomic::load_u8;
use crate::cell::Slot;
use std::sync::atomic::AtomicU8;
use std::sync::atomic::Ordering;
use vstd::prelude::*;

verus! {

/// The state tag of a channel.
#[derive(Clone, Copy, PartialEq, Eq, Debug, Structural)]
pub enum ChannelState {
    /// No message; a send may start.
    Empty,
    /// A sender has claimed the slot and is storing its message.
    Writing,
    /// A message is stored and published; a receive may start.
    Ready,
    /// A receiver has claimed the message and is moving it out.
    Reading,
}

/// Misuse of a channel: an operation was asked for in a state that does not
/// allow it. Only one compare-and-swap can win, so this is never a data race;
/// it is reported at once instead of being queued or dropped.
#[derive(Clone, Copy, PartialEq, Eq, Debug, Structural)]
pub enum ProtocolViolation {
    /// `send` while an earlier message has not been received.
    MessagePending,
    /// `receive` while no message is ready.
    NoMessage,
}

/// One transition of the state machine.
#[derive(Clone, Copy, PartialEq, Eq, Debug, Structural)]
pub enum Step {
    /// `Empty` to `Writing`: a sender claims the slot.
    StartSend,
    /// `Writing` to `Ready`: the sender publishes its message.
    FinishSend,
    /// `Ready` to `Reading`: a receiver claims the message.
    StartReceive,
    /// `Reading` to `Empty`: the receiver frees the slot.
    FinishReceive,
}

impl ChannelState {
    /// The byte that stands for this state in the channel's atomic.
    pub open spec fn tag_of(self) -> u8 {
        match self {
            ChannelState::Empty => 0,
            ChannelState::Writing => 1,
            ChannelState::Ready => 2,
            ChannelState::Reading => 3,
        }
    }

    /// The byte that stands for this state in the channel's atomic.
    pub fn tag(self) -> (tag: u8)
        ensures
            tag == self.tag_of(),
        opens_invariants none
        no_unwind
    {
        match self {
            ChannelState::Empty => 0,
            ChannelState::Writing => 1,
            ChannelState::Ready => 2,
            ChannelState::Reading => 3,
        }
    }
}

impl ProtocolViolation {
    /// The violation in words.
    pub fn message(&self) -> (text: &'static str)
        ensures
            text@ == match *self {
                ProtocolViolation::MessagePending => "a message is already pending"@,
                ProtocolViolation::NoMessage => "no message available"@,
            },
    {
        match self {
            ProtocolViolation::MessagePending => "a message is already pending",
            ProtocolViolation::NoMessage => "no message available",
        }
    }
}

impl Step {
    /// The state in which this step may be taken.
    pub open spec fn source(self) -> ChannelState {
        match self {
            Step::StartSend => ChannelState::Empty,
            Step::FinishSend => ChannelState::Writing,
            Step::StartReceive => ChannelState::Ready,
            Step::FinishReceive => ChannelState::Reading,
        }
    }

    /// The state that this step leads to.
    pub open spec fn target(self) -> ChannelState {
        match self {
            Step::StartSend => ChannelState::Writing,
            Step::FinishSend => ChannelState::Ready,
            Step::StartReceive => ChannelState::Reading,
            Step::FinishReceive => ChannelState::Empty,
        }
    }

    /// What a caller is told when the step finds the channel in another state
    /// than its source.
    pub open spec fn refusal(self) -> ProtocolViolation {
        match self {
            Step::StartSend | Step::FinishSend => ProtocolViolation::MessagePending,
            Step::StartReceive | Step::FinishReceive => ProtocolViolation::NoMessage,
        }
    }

    /// The state in which this step may be taken.
    pub fn from_state(self) -> (state: ChannelState)
        ensures
            state == self.source(),
    {
        match self {
            Step::StartSend => ChannelState::Empty,
            Step::FinishSend => ChannelState::Writing,
            Step::StartReceive => ChannelState::Ready,
            Step::FinishReceive => ChannelState::Reading,
        }
    }

    /// The state that this step leads to.
    pub fn to_state(self) -> (state: ChannelState)
        ensures
            state == self.target(),
    {
        match self {
            Step::StartSend => ChannelState::Writing,
            Step::FinishSend => ChannelState::Ready,
            Step::StartReceive => ChannelState::Reading,
            Step::FinishReceive => ChannelState::Empty,
        }
    }

    /// Turns the result of the step's compare-and-swap into the caller's
    /// answer: the step was taken exactly if the swap succeeded, and a swap
    /// that failed is the step's refusal.
    pub fn settle(self, swap: Result<u8, u8>) -> (answer: Result<(), ProtocolViolation>)
        ensures
            answer == match swap {
                Ok(_) => Ok::<(), ProtocolViolation>(()),
                Err(_) => Err::<(), ProtocolViolation>(self.refusal()),
            },
    {
        match swap {
            Ok(_) => Ok(()),
            Err(_) => match self {
                Step::StartSend | Step::FinishSend => Err(ProtocolViolation::MessagePending),
                Step::StartReceive | Step::FinishReceive => Err(ProtocolViolation::NoMessage),
            },
        }
    }
}

/// What `is_ready` answers for the byte it found in the channel's atomic:
/// `true` exactly for the byte of `Ready`.
pub fn says_ready(found: u8) -> (ready: bool)
    ensures
        ready == (found == ChannelState::Ready.tag_of()),
    opens_invariants none
    no_unwind
{
    found == ChannelState::Ready.tag()
}

/// What a sender that has claimed the slot answers, given whether its message
/// went into the slot: the send is done exactly if the message is stored.
pub fn settle_stored(stored: bool) -> (answer: Result<(), ProtocolViolation>)
    ensures
        answer == if stored {
            Ok::<(), ProtocolViolation>(())
        } else {
            Err::<(), ProtocolViolation>(ProtocolViolation::MessagePending)
        },
{
    if stored {
        Ok(())
    } else {
        Err(ProtocolViolation::MessagePending)
    }
}

/// What a receiver that has claimed the message answers, given what it found
/// in the slot: the message found, and a violation if there was none.
pub fn settle_taken<T>(taken: Option<T>) -> (answer: Result<T, ProtocolViolation>)
    ensures
        answer == match taken {
            Some(message) => Ok::<T, ProtocolViolation>(message),
            None => Err::<T, ProtocolViolation>(ProtocolViolation::NoMessage),
        },
{
    match taken {
        Some(message) => Ok(message),
        None => Err(ProtocolViolation::NoMessage),
    }
}

/// A single-slot handoff between one sender and one receiver.
///
/// After a receive the channel is empty again and may carry the next message:
/// exchanges may follow one another, but only one is in flight at a time.
#[verifier::reject_recursive_types(T)]
pub struct OneShotChannel<T> {
    message: Slot<T>,
    state: AtomicU8,
}

impl<T> OneShotChannel<T> {
    /// An empty channel.
    pub fn new() -> (channel: Self) {
        OneShotChannel { message: Slot::new(None), state: AtomicU8::new(ChannelState::Empty.tag()) }
    }

    /// Tries to take `step` by a compare-and-swap from its source to its
    /// target, with `success` as the ordering of a swap that wins.
    fn claim(&self, step: Step, success: Ordering) -> (answer: Result<(), ProtocolViolation>)
        ensures
            answer is Err ==> answer == Err::<(), ProtocolViolation>(step.refusal()),
    {
        let swap = self.state.compare_exchange(
            step.from_state().tag(),
            step.to_state().tag(),
            success,
            Ordering::Relaxed,
        );
        step.settle(swap)
    }

    /// Takes `step` by storing its target with release ordering. Only the
    /// thread whose claim put the channel into the step's source does this.
    fn publish(&self, step: Step) {
        self.state.store(step.to_state().tag(), Ordering::Release)
    }

    /// Puts the channel back into the source of `step` after a claim whose
    /// work could not be done.
    fn retreat(&self, step: Step) {
        self.state.store(step.from_state().tag(), Ordering::Release)
    }

    /// Sends `message`.
    ///
    /// Claims the slot (`Empty` to `Writing`, relaxed), stores the message,
    /// and publishes it (`Ready`, release), so that whoever later observes
    /// `Ready` with acquire ordering sees the message. A channel that is not
    /// `Empty` refuses with [`ProtocolViolation::MessagePending`], and the
    /// message is dropped.
    pub fn send(&self, message: T) -> (outcome: Result<(), ProtocolViolation>)
        ensures
            outcome is Err ==> outcome == Err::<(), ProtocolViolation>(
                ProtocolViolation::MessagePending,
            ),
    {
        match self.claim(Step::StartSend, Ordering::Relaxed) {
            Err(violation) => Err(violation),
            Ok(_) => {
                let mut held: Option<T> = Some(message);
                let stored = self.message.exchange(&mut held);
                if stored {
                    self.publish(Step::FinishSend);
                } else {
                    self.retreat(Step::StartSend);
                }
                settle_stored(stored)
            },
        }
    }

    /// Whether a message is ready, by a relaxed load. The answer is advice:
    /// it may be stale as soon as it is given and orders no memory.
    pub fn is_ready(&self) -> (ready: bool) {
        says_ready(load_u8(&self.state, Ordering::Relaxed))
    }

    /// Receives the message.
    ///
    /// Claims the message (`Ready` to `Reading`, acquire), moves it out of
    /// the slot, and frees the slot (`Empty`, release) for the next send. A
    /// channel that is not `Ready` refuses with
    /// [`ProtocolViolation::NoMessage`].
    pub fn receive(&self) -> (outcome: Result<T, ProtocolViolation>)
        ensures
            outcome is Err ==> outcome == Err::<T, ProtocolViolation>(ProtocolViolation::NoMessage),
    {
        match self.claim(Step::StartReceive, Ordering::Acquire) {
            Err(violation) => Err(violation),
            Ok(_) => {
                let taken = self.message.take();
                self.publish(Step::FinishReceive);
                settle_taken(taken)
            },
        }
    }
}

impl<T> Drop for OneShotChannel<T> {
    /// A message that was sent and never received is destroyed with the
    /// channel, once. In any other state the slot holds nothing that is the
    /// channel's to destroy.
    fn drop(&mut self)
        opens_invariants none
        no_unwind
    {
        if says_ready(load_u8(&self.state, Ordering::Relaxed)) {
            let _ = self.message.take();
        }
    }
}

/// A channel as it runs when one thread at a time acts on it: the state tag
/// together with what the slot holds.
pub struct Exchange<T> {
    pub state: ChannelState,
    pub slot: Option<T>,
}

impl<T> Exchange<T> {
    /// The channel as [`OneShotChannel::new`] makes it.
    pub open spec fn fresh() -> Exchange<T> {
        Exchange { state: ChannelState::Empty, slot: None }
    }

    /// Between operations the slot holds a message exactly when the state is
    /// `Ready`, and no operation is left half done.
    pub open spec fn at_rest(self) -> bool {
        ||| self.state == ChannelState::Empty && self.slot is None
        ||| self.state == ChannelState::Ready && self.slot is Some
    }

    /// The compare-and-swap of `step`: taken from the step's source, refused
    /// from any other state.
    pub open spec fn claim(self, step: Step) -> Result<Exchange<T>, ProtocolViolation> {
        if self.state == step.source() {
            Ok(Exchange { state: step.target(), slot: self.slot })
        } else {
            Err(step.refusal())
        }
    }

    /// A whole `send`: claim, store, publish. A refused send changes nothing.
    pub open spec fn send(self, message: T) -> (Exchange<T>, Result<(), ProtocolViolation>) {
        match self.claim(Step::StartSend) {
            Ok(_) => (Exchange { state: Step::FinishSend.target(), slot: Some(message) }, Ok(())),
            Err(violation) => (self, Err(violation)),
        }
    }

    /// A whole `receive`: claim, move out, free. A refused receive changes
    /// nothing.
    pub open spec fn receive(self) -> (Exchange<T>, Result<T, ProtocolViolation>) {
        match self.claim(Step::StartReceive) {
            Ok(claimed) => (
                Exchange { state: Step::FinishReceive.target(), slot: None },
                match claimed.slot {
                    Some(message) => Ok(message),
                    None => Err(ProtocolViolation::NoMessage),
                },
            ),
            Err(violation) => (self, Err(violation)),
        }
    }

    /// What `is_ready` answers: whether the byte of the state is the byte
    /// of `Ready`.
    pub open spec fn is_ready(self) -> bool {
        self.state.tag_of() == ChannelState::Ready.tag_of()
    }
}

/// Every state has a byte of its own, so a compare-and-swap on bytes tells
/// the states apart.
pub proof fn tags_tell_states_apart(a: ChannelState, b: ChannelState)
    ensures
        a.tag_of() == b.tag_of() <==> a == b,
{
}

/// The four steps form one cycle: each starts where the one before it ends,
/// and the fourth ends where the first starts.
pub proof fn steps_close_the_cycle()
    ensures
        Step::StartSend.source() == ChannelState::Empty,
        Step::StartSend.target() == Step::FinishSend.source(),
        Step::FinishSend.target() == Step::StartReceive.source(),
        Step::StartReceive.target() == Step::FinishReceive.source(),
        Step::FinishReceive.target() == Step::StartSend.source(),
{
}

/// In every state exactly one step can be taken: a claim succeeds for the
/// step whose source the state is and is refused for the other three.
pub proof fn one_step_at_a_time<T>(channel: Exchange<T>, step: Step, other: Step)
    ensures
        channel.claim(step) is Ok <==> channel.state == step.source(),
        channel.claim(step) is Ok && channel.claim(other) is Ok ==> step == other,
        channel.claim(step) is Err ==> channel.claim(step) == Err::<
            Exchange<T>,
            ProtocolViolation,
        >(step.refusal()),
{
}

/// Round trip: a message sent into an empty channel is the message that the
/// next receive yields, and the channel is empty again afterwards.
pub proof fn send_then_receive_yields_the_message<T>(channel: Exchange<T>, message: T)
    requires
        channel.at_rest(),
        channel.state == ChannelState::Empty,
    ensures
        channel.send(message).1 == Ok::<(), ProtocolViolation>(()),
        channel.send(message).0.is_ready(),
        channel.send(message).0.receive().1 == Ok::<T, ProtocolViolation>(message),
        channel.send(message).0.receive().0 == Exchange::<T>::fresh(),
{
}

/// Misuse: a receive that no send went before is refused with `NoMessage`,
/// and a second send before any receive is refused with `MessagePending`.
/// Either refusal leaves the channel as it was.
pub proof fn misuse_is_refused<T>(first: T, second: T)
    ensures
        Exchange::<T>::fresh().receive() == (
            Exchange::<T>::fresh(),
            Err::<T, ProtocolViolation>(ProtocolViolation::NoMessage),
        ),
        Exchange::<T>::fresh().send(first).0.send(second) == (
            Exchange::<T>::fresh().send(first).0,
            Err::<(), ProtocolViolation>(ProtocolViolation::MessagePending),
        ),
{
}

/// When each operation is refused: `send` exactly if the channel is not
/// `Empty`, `receive` exactly if it is not `Ready`.
pub proof fn refused_exactly_out_of_turn<T>(channel: Exchange<T>, message: T)
    requires
        channel.at_rest(),
    ensures
        channel.send(message).1 is Err <==> channel.state != ChannelState::Empty,
        channel.send(message).1 is Err ==> channel.send(message) == (
            channel,
            Err::<(), ProtocolViolation>(ProtocolViolation::MessagePending),
        ),
        channel.receive().1 is Err <==> channel.state != ChannelState::Ready,
        channel.receive().1 is Err ==> channel.receive() == (
            channel,
            Err::<T, ProtocolViolation>(ProtocolViolation::NoMessage),
        ),
{
}

/// `is_ready` answers `true` exactly when the state is `Ready`: not on a new
/// channel, then after a send, and no longer after the receive.
pub proof fn is_ready_follows_the_message<T>(channel: Exchange<T>, message: T)
    ensures
        channel.is_ready() <==> channel.state == ChannelState::Ready,
        !Exchange::<T>::fresh().is_ready(),
        Exchange::<T>::fresh().send(message).0.is_ready(),
        !Exchange::<T>::fresh().send(message).0.receive().0.is_ready(),
{
}

/// The slot holds a message exactly while the state says so: whatever is
/// sent or received, a channel at rest stays at rest.
pub proof fn operations_keep_the_channel_at_rest<T>(channel: Exchange<T>, message: T)
    requires
        channel.at_rest(),
    ensures
        Exchange::<T>::fresh().at_rest(),
        channel.send(message).0.at_rest(),
        channel.receive().0.at_rest(),
{
}

} // verus!
