use atomics_and_locks::channels::one_shot_channel::says_ready;
use atomics_and_locks::channels::one_shot_channel::settle_stored;
use atomics_and_locks::channels::one_shot_channel::settle_taken;
use atomics_and_locks::channels::one_shot_channel::ChannelState;
use atomics_and_locks::channels::one_shot_channel::OneShotChannel;
use atomics_and_locks::channels::one_shot_channel::ProtocolViolation;
use atomics_and_locks::channels::one_shot_channel::Step;
use std::sync::atomic::AtomicUsize;
use std::sync::atomic::Ordering;
use std::sync::Arc;

struct Probe {
    drops: Arc<AtomicUsize>,
}

impl Drop for Probe {
    fn drop(&mut self) {
        self.drops.fetch_add(1, Ordering::Relaxed);
    }
}

#[test]
fn send_then_receive_yields_the_message() {
    let channel = OneShotChannel::new();
    assert_eq!(channel.send("Hi there!"), Ok(()));
    assert_eq!(channel.receive(), Ok("Hi there!"));
}

#[test]
fn is_ready_follows_the_message() {
    let channel = OneShotChannel::new();
    assert!(!channel.is_ready());
    channel.send(5u8).unwrap();
    assert!(channel.is_ready());
    channel.receive().unwrap();
    assert!(!channel.is_ready());
}

#[test]
fn receive_without_send_is_a_violation() {
    let channel: OneShotChannel<u32> = OneShotChannel::new();
    assert_eq!(channel.receive(), Err(ProtocolViolation::NoMessage));
}

#[test]
fn second_send_is_a_violation() {
    let channel = OneShotChannel::new();
    assert_eq!(channel.send(1), Ok(()));
    assert_eq!(channel.send(2), Err(ProtocolViolation::MessagePending));
    assert_eq!(channel.receive(), Ok(1));
}

#[test]
fn second_receive_is_a_violation() {
    let channel = OneShotChannel::new();
    channel.send(String::from("once")).unwrap();
    assert_eq!(channel.receive(), Ok(String::from("once")));
    assert_eq!(channel.receive(), Err(ProtocolViolation::NoMessage));
}

#[test]
fn exchanges_may_follow_one_another() {
    let channel = OneShotChannel::new();
    for round in 0..5u32 {
        assert_eq!(channel.send(round), Ok(()));
        assert_eq!(channel.receive(), Ok(round));
    }
}

#[test]
fn unreceived_message_is_destroyed_once_with_the_channel() {
    let drops = Arc::new(AtomicUsize::new(0));
    let channel = OneShotChannel::new();
    assert!(channel.send(Probe { drops: drops.clone() }).is_ok());
    assert_eq!(drops.load(Ordering::Relaxed), 0);
    drop(channel);
    assert_eq!(drops.load(Ordering::Relaxed), 1);
}

#[test]
fn received_message_is_not_destroyed_with_the_channel() {
    let drops = Arc::new(AtomicUsize::new(0));
    let channel = OneShotChannel::new();
    assert!(channel.send(Probe { drops: drops.clone() }).is_ok());
    let message = channel.receive();
    assert!(message.is_ok());
    drop(channel);
    assert_eq!(drops.load(Ordering::Relaxed), 0);
    drop(message);
    assert_eq!(drops.load(Ordering::Relaxed), 1);
}

#[test]
fn refused_message_is_destroyed_at_once() {
    let drops = Arc::new(AtomicUsize::new(0));
    let channel = OneShotChannel::new();
    assert!(channel.send(Probe { drops: drops.clone() }).is_ok());
    assert!(channel.send(Probe { drops: drops.clone() }).is_err());
    assert_eq!(drops.load(Ordering::Relaxed), 1);
    drop(channel);
    assert_eq!(drops.load(Ordering::Relaxed), 2);
}

#[test]
fn empty_channel_destroys_nothing() {
    let drops = Arc::new(AtomicUsize::new(0));
    let channel: OneShotChannel<Probe> = OneShotChannel::new();
    drop(channel);
    assert_eq!(drops.load(Ordering::Relaxed), 0);
}

#[test]
fn tags_are_the_four_bytes() {
    assert_eq!(ChannelState::Empty.tag(), 0);
    assert_eq!(ChannelState::Writing.tag(), 1);
    assert_eq!(ChannelState::Ready.tag(), 2);
    assert_eq!(ChannelState::Reading.tag(), 3);
}

#[test]
fn steps_run_round_the_cycle() {
    assert_eq!(Step::StartSend.from_state(), ChannelState::Empty);
    assert_eq!(Step::StartSend.to_state(), ChannelState::Writing);
    assert_eq!(Step::FinishSend.from_state(), ChannelState::Writing);
    assert_eq!(Step::FinishSend.to_state(), ChannelState::Ready);
    assert_eq!(Step::StartReceive.from_state(), ChannelState::Ready);
    assert_eq!(Step::StartReceive.to_state(), ChannelState::Reading);
    assert_eq!(Step::FinishReceive.from_state(), ChannelState::Reading);
    assert_eq!(Step::FinishReceive.to_state(), ChannelState::Empty);
}

#[test]
fn settle_goes_by_the_swap() {
    assert_eq!(Step::StartSend.settle(Ok(0)), Ok(()));
    assert_eq!(Step::StartSend.settle(Err(2)), Err(ProtocolViolation::MessagePending));
    assert_eq!(Step::StartSend.settle(Err(1)), Err(ProtocolViolation::MessagePending));
    assert_eq!(Step::StartReceive.settle(Ok(2)), Ok(()));
    assert_eq!(Step::StartReceive.settle(Err(0)), Err(ProtocolViolation::NoMessage));
    assert_eq!(Step::StartReceive.settle(Err(3)), Err(ProtocolViolation::NoMessage));
}

#[test]
fn violations_say_what_went_wrong() {
    assert_eq!(ProtocolViolation::MessagePending.message(), "a message is already pending");
    assert_eq!(ProtocolViolation::NoMessage.message(), "no message available");
}

#[test]
fn settle_stored_goes_by_the_slot() {
    assert_eq!(settle_stored(true), Ok(()));
    assert_eq!(settle_stored(false), Err(ProtocolViolation::MessagePending));
}

#[test]
fn settle_taken_goes_by_what_was_found() {
    assert_eq!(settle_taken(Some("Hi there!")), Ok("Hi there!"));
    assert_eq!(settle_taken::<u8>(None), Err(ProtocolViolation::NoMessage));
}

#[test]
fn says_ready_only_for_the_byte_of_ready() {
    assert!(!says_ready(ChannelState::Empty.tag()));
    assert!(!says_ready(ChannelState::Writing.tag()));
    assert!(says_ready(ChannelState::Ready.tag()));
    assert!(!says_ready(ChannelState::Reading.tag()));
    assert!(!says_ready(0));
    assert!(!says_ready(1));
    assert!(says_ready(2));
    assert!(!says_ready(3));
    assert!(!says_ready(4));
    assert!(!says_ready(255));
}

#[test]
fn is_ready_changes_nothing_and_follows_the_state() {
    let channel = OneShotChannel::new();
    assert!(!channel.is_ready());
    assert_eq!(channel.send(1), Ok(()));
    assert!(channel.is_ready());
    assert!(channel.is_ready());
    assert_eq!(channel.send(2), Err(ProtocolViolation::MessagePending));
    assert!(channel.is_ready());
    assert_eq!(channel.receive(), Ok(1));
    assert!(!channel.is_ready());
    assert_eq!(channel.receive(), Err(ProtocolViolation::NoMessage));
    assert!(!channel.is_ready());
}
