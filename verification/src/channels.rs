//! Handing a value from one thread to another.

pub mod one_shot_channel;
pub mod sender_receiver;
pub mod sender_receiver_borrow;
