//! Thread-synchronisation primitives built on atomic memory operations:
//! a spinning mutual-exclusion lock, a single-slot handoff channel, and a
//! reference-counted shared pointer with weak references.
//!
//! Every primitive keeps its protocol state in atomics and its payload in a
//! [`cell::Slot`]. What the verifier can say about a value shared between
//! threads is limited to what holds whatever the other threads do; each
//! module therefore also states the protocol that its atomics follow as
//! functions on plain values, and proves the protocol's laws of those.

pub mod atomic;
pub mod cell;
pub mod channels;
pub mod locks;
pub mod reference_counting;
