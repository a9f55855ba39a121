//! Mutual exclusion.

pub mod spin_lock;
