//! Shared ownership.

pub mod arc_data;
pub mod arc_weak_data;
pub mod counter;
