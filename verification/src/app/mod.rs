//! Lifecycle signals of the actor runtime.
pub mod alarm;
pub mod signal;
