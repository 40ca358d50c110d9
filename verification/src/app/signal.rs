//! Signals that stop or terminate an actor.
use vstd::prelude::*;

verus! {

/// An actor could not stop cleanly.
#[derive(Debug, Clone, Copy, PartialEq, Eq, Structural)]
pub struct StopError;

/// The answer to a stop signal.
pub type StopResult = Result<(), StopError>;

/// Asks an actor to stop gracefully.
#[derive(Debug, Clone, Copy, PartialEq, Eq, Structural)]
pub struct StopSignal;

/// Asks an actor to terminate at once.
#[derive(Debug, Clone, Copy, PartialEq, Eq, Structural)]
pub struct TerminateSignal;

} // verus!
