//! The alarm actor.
use vstd::prelude::*;

verus! {

/// The actor that raises alarms.
#[derive(Debug, Clone, Copy, PartialEq, Eq, Structural)]
pub struct Alarm;

} // verus!
