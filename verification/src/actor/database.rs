//! The database actor's insert event.
use vstd::prelude::*;

verus! {

/// A request to insert a record, tagged with the sampling interval.
#[derive(Debug, Clone, Copy, PartialEq, Eq, Structural)]
pub struct Insert {
    pub interval: u32,
}

} // verus!
