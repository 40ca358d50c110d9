//! The project segment and the device segment of every topic.
use vstd::prelude::*;

verus! {

pub const NAME: &'static str = "triponics";

pub const DEVICE: &'static str = "0";

} // verus!
