//! BCM pin numbers of the relay board's inputs.
use vstd::prelude::*;

verus! {

pub const SWITCH_1: u8 = 22;

pub const SWITCH_2: u8 = 23;

pub const SWITCH_3: u8 = 24;

pub const PH_DOWN_PUMP: u8 = 25;

pub const PH_UP_PUMP: u8 = 26;

pub const GROWLIGHT: u8 = 27;

} // verus!
