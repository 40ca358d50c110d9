//! The first segment of a topic, naming what kind of message it carries.
use vstd::prelude::*;

verus! {

pub const STATUS: &'static str = "status";

pub const DATABASE: &'static str = "data";

pub const REQUEST: &'static str = "request";

pub const RESPONSE: &'static str = "response";

pub const CONFIG: &'static str = "config";

} // verus!
