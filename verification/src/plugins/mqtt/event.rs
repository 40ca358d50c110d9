//! Events of the MQTT client.
use vstd::prelude::*;

verus! {

/// Asks for the MQTT client to be restarted, with the reason why.
#[derive(Debug, Clone, Copy)]
pub struct RestartClient(pub &'static str);

} // verus!
