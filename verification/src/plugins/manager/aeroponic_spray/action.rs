//! Messages of the aeroponic sprayer.
use vstd::prelude::*;
use crate::constants::{mqtt_prefix, project};
use crate::newtype::AtomicFixedString;
use crate::plugins::mqtt::Qos;
use crate::plugins::mqtt::add_on::action_message::{MessageImpl, Route};

verus! {

/// The topic group of the sprayer.
pub const GROUP: &'static str = "aeroponics";

/// What the sprayer reports: whether it sprays, and the Unix time in seconds,
/// in decimal, of the next scheduled spray.
#[derive(Debug)]
pub struct AeroponicSprayerStatus {
    pub sprayer_state: bool,
    pub next_spray_time: AtomicFixedString,
}

impl Clone for AeroponicSprayerStatus {
    fn clone(&self) -> (r: Self)
        ensures
            r.sprayer_state == self.sprayer_state,
            r.next_spray_time@ == self.next_spray_time@,
    {
        AeroponicSprayerStatus {
            sprayer_state: self.sprayer_state,
            next_spray_time: self.next_spray_time.clone(),
        }
    }
}

impl MessageImpl for AeroponicSprayerStatus {
    open spec fn spec_route() -> Route {
        Route {
            prefix: mqtt_prefix::STATUS,
            project: project::NAME,
            group: GROUP,
            device: project::DEVICE,
            qos: Qos::_1,
        }
    }

    fn route() -> (r: Route) {
        Route {
            prefix: mqtt_prefix::STATUS,
            project: project::NAME,
            group: GROUP,
            device: project::DEVICE,
            qos: Qos::_1,
        }
    }
}

} // verus!
