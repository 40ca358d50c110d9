//! Shutting the controller down: the MQTT request that asks for it, the event
//! that carries it, and what is sent to the hardware on the way out.
use vstd::prelude::*;
use crate::constants::{mqtt_prefix, project};
use crate::plugins::mqtt::Qos;
use crate::plugins::mqtt::add_on::action_message::{MessageImpl, Route};
use crate::plugins::manager::relay_module::action::{Update as RelayUpdate, resting_update};
use crate::plugins::mqtt::add_on::action_message::{has_prefix, lemma_topic_has_prefix, message_topic};

verus! {

/// The MQTT request to shut down; its payload is ignored.
#[derive(Debug, Clone, Copy, PartialEq, Eq, Structural)]
pub struct ExitMsg;

/// The shutdown event.
#[derive(Debug, Clone, Copy, PartialEq, Eq, Structural)]
pub struct Exit;

impl MessageImpl for ExitMsg {
    open spec fn spec_route() -> Route {
        Route {
            prefix: mqtt_prefix::REQUEST,
            project: project::NAME,
            group: "exit",
            device: project::DEVICE,
            qos: Qos::_1,
        }
    }

    fn route() -> (r: Route) {
        Route {
            prefix: mqtt_prefix::REQUEST,
            project: project::NAME,
            group: "exit",
            device: project::DEVICE,
            qos: Qos::_1,
        }
    }
}

/// The relay request sent on shutdown: every relay back to its resting position.
pub fn shutdown_relay_request() -> (r: RelayUpdate)
    ensures
        r == resting_update(),
{
    RelayUpdate::default()
}

/// The shutdown request is routed under `request/`, for the `exit` group.
pub proof fn lemma_exit_route()
    ensures
        has_prefix(message_topic::<ExitMsg>(), mqtt_prefix::REQUEST@ + seq!['/']),
        ExitMsg::spec_route().group@ == "exit"@,
{
    lemma_topic_has_prefix(ExitMsg::spec_route());
}

} // verus!
