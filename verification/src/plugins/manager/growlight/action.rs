//! Messages of the grow light: switching requests, status reports and replies.
use vstd::prelude::*;
use crate::constants::{mqtt_prefix, project};
use crate::newtype::AtomicFixedString;
use crate::plugins::mqtt::Qos;
use crate::plugins::mqtt::add_on::action_message::{MessageImpl, Route};
use crate::plugins::mqtt::add_on::action_message::{has_prefix, lemma_prefixes_distinct, lemma_prefixes_separate, lemma_topic_has_prefix, message_topic, same_place};

verus! {

/// The topic group of the grow light.
pub const GROUP: &'static str = "growlight";

/// A request to switch the light on (`true`) or off (`false`).
#[derive(Debug, Clone, Copy, PartialEq, Eq, Structural)]
pub struct Update {
    pub state: bool,
}

impl Update {
    /// `ON` or `OFF`.
    pub fn describe(&self) -> (r: String)
        ensures
            r@ == (if self.state {
                "ON"@
            } else {
                "OFF"@
            }),
    {
        if self.state {
            String::from_str("ON")
        } else {
            String::from_str("OFF")
        }
    }
}

impl Default for Update {
    fn default() -> (r: Self)
        ensures
            r.state == false,
    {
        Update { state: false }
    }
}

/// What the light reports: whether it is on, and the start and end of today's
/// lighting period as Unix timestamps in nanoseconds.
#[derive(Debug, Clone, Copy, PartialEq, Eq, Structural)]
pub struct StatusMqtt {
    pub state: bool,
    pub start_time: i128,
    pub end_time: i128,
}

/// The reply to a switching request.
#[derive(Debug)]
pub struct MqttResponse(pub Result<AtomicFixedString, AtomicFixedString>);

impl MqttResponse {
    pub fn from_result(value: Result<&'static str, &'static str>) -> (r: Self)
        ensures
            value matches Ok(m) ==> r.0 matches Ok(s) && s@ == m@,
            value matches Err(m) ==> r.0 matches Err(s) && s@ == m@,
    {
        match value {
            Ok(m) => MqttResponse(Ok(AtomicFixedString::from_str(m))),
            Err(m) => MqttResponse(Err(AtomicFixedString::from_str(m))),
        }
    }
}

impl MessageImpl for StatusMqtt {
    open spec fn spec_route() -> Route {
        Route {
            prefix: mqtt_prefix::STATUS,
            project: project::NAME,
            group: GROUP,
            device: project::DEVICE,
            qos: Qos::_1,
        }
    }

    fn route() -> (r: Route) {
        Route {
            prefix: mqtt_prefix::STATUS,
            project: project::NAME,
            group: GROUP,
            device: project::DEVICE,
            qos: Qos::_1,
        }
    }
}

impl MessageImpl for Update {
    open spec fn spec_route() -> Route {
        Route {
            prefix: mqtt_prefix::REQUEST,
            project: project::NAME,
            group: GROUP,
            device: project::DEVICE,
            qos: Qos::_1,
        }
    }

    fn route() -> (r: Route) {
        Route {
            prefix: mqtt_prefix::REQUEST,
            project: project::NAME,
            group: GROUP,
            device: project::DEVICE,
            qos: Qos::_1,
        }
    }
}

impl MessageImpl for MqttResponse {
    open spec fn spec_route() -> Route {
        Route {
            prefix: mqtt_prefix::RESPONSE,
            project: project::NAME,
            group: GROUP,
            device: project::DEVICE,
            qos: Qos::_1,
        }
    }

    fn route() -> (r: Route) {
        Route {
            prefix: mqtt_prefix::RESPONSE,
            project: project::NAME,
            group: GROUP,
            device: project::DEVICE,
            qos: Qos::_1,
        }
    }
}

/// Requests to the grow light are routed under `request/`, its status under
/// `status/` and its replies under `response/`, all for the grow light's group
/// and device; so the three topics differ.
pub proof fn lemma_routes()
    ensures
        has_prefix(message_topic::<Update>(), mqtt_prefix::REQUEST@ + seq!['/']),
        Update::spec_route().group@ == GROUP@,
        has_prefix(message_topic::<StatusMqtt>(), mqtt_prefix::STATUS@ + seq!['/']),
        StatusMqtt::spec_route().group@ == GROUP@,
        has_prefix(message_topic::<MqttResponse>(), mqtt_prefix::RESPONSE@ + seq!['/']),
        MqttResponse::spec_route().group@ == GROUP@,
        same_place(Update::spec_route(), StatusMqtt::spec_route()),
        same_place(Update::spec_route(), MqttResponse::spec_route()),
        message_topic::<Update>() != message_topic::<StatusMqtt>(),
        message_topic::<Update>() != message_topic::<MqttResponse>(),
        message_topic::<StatusMqtt>() != message_topic::<MqttResponse>(),
{
    lemma_prefixes_distinct();
    lemma_topic_has_prefix(Update::spec_route());
    lemma_topic_has_prefix(StatusMqtt::spec_route());
    lemma_topic_has_prefix(MqttResponse::spec_route());
    lemma_prefixes_separate(message_topic::<Update>(), message_topic::<StatusMqtt>(), mqtt_prefix::REQUEST@, mqtt_prefix::STATUS@);
    lemma_prefixes_separate(message_topic::<Update>(), message_topic::<MqttResponse>(), mqtt_prefix::REQUEST@, mqtt_prefix::RESPONSE@);
    lemma_prefixes_separate(message_topic::<StatusMqtt>(), message_topic::<MqttResponse>(), mqtt_prefix::STATUS@, mqtt_prefix::RESPONSE@);
}

} // verus!
