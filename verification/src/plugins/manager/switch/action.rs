//! Messages of the three mains switches.
use vstd::prelude::*;
use crate::constants::{mqtt_prefix, project};
use crate::newtype::AtomicFixedString;
use crate::plugins::mqtt::Qos;
use crate::plugins::mqtt::add_on::action_message::{MessageImpl, Route};
use crate::plugins::manager::relay_module::action::{join_entries, push_entry, with_entry};
use crate::plugins::mqtt::add_on::action_message::{has_prefix, lemma_prefixes_distinct, lemma_prefixes_separate, lemma_topic_has_prefix, message_topic, same_place};

verus! {

/// The topic group of the switches.
pub const GROUP: &'static str = "switch";

/// A switching request: `Some(true)` switches a socket on, `Some(false)` off.
#[derive(Debug, Clone, Copy, PartialEq, Eq, Structural)]
pub struct Update {
    pub switch_1: Option<bool>,
    pub switch_2: Option<bool>,
    pub switch_3: Option<bool>,
}

impl Default for Update {
    /// Sockets 1 and 2 off, socket 3 on.
    fn default() -> (r: Self)
        ensures
            r == (Update { switch_1: Some(false), switch_2: Some(false), switch_3: Some(true) }),
    {
        Update { switch_1: Some(false), switch_2: Some(false), switch_3: Some(true) }
    }
}

/// The text of a request, e.g. `{"switch_1": "ON", "switch_3": "OFF"}`.
pub open spec fn describe_spec(u: Update) -> Seq<char> {
    let e1 = with_entry(Seq::empty(), "switch_1"@, u.switch_1);
    let e2 = with_entry(e1, "switch_2"@, u.switch_2);
    let e3 = with_entry(e2, "switch_3"@, u.switch_3);
    "{"@ + join_entries(e3) + "}"@
}

impl Update {
    /// The text of the request, as [`describe_spec`] writes it.
    pub fn describe(&self) -> (r: String)
        ensures
            r@ == describe_spec(*self),
    {
        let mut out = String::from_str("{");
        let mut first = true;
        let ghost e0: Seq<Seq<char>> = Seq::empty();
        let ghost e1 = with_entry(e0, "switch_1"@, self.switch_1);
        let ghost e2 = with_entry(e1, "switch_2"@, self.switch_2);
        assert(join_entries(e0) == Seq::<char>::empty());
        push_entry(&mut out, &mut first, Ghost(e0), "switch_1", self.switch_1);
        push_entry(&mut out, &mut first, Ghost(e1), "switch_2", self.switch_2);
        push_entry(&mut out, &mut first, Ghost(e2), "switch_3", self.switch_3);
        out.append("}");
        out
    }
}

/// Whether each socket is on.
#[derive(Debug, Clone, Copy, PartialEq, Eq, Structural)]
pub struct SwitchStatus {
    pub switch_1: bool,
    pub switch_2: bool,
    pub switch_3: bool,
}

/// The reply to a switching request.
#[derive(Debug)]
pub struct MqttResponse(pub Result<AtomicFixedString, AtomicFixedString>);

impl MessageImpl for Update {
    open spec fn spec_route() -> Route {
        Route {
            prefix: mqtt_prefix::REQUEST,
            project: project::NAME,
            group: GROUP,
            device: project::DEVICE,
            qos: Qos::_1,
        }
    }

    fn route() -> (r: Route) {
        Route {
            prefix: mqtt_prefix::REQUEST,
            project: project::NAME,
            group: GROUP,
            device: project::DEVICE,
            qos: Qos::_1,
        }
    }
}

impl MessageImpl for SwitchStatus {
    open spec fn spec_route() -> Route {
        Route {
            prefix: mqtt_prefix::STATUS,
            project: project::NAME,
            group: GROUP,
            device: project::DEVICE,
            qos: Qos::_1,
        }
    }

    fn route() -> (r: Route) {
        Route {
            prefix: mqtt_prefix::STATUS,
            project: project::NAME,
            group: GROUP,
            device: project::DEVICE,
            qos: Qos::_1,
        }
    }
}

impl MessageImpl for MqttResponse {
    open spec fn spec_route() -> Route {
        Route {
            prefix: mqtt_prefix::RESPONSE,
            project: project::NAME,
            group: GROUP,
            device: project::DEVICE,
            qos: Qos::_1,
        }
    }

    fn route() -> (r: Route) {
        Route {
            prefix: mqtt_prefix::RESPONSE,
            project: project::NAME,
            group: GROUP,
            device: project::DEVICE,
            qos: Qos::_1,
        }
    }
}

/// Requests to the sockets are routed under `request/`, their status under
/// `status/` and replies under `response/`, all for the sockets' group and
/// device; so the three topics differ.
pub proof fn lemma_routes()
    ensures
        has_prefix(message_topic::<Update>(), mqtt_prefix::REQUEST@ + seq!['/']),
        Update::spec_route().group@ == GROUP@,
        has_prefix(message_topic::<SwitchStatus>(), mqtt_prefix::STATUS@ + seq!['/']),
        SwitchStatus::spec_route().group@ == GROUP@,
        has_prefix(message_topic::<MqttResponse>(), mqtt_prefix::RESPONSE@ + seq!['/']),
        MqttResponse::spec_route().group@ == GROUP@,
        same_place(Update::spec_route(), SwitchStatus::spec_route()),
        same_place(Update::spec_route(), MqttResponse::spec_route()),
        message_topic::<Update>() != message_topic::<SwitchStatus>(),
        message_topic::<Update>() != message_topic::<MqttResponse>(),
        message_topic::<SwitchStatus>() != message_topic::<MqttResponse>(),
{
    lemma_prefixes_distinct();
    lemma_topic_has_prefix(Update::spec_route());
    lemma_topic_has_prefix(SwitchStatus::spec_route());
    lemma_topic_has_prefix(MqttResponse::spec_route());
    lemma_prefixes_separate(message_topic::<Update>(), message_topic::<SwitchStatus>(), mqtt_prefix::REQUEST@, mqtt_prefix::STATUS@);
    lemma_prefixes_separate(message_topic::<Update>(), message_topic::<MqttResponse>(), mqtt_prefix::REQUEST@, mqtt_prefix::RESPONSE@);
    lemma_prefixes_separate(message_topic::<SwitchStatus>(), message_topic::<MqttResponse>(), mqtt_prefix::STATUS@, mqtt_prefix::RESPONSE@);
}

} // verus!
