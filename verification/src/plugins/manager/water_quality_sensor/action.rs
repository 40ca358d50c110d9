//! Message kinds of the water quality sensor.
use vstd::prelude::*;
use crate::constants::{mqtt_prefix, project};
use crate::plugins::mqtt::Qos;
use crate::plugins::mqtt::add_on::action_message::{MessageImpl, Route};
use crate::plugins::mqtt::add_on::action_message::{has_prefix, lemma_prefixes_distinct, lemma_prefixes_separate, lemma_topic_has_prefix, message_topic, same_place};

verus! {

/// The topic group of the sensor.
pub const GROUP: &'static str = "water_quality_sensor";

/// Readings recorded for the database, once a minute.
#[derive(Debug, Clone, Copy, PartialEq, Eq, Structural)]
pub struct Database;

/// Readings reported as the sensor's status, once a second.
#[derive(Debug, Clone, Copy, PartialEq, Eq, Structural)]
pub struct MqttStatus;

impl MessageImpl for Database {
    open spec fn spec_route() -> Route {
        Route {
            prefix: mqtt_prefix::DATABASE,
            project: project::NAME,
            group: GROUP,
            device: project::DEVICE,
            qos: Qos::_1,
        }
    }

    fn route() -> (r: Route) {
        Route {
            prefix: mqtt_prefix::DATABASE,
            project: project::NAME,
            group: GROUP,
            device: project::DEVICE,
            qos: Qos::_1,
        }
    }
}

impl MessageImpl for MqttStatus {
    open spec fn spec_route() -> Route {
        Route {
            prefix: mqtt_prefix::STATUS,
            project: project::NAME,
            group: GROUP,
            device: project::DEVICE,
            qos: Qos::_1,
        }
    }

    fn route() -> (r: Route) {
        Route {
            prefix: mqtt_prefix::STATUS,
            project: project::NAME,
            group: GROUP,
            device: project::DEVICE,
            qos: Qos::_1,
        }
    }
}

/// Readings for the database are routed under `data/` and the status under
/// `status/`, both for the sensor's group and device; so the two topics differ.
pub proof fn lemma_routes()
    ensures
        has_prefix(message_topic::<Database>(), mqtt_prefix::DATABASE@ + seq!['/']),
        Database::spec_route().group@ == GROUP@,
        has_prefix(message_topic::<MqttStatus>(), mqtt_prefix::STATUS@ + seq!['/']),
        MqttStatus::spec_route().group@ == GROUP@,
        same_place(Database::spec_route(), MqttStatus::spec_route()),
        message_topic::<Database>() != message_topic::<MqttStatus>(),
{
    lemma_prefixes_distinct();
    lemma_topic_has_prefix(Database::spec_route());
    lemma_topic_has_prefix(MqttStatus::spec_route());
    lemma_prefixes_separate(message_topic::<Database>(), message_topic::<MqttStatus>(), mqtt_prefix::DATABASE@, mqtt_prefix::STATUS@);
}

} // verus!
