//! The pH dosing pumps: a dose request runs a pump's relay for one unit of time.
//!
//! A request sets a pump's flag; when the manager has changed (and was not just
//! added) and a flag is set, a dose starts: the pump's relay closes, and after
//! the configured time it opens again and the flag is cleared.
pub mod action;
pub mod discovery;

use vstd::prelude::*;
use crate::constants::{mqtt_prefix, project};
use crate::newtype::AtomicFixedString;
use crate::plugins::mqtt::Qos;
use crate::plugins::mqtt::add_on::action_message::{MessageImpl, Route};
use super::relay_module::action::{RelayStatus, Update as RelayUpdate, empty_update};
use super::relay_module::apply_update;
use crate::plugins::mqtt::add_on::action_message::{has_prefix, lemma_prefixes_distinct, lemma_prefixes_separate, lemma_topic_has_prefix, message_topic, same_place};

verus! {

/// How long one dose runs a pump.
#[derive(Debug, Clone, Copy, PartialEq, Eq, Structural)]
pub struct Config {
    pub unit_time_user_ms: u64,
}

impl Default for Config {
    /// Three seconds.
    fn default() -> (r: Self)
        ensures
            r.unit_time_user_ms == 3000,
    {
        Config { unit_time_user_ms: 3000 }
    }
}

impl MessageImpl for Config {
    open spec fn spec_route() -> Route {
        Route {
            prefix: mqtt_prefix::CONFIG,
            project: project::NAME,
            group: action::GROUP,
            device: project::DEVICE,
            qos: Qos::_1,
        }
    }

    fn route() -> (r: Route) {
        Route {
            prefix: mqtt_prefix::CONFIG,
            project: project::NAME,
            group: action::GROUP,
            device: project::DEVICE,
            qos: Qos::_1,
        }
    }
}

/// One of the two dosing pumps.
#[derive(Debug, Clone, Copy, PartialEq, Eq, Structural)]
pub enum Pump {
    /// The pH-down pump, on relay 6.
    Down,
    /// The pH-up pump, on relay 7.
    Up,
}

/// The pending dose flags and the configuration.
#[derive(Debug, Clone, Copy, PartialEq, Eq, Structural)]
pub struct Manager {
    pub ph_down_state: bool,
    pub ph_up_state: bool,
    pub config: Config,
}

/// The reply to every dosing request.
pub open spec fn dosing_reply() -> Seq<char> {
    "updated ph dosing state"@
}

/// The relay request that switches a pump's relay and leaves the others.
pub open spec fn pump_request_spec(pump: Pump, on: bool) -> RelayUpdate {
    match pump {
        Pump::Down => RelayUpdate { relay_6: Some(on), ..empty_update() },
        Pump::Up => RelayUpdate { relay_7: Some(on), ..empty_update() },
    }
}

impl Manager {
    /// Whether a dose of a pump is asked for.
    pub open spec fn flag(&self, pump: Pump) -> bool {
        match pump {
            Pump::Down => self.ph_down_state,
            Pump::Up => self.ph_up_state,
        }
    }

    pub fn new(config: Config) -> (r: Self)
        ensures
            r.config == config,
            !r.ph_down_state,
            !r.ph_up_state,
    {
        Manager { config, ph_down_state: false, ph_up_state: false }
    }

    /// Sets the flags the request names.
    pub fn update_state(&mut self, state: action::Update)
        ensures
            final(self).config == old(self).config,
            final(self).ph_down_state == match state.ph_down {
                Some(b) => b,
                None => old(self).ph_down_state,
            },
            final(self).ph_up_state == match state.ph_up {
                Some(b) => b,
                None => old(self).ph_up_state,
            },
    {
        if let Some(down_state) = state.ph_down {
            self.ph_down_state = down_state;
        }
        if let Some(up_state) = state.ph_up {
            self.ph_up_state = up_state;
        }
    }

    /// Answers a dosing request received over MQTT.
    pub fn handle_request(request: action::Update, state: &mut Self) -> (r: Option<action::Response>)
        ensures
            final(state).config == old(state).config,
            final(state).ph_down_state == match request.ph_down {
                Some(b) => b,
                None => old(state).ph_down_state,
            },
            final(state).ph_up_state == match request.ph_up {
                Some(b) => b,
                None => old(state).ph_up_state,
            },
            r matches Some(action::Response(Ok(m))) && m@ == dosing_reply(),
    {
        state.update_state(request);
        Some(action::Response(Ok(AtomicFixedString::from_str("updated ph dosing state"))))
    }

    /// Whether a dose of the pump starts now, and for how long: only when the
    /// manager has changed since the last check, was not just added, and the
    /// pump's flag is set.
    pub fn dose_to_start(&self, pump: Pump, changed: bool, added: bool) -> (r: Option<u64>)
        ensures
            r == (if changed && !added && self.flag(pump) {
                Some(self.config.unit_time_user_ms)
            } else {
                None::<u64>
            }),
    {
        if !changed || added {
            return None;
        }
        let flag = match pump {
            Pump::Down => self.ph_down_state,
            Pump::Up => self.ph_up_state,
        };
        if !flag {
            return None;
        }
        Some(self.config.unit_time_user_ms)
    }

    /// The relay request that switches a pump on or off.
    pub fn pump_request(pump: Pump, on: bool) -> (r: RelayUpdate)
        ensures
            r == pump_request_spec(pump, on),
    {
        match pump {
            Pump::Down => RelayUpdate { relay_6: Some(on), ..RelayUpdate::empty() },
            Pump::Up => RelayUpdate { relay_7: Some(on), ..RelayUpdate::empty() },
        }
    }

    /// Ends a dose: clears the pump's flag and gives the relay request that
    /// switches the pump off, with the request that records the cleared flag.
    pub fn finish_dose(&mut self, pump: Pump) -> (r: (RelayUpdate, action::Update))
        ensures
            !final(self).flag(pump),
            final(self).flag(match pump {
                Pump::Down => Pump::Up,
                Pump::Up => Pump::Down,
            }) == old(self).flag(match pump {
                Pump::Down => Pump::Up,
                Pump::Up => Pump::Down,
            }),
            final(self).config == old(self).config,
            r.0 == pump_request_spec(pump, false),
            r.1 == (match pump {
                Pump::Down => action::Update { ph_down: Some(false), ph_up: None },
                Pump::Up => action::Update { ph_down: None, ph_up: Some(false) },
            }),
    {
        match pump {
            Pump::Down => {
                self.ph_down_state = false;
                (Self::pump_request(pump, false), action::Update { ph_down: Some(self.ph_down_state), ph_up: None })
            },
            Pump::Up => {
                self.ph_up_state = false;
                (Self::pump_request(pump, false), action::Update { ph_down: None, ph_up: Some(self.ph_up_state) })
            },
        }
    }
}

/// A dose switches its pump's relay on and then off again: afterwards that
/// relay is open and every other relay is as it was before the dose.
pub proof fn lemma_dose_leaves_pump_off(s: RelayStatus, pump: Pump)
    ensures
        apply_update(apply_update(s, pump_request_spec(pump, true)), pump_request_spec(pump, false))
            == (match pump {
            Pump::Down => RelayStatus { relay_6: false, ..s },
            Pump::Up => RelayStatus { relay_7: false, ..s },
        }),
        apply_update(s, pump_request_spec(pump, true)) == (match pump {
            Pump::Down => RelayStatus { relay_6: true, ..s },
            Pump::Up => RelayStatus { relay_7: true, ..s },
        }),
{
}

/// The dosing configuration is routed under `config/`, for the dosing group and
/// device, apart from the dosing requests and replies.
pub proof fn lemma_config_route()
    ensures
        has_prefix(message_topic::<Config>(), mqtt_prefix::CONFIG@ + seq!['/']),
        same_place(Config::spec_route(), action::Update::spec_route()),
        message_topic::<Config>() != message_topic::<action::Update>(),
        message_topic::<Config>() != message_topic::<action::Response>(),
{
    lemma_prefixes_distinct();
    lemma_topic_has_prefix(Config::spec_route());
    lemma_topic_has_prefix(action::Update::spec_route());
    lemma_topic_has_prefix(action::Response::spec_route());
    lemma_prefixes_separate(message_topic::<Config>(), message_topic::<action::Update>(), mqtt_prefix::CONFIG@, mqtt_prefix::REQUEST@);
    lemma_prefixes_separate(message_topic::<Config>(), message_topic::<action::Response>(), mqtt_prefix::CONFIG@, mqtt_prefix::RESPONSE@);
}

} // verus!
