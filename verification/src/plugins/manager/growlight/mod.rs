//! The grow light: switched on and off by requests, driving relay 8 of the board.
pub mod action;

use vstd::prelude::*;
use crate::helper::{DAY_MS, TimeOfDay};
use super::relay_module::action::{RelayStatus, Update as RelayUpdate, resting_update};
use super::relay_module::apply_update;

verus! {

/// When the light is on each day: from `start_time` for `on_duration_ms`.
#[derive(Debug, Clone, Copy, PartialEq, Eq, Structural)]
pub struct Config {
    pub start_time: TimeOfDay,
    pub on_duration_ms: u64,
}

impl Config {
    /// The time of day at which the lighting period ends, wrapping past midnight.
    pub fn end_time(&self) -> (r: TimeOfDay)
        requires
            self.start_time.wf(),
        ensures
            r.wf(),
            r.ms_of_day() == (self.start_time.ms_of_day() + self.on_duration_ms) % (DAY_MS as int),
    {
        self.start_time.add_ms(self.on_duration_ms)
    }
}

impl Default for Config {
    /// 7:00 in the morning, for twelve hours.
    fn default() -> (r: Self)
        ensures
            r.start_time == (TimeOfDay { hour: 7, minute: 0, second: 0, millisecond: 0 }),
            r.on_duration_ms == 43_200_000,
    {
        Config {
            start_time: TimeOfDay { hour: 7, minute: 0, second: 0, millisecond: 0 },
            on_duration_ms: 12 * 60 * 60 * 1000,
        }
    }
}

/// Whether the light is on.
#[derive(Debug, Clone, Copy, PartialEq, Eq, Structural)]
pub struct Manager {
    pub state: bool,
}

impl Default for Manager {
    fn default() -> (r: Self)
        ensures
            r.state == false,
    {
        Manager { state: false }
    }
}

/// The reply to a request that switched the light on or off.
pub open spec fn switched_reply(on: bool) -> Seq<char> {
    if on {
        "growlight turned on"@
    } else {
        "growlight turned off"@
    }
}

/// The relay request that follows a change of the light: relay 8 takes the
/// light's state and every other relay goes back to its resting position.
pub open spec fn relay_request_spec(state: bool) -> RelayUpdate {
    RelayUpdate { relay_8: Some(state), ..resting_update() }
}

impl Manager {
    pub fn turn_on(&mut self)
        ensures
            final(self).state == true,
    {
        self.state = true;
    }

    pub fn turn_off(&mut self)
        ensures
            final(self).state == false,
    {
        self.state = false;
    }

    /// Answers a switching request received over MQTT.
    pub fn handle_request(request: action::Update, this: &mut Self) -> (r: Option<
        action::MqttResponse,
    >)
        ensures
            final(this).state == request.state,
            r matches Some(action::MqttResponse(Ok(m))) && m@ == switched_reply(request.state),
    {
        if request.state {
            this.turn_on();
            Some(action::MqttResponse::from_result(Ok("growlight turned on")))
        } else {
            this.turn_off();
            Some(action::MqttResponse::from_result(Ok("growlight turned off")))
        }
    }

    /// The request sent to the relay board when the light has changed.
    pub fn relay_request(&self) -> (r: RelayUpdate)
        ensures
            r == relay_request_spec(self.state),
    {
        RelayUpdate { relay_8: Some(self.state), ..RelayUpdate::default() }
    }
}

/// After the light's relay request, relay 8 is closed exactly when the light is
/// on, and every other relay is in its resting position.
pub proof fn lemma_relay_follows_light(s: RelayStatus, state: bool)
    ensures
        apply_update(s, relay_request_spec(state)) == (RelayStatus {
            relay_1: false,
            relay_2: false,
            relay_3: true,
            relay_6: false,
            relay_7: false,
            relay_8: state,
        }),
{
}

} // verus!
