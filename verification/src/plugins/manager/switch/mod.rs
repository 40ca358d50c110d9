//! Three switched sockets on active-low pins: sockets 1 and 2 are wired through
//! the normally-open contacts, socket 3 through the normally-closed ones, so a
//! request for socket 3 drives its pin the other way round.
pub mod action;

use vstd::prelude::*;
use crate::newtype::AtomicFixedString;
use super::relay_module::GpioOutput;
use super::relay_module::relay::{Relay, NC, NO, State, bool_of_state};
use self::action::{MqttResponse, SwitchStatus, Update};

verus! {

/// The three sockets.
#[derive(Debug)]
pub struct Manager {
    gpio_switch_1: NO<GpioOutput>,
    gpio_switch_2: NO<GpioOutput>,
    gpio_switch_3: NC<GpioOutput>,
}

/// Why the sockets could not be set up.
#[derive(Debug, Clone, Copy, PartialEq, Eq, Structural)]
pub enum Error {
    Setup,
}

pub open spec fn apply_field(old: bool, field: Option<bool>) -> bool {
    match field {
        Some(b) => b,
        None => old,
    }
}

/// The status after a request is applied.
pub open spec fn apply_update(s: SwitchStatus, u: Update) -> SwitchStatus {
    SwitchStatus {
        switch_1: apply_field(s.switch_1, u.switch_1),
        switch_2: apply_field(s.switch_2, u.switch_2),
        switch_3: apply_field(s.switch_3, u.switch_3),
    }
}

/// Which sockets are on for given pin levels (`true` for low): a low pin turns
/// sockets 1 and 2 on and socket 3 off.
pub open spec fn status_of_levels(l: (bool, bool, bool)) -> SwitchStatus {
    SwitchStatus { switch_1: l.0, switch_2: l.1, switch_3: !l.2 }
}

/// The pin levels (`true` for low) that give a status: socket 3 is driven the
/// other way round.
pub open spec fn levels_of_status(s: SwitchStatus) -> (bool, bool, bool) {
    (s.switch_1, s.switch_2, !s.switch_3)
}

impl Manager {
    /// Which sockets are on.
    pub closed spec fn status(&self) -> SwitchStatus {
        SwitchStatus {
            switch_1: bool_of_state(self.gpio_switch_1.contact()),
            switch_2: bool_of_state(self.gpio_switch_2.contact()),
            switch_3: bool_of_state(self.gpio_switch_3.contact()),
        }
    }

    /// The level of each pin, `true` for low.
    pub closed spec fn levels(&self) -> (bool, bool, bool) {
        (self.gpio_switch_1.0.low, self.gpio_switch_2.0.low, self.gpio_switch_3.0.low)
    }

    /// The status follows from the pin levels, and the pin levels from the
    /// status: sockets 1 and 2 are on while their pins are low, socket 3 while
    /// its pin is high.
    pub proof fn lemma_status_of_levels(&self)
        ensures
            self.status() == status_of_levels(self.levels()),
            self.levels() == levels_of_status(self.status()),
    {
    }

    /// The sockets as set up: every pin driven high, which leaves sockets 1 and 2
    /// off and socket 3 on.
    pub fn init() -> (r: Self)
        ensures
            r.levels() == (false, false, false),
            r.status() == (SwitchStatus { switch_1: false, switch_2: false, switch_3: true }),
    {
        let mut m = Manager {
            gpio_switch_1: NO::new(GpioOutput { low: false }),
            gpio_switch_2: NO::new(GpioOutput { low: false }),
            gpio_switch_3: NC::new(GpioOutput { low: false }),
        };
        m.gpio_switch_1.set_state(State::Open);
        m.gpio_switch_2.set_state(State::Open);
        m.gpio_switch_3.set_state(State::Close);
        m
    }

    /// The pin levels, to be written to the hardware.
    pub fn pin_levels(&self) -> (r: (bool, bool, bool))
        ensures
            r == self.levels(),
    {
        (self.gpio_switch_1.0.low, self.gpio_switch_2.0.low, self.gpio_switch_3.0.low)
    }

    /// Switches the sockets the request names. It always succeeds.
    pub fn update_state(&mut self, request: Update) -> (r: Result<(), Error>)
        ensures
            r is Ok,
            final(self).status() == apply_update(old(self).status(), request),
            final(self).levels() == levels_of_status(apply_update(old(self).status(), request)),
    {
        if let Some(s) = request.switch_1 {
            self.gpio_switch_1.set_state(State::from(s));
        }
        if let Some(s) = request.switch_2 {
            self.gpio_switch_2.set_state(State::from(s));
        }
        if let Some(s) = request.switch_3 {
            self.gpio_switch_3.set_state(State::from(s));
        }
        Ok(())
    }

    /// Which sockets are on.
    pub fn get_status(&self) -> (r: SwitchStatus)
        ensures
            r == self.status(),
    {
        SwitchStatus {
            switch_1: self.gpio_switch_1.get_state().into(),
            switch_2: self.gpio_switch_2.get_state().into(),
            switch_3: self.gpio_switch_3.get_state().into(),
        }
    }

    /// Answers a switching request received over MQTT.
    pub fn handle_request(request: Update, state: &mut Self) -> (r: Option<MqttResponse>)
        ensures
            final(state).status() == apply_update(old(state).status(), request),
            final(state).levels() == levels_of_status(apply_update(old(state).status(), request)),
            r matches Some(MqttResponse(Ok(m))) && m@ == "stated updated!"@,
    {
        match state.update_state(request) {
            Ok(()) => Some(MqttResponse(Ok(AtomicFixedString::from_str("stated updated!")))),
            Err(_) => Some(MqttResponse(Err(AtomicFixedString::from_str("unknowned error!")))),
        }
    }
}

} // verus!
