//! The relay board: six relays switched by requests and read back as a status.
//!
//! Every relay input is wired to an active-low output pin: driving the pin low
//! energizes the coil. Relays 1, 2, 6, 7 and 8 are normally open, relay 3 is
//! normally closed.
pub mod action;
pub mod discovery;
pub mod gpio;
pub mod relay;

use vstd::prelude::*;
use crate::newtype::AtomicFixedString;
use self::action::{MqttResponse, RelayStatus, Update, empty_update, resting_update};
use self::relay::{Relay, RelayCtrl, NC, NO, State, bool_of_state, state_of_bool};

verus! {

/// The output level of an active-low relay input pin; `low` energizes the coil.
#[derive(Debug, Clone, Copy, PartialEq, Eq, Structural)]
pub struct GpioOutput {
    pub low: bool,
}

impl RelayCtrl for GpioOutput {
    open spec fn energized(&self) -> bool {
        self.low
    }

    fn energize(&mut self) {
        self.low = true;
    }

    fn de_energize(&mut self) {
        self.low = false;
    }

    fn is_energize(&self) -> (r: bool) {
        self.low
    }
}

/// The output level of each relay input pin, `true` for low.
#[derive(Debug, Clone, Copy, PartialEq, Eq, Structural)]
pub struct PinLevels {
    pub relay_1: bool,
    pub relay_2: bool,
    pub relay_3: bool,
    pub relay_6: bool,
    pub relay_7: bool,
    pub relay_8: bool,
}

/// The six relays of the board.
#[derive(Debug)]
pub struct Manager {
    relay_1: NO<GpioOutput>,
    relay_2: NO<GpioOutput>,
    relay_3: NC<GpioOutput>,
    relay_6: NO<GpioOutput>,
    relay_7: NO<GpioOutput>,
    relay_8: NO<GpioOutput>,
}

/// The new reading of a relay after a request field: the requested state if
/// there is one, else the old reading.
pub open spec fn apply_field(old: bool, field: Option<bool>) -> bool {
    match field {
        Some(b) => b,
        None => old,
    }
}

/// The status after a request is applied to a status.
pub open spec fn apply_update(s: RelayStatus, u: Update) -> RelayStatus {
    RelayStatus {
        relay_1: apply_field(s.relay_1, u.relay_1),
        relay_2: apply_field(s.relay_2, u.relay_2),
        relay_3: apply_field(s.relay_3, u.relay_3),
        relay_6: apply_field(s.relay_6, u.relay_6),
        relay_7: apply_field(s.relay_7, u.relay_7),
        relay_8: apply_field(s.relay_8, u.relay_8),
    }
}

/// The contact state a pin level gives on a normally-open relay.
pub open spec fn no_reading(low: bool) -> bool {
    low
}

/// The contact state a pin level gives on a normally-closed relay.
pub open spec fn nc_reading(low: bool) -> bool {
    !low
}

/// The status the board reports for given pin levels.
pub open spec fn status_of_levels(l: PinLevels) -> RelayStatus {
    RelayStatus {
        relay_1: no_reading(l.relay_1),
        relay_2: no_reading(l.relay_2),
        relay_3: nc_reading(l.relay_3),
        relay_6: no_reading(l.relay_6),
        relay_7: no_reading(l.relay_7),
        relay_8: no_reading(l.relay_8),
    }
}

/// The reply to a request that was carried out.
pub open spec fn updated_reply() -> Seq<char> {
    "stated updated!"@
}

/// The failure reply; no request of this board fails.
pub open spec fn failed_reply() -> Seq<char> {
    "unknowned error!"@
}

/// Why switching failed. No switching request fails: driving a pin cannot go
/// wrong once the board is set up, so `update_state` never returns this.
#[derive(Debug)]
pub enum Error {
    Unreachable,
}

impl Manager {
    /// The status of the board: `true` for a closed relay.
    pub closed spec fn status(&self) -> RelayStatus {
        RelayStatus {
            relay_1: bool_of_state(self.relay_1.contact()),
            relay_2: bool_of_state(self.relay_2.contact()),
            relay_3: bool_of_state(self.relay_3.contact()),
            relay_6: bool_of_state(self.relay_6.contact()),
            relay_7: bool_of_state(self.relay_7.contact()),
            relay_8: bool_of_state(self.relay_8.contact()),
        }
    }

    /// The pin levels of the board.
    pub closed spec fn levels(&self) -> PinLevels {
        PinLevels {
            relay_1: self.relay_1.0.low,
            relay_2: self.relay_2.0.low,
            relay_3: self.relay_3.0.low,
            relay_6: self.relay_6.0.low,
            relay_7: self.relay_7.0.low,
            relay_8: self.relay_8.0.low,
        }
    }

    /// The reading of every relay follows from its pin level: a low pin closes a
    /// normally-open relay and opens a normally-closed one.
    pub proof fn lemma_status_of_levels(&self)
        ensures
            self.status() == status_of_levels(self.levels()),
    {
    }

    /// A board whose pins stand at the given levels.
    pub fn new(levels: PinLevels) -> (r: Self)
        ensures
            r.levels() == levels,
            r.status() == status_of_levels(levels),
    {
        Manager {
            relay_1: NO::new(GpioOutput { low: levels.relay_1 }),
            relay_2: NO::new(GpioOutput { low: levels.relay_2 }),
            relay_3: NC::new(GpioOutput { low: levels.relay_3 }),
            relay_6: NO::new(GpioOutput { low: levels.relay_6 }),
            relay_7: NO::new(GpioOutput { low: levels.relay_7 }),
            relay_8: NO::new(GpioOutput { low: levels.relay_8 }),
        }
    }

    /// The pin levels, to be written to the hardware.
    pub fn pin_levels(&self) -> (r: PinLevels)
        ensures
            r == self.levels(),
    {
        PinLevels {
            relay_1: self.relay_1.0.low,
            relay_2: self.relay_2.0.low,
            relay_3: self.relay_3.0.low,
            relay_6: self.relay_6.0.low,
            relay_7: self.relay_7.0.low,
            relay_8: self.relay_8.0.low,
        }
    }

    /// Switches every relay the request names to the requested state and leaves
    /// the others alone. It always succeeds.
    pub fn update_state(&mut self, request: Update) -> (r: Result<(), Error>)
        ensures
            r is Ok,
            final(self).status() == apply_update(old(self).status(), request),
            final(self).status() == status_of_levels(final(self).levels()),
    {
        if let Some(s) = request.relay_1 {
            self.relay_1.set_state(State::from(s));
        }
        if let Some(s) = request.relay_2 {
            self.relay_2.set_state(State::from(s));
        }
        if let Some(s) = request.relay_3 {
            self.relay_3.set_state(State::from(s));
        }
        if let Some(s) = request.relay_6 {
            self.relay_6.set_state(State::from(s));
        }
        if let Some(s) = request.relay_7 {
            self.relay_7.set_state(State::from(s));
        }
        if let Some(s) = request.relay_8 {
            self.relay_8.set_state(State::from(s));
        }
        Ok(())
    }

    /// Reads the contact state of every relay.
    pub fn get_status(&self) -> (r: RelayStatus)
        ensures
            r == self.status(),
    {
        RelayStatus {
            relay_1: self.relay_1.get_state().into(),
            relay_2: self.relay_2.get_state().into(),
            relay_3: self.relay_3.get_state().into(),
            relay_6: self.relay_6.get_state().into(),
            relay_7: self.relay_7.get_state().into(),
            relay_8: self.relay_8.get_state().into(),
        }
    }

    /// Answers a switching request received over MQTT: the request is carried out
    /// and acknowledged.
    pub fn handle_request(request: Update, state: &mut Self) -> (r: Option<MqttResponse>)
        ensures
            final(state).status() == apply_update(old(state).status(), request),
            r matches Some(MqttResponse(Ok(msg))) && msg@ == updated_reply(),
    {
        match state.update_state(request) {
            Ok(()) => Some(MqttResponse(Ok(AtomicFixedString::from_str("stated updated!")))),
            Err(_) => Some(MqttResponse(Err(AtomicFixedString::from_str("unknowned error!")))),
        }
    }
}

/// A request that names no relay changes nothing.
pub proof fn lemma_empty_update_keeps_status(s: RelayStatus)
    ensures
        apply_update(s, empty_update()) == s,
{
}

/// Carrying out the same request twice is the same as carrying it out once.
pub proof fn lemma_update_idempotent(s: RelayStatus, u: Update)
    ensures
        apply_update(apply_update(s, u), u) == apply_update(s, u),
{
}

/// Two requests in a row act as one request in which the later one wins for
/// every relay it names.
pub proof fn lemma_updates_compose(s: RelayStatus, u1: Update, u2: Update)
    ensures
        apply_update(apply_update(s, u1), u2) == apply_update(
            s,
            Update {
                relay_1: if u2.relay_1 is Some { u2.relay_1 } else { u1.relay_1 },
                relay_2: if u2.relay_2 is Some { u2.relay_2 } else { u1.relay_2 },
                relay_3: if u2.relay_3 is Some { u2.relay_3 } else { u1.relay_3 },
                relay_6: if u2.relay_6 is Some { u2.relay_6 } else { u1.relay_6 },
                relay_7: if u2.relay_7 is Some { u2.relay_7 } else { u1.relay_7 },
                relay_8: if u2.relay_8 is Some { u2.relay_8 } else { u1.relay_8 },
            },
        ),
{
}

/// The resting request, which the controller sends on shutdown, de-energizes
/// every coil: after it every pin is high, whatever the board's state before.
pub proof fn lemma_resting_update_releases_coils(before: Manager, after: Manager)
    requires
        after.status() == apply_update(before.status(), resting_update()),
    ensures
        after.levels() == (PinLevels {
            relay_1: false,
            relay_2: false,
            relay_3: false,
            relay_6: false,
            relay_7: false,
            relay_8: false,
        }),
{
}

} // verus!
