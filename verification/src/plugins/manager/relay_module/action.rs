//! Messages of the relay board: switching requests, status reports and replies.
use vstd::prelude::*;
use crate::newtype::AtomicFixedString;
use crate::constants::{mqtt_prefix, project};
use crate::plugins::mqtt::Qos;
use crate::plugins::mqtt::add_on::action_message::{MessageImpl, Route};
use super::relay::{State, bool_of_state};
use crate::plugins::mqtt::add_on::action_message::{has_prefix, lemma_prefixes_distinct, lemma_prefixes_separate, lemma_topic_has_prefix, message_topic, same_place};

verus! {

/// The topic group of the relay board.
pub const GROUP: &'static str = "relay_module";

/// A switching request: `Some(true)` closes a relay, `Some(false)` opens it,
/// `None` leaves it as it is.
#[derive(Debug, Clone, Copy, PartialEq, Eq, Structural)]
pub struct Update {
    pub relay_1: Option<bool>,
    pub relay_2: Option<bool>,
    pub relay_3: Option<bool>,
    pub relay_6: Option<bool>,
    pub relay_7: Option<bool>,
    pub relay_8: Option<bool>,
}

/// The request that touches no relay.
pub open spec fn empty_update() -> Update {
    Update {
        relay_1: None,
        relay_2: None,
        relay_3: None,
        relay_6: None,
        relay_7: None,
        relay_8: None,
    }
}

/// The resting position of the board: every relay open except relay 3, which is closed.
pub open spec fn resting_update() -> Update {
    Update {
        relay_1: Some(bool_of_state(State::Open)),
        relay_2: Some(bool_of_state(State::Open)),
        relay_3: Some(bool_of_state(State::Close)),
        relay_6: Some(bool_of_state(State::Open)),
        relay_7: Some(bool_of_state(State::Open)),
        relay_8: Some(bool_of_state(State::Open)),
    }
}

impl Update {
    pub fn empty() -> (r: Self)
        ensures
            r == empty_update(),
    {
        Update {
            relay_1: None,
            relay_2: None,
            relay_3: None,
            relay_6: None,
            relay_7: None,
            relay_8: None,
        }
    }

    /// The text of the request as a map from relay name to `"ON"`/`"OFF"`, listing
    /// only the relays it touches, e.g. `{"relay_1": "ON", "relay_8": "OFF"}`.
    pub fn describe(&self) -> (r: String)
        ensures
            r@ == describe_spec(*self),
    {
        let mut out = String::from_str("{");
        proof {
            lemma_join_empty();
        }
        let mut first = true;
        let ghost e0: Seq<Seq<char>> = Seq::empty();
        let ghost e1 = with_entry(e0, "relay_1"@, self.relay_1);
        let ghost e2 = with_entry(e1, "relay_2"@, self.relay_2);
        let ghost e3 = with_entry(e2, "relay_3"@, self.relay_3);
        let ghost e6 = with_entry(e3, "relay_6"@, self.relay_6);
        let ghost e7 = with_entry(e6, "relay_7"@, self.relay_7);
        push_entry(&mut out, &mut first, Ghost(e0), "relay_1", self.relay_1);
        push_entry(&mut out, &mut first, Ghost(e1), "relay_2", self.relay_2);
        push_entry(&mut out, &mut first, Ghost(e2), "relay_3", self.relay_3);
        push_entry(&mut out, &mut first, Ghost(e3), "relay_6", self.relay_6);
        push_entry(&mut out, &mut first, Ghost(e6), "relay_7", self.relay_7);
        push_entry(&mut out, &mut first, Ghost(e7), "relay_8", self.relay_8);
        out.append("}");
        out
    }
}

impl Default for Update {
    fn default() -> (r: Self)
        ensures
            r == resting_update(),
    {
        Update {
            relay_1: Some(State::Open.into()),
            relay_2: Some(State::Open.into()),
            relay_3: Some(State::Close.into()),
            relay_6: Some(State::Open.into()),
            relay_7: Some(State::Open.into()),
            relay_8: Some(State::Open.into()),
        }
    }
}

/// `"ON"` for a closing request, `"OFF"` for an opening one.
pub open spec fn show_state(b: bool) -> Seq<char> {
    if b {
        "ON"@
    } else {
        "OFF"@
    }
}

/// One `"key": "ON"` entry of a request's text.
pub open spec fn entry_text(key: Seq<char>, b: bool) -> Seq<char> {
    "\""@ + key + "\": \""@ + show_state(b) + "\""@
}

/// Entries separated by `", "`.
pub open spec fn join_entries(entries: Seq<Seq<char>>) -> Seq<char>
    decreases entries.len(),
{
    if entries.len() == 0 {
        Seq::empty()
    } else if entries.len() == 1 {
        entries[0]
    } else {
        join_entries(entries.drop_last()) + ", "@ + entries.last()
    }
}

/// Adds the entry of a relay to the list when the request touches it.
pub open spec fn with_entry(acc: Seq<Seq<char>>, key: Seq<char>, field: Option<bool>) -> Seq<Seq<char>> {
    match field {
        Some(b) => acc.push(entry_text(key, b)),
        None => acc,
    }
}

pub open spec fn update_entries(u: Update) -> Seq<Seq<char>> {
    let e1 = with_entry(Seq::empty(), "relay_1"@, u.relay_1);
    let e2 = with_entry(e1, "relay_2"@, u.relay_2);
    let e3 = with_entry(e2, "relay_3"@, u.relay_3);
    let e6 = with_entry(e3, "relay_6"@, u.relay_6);
    let e7 = with_entry(e6, "relay_7"@, u.relay_7);
    with_entry(e7, "relay_8"@, u.relay_8)
}

pub open spec fn describe_spec(u: Update) -> Seq<char> {
    "{"@ + join_entries(update_entries(u)) + "}"@
}

proof fn lemma_join_empty()
    ensures
        join_entries(Seq::<Seq<char>>::empty()) == Seq::<char>::empty(),
{
}

fn show_state_str(b: bool) -> (r: &'static str)
    ensures
        r@ == show_state(b),
{
    if b {
        "ON"
    } else {
        "OFF"
    }
}

pub(crate) fn push_entry(
    out: &mut String,
    first: &mut bool,
    Ghost(acc): Ghost<Seq<Seq<char>>>,
    key: &'static str,
    field: Option<bool>,
)
    requires
        old(out)@ == "{"@ + join_entries(acc),
        *old(first) <==> acc.len() == 0,
    ensures
        final(out)@ == "{"@ + join_entries(with_entry(acc, key@, field)),
        *final(first) <==> with_entry(acc, key@, field).len() == 0,
{
    match field {
        Some(b) => {
            let ghost e = entry_text(key@, b);
            let ghost next = acc.push(e);
            if !*first {
                out.append(", ");
            }
            out.append("\"");
            out.append(key);
            out.append("\": \"");
            out.append(show_state_str(b));
            out.append("\"");
            *first = false;
            proof {
                assert(next.drop_last() =~= acc);
                if acc.len() == 0 {
                    assert(join_entries(next) == e);
                } else {
                    assert(join_entries(next) == join_entries(acc) + ", "@ + e);
                }
            }
        },
        None => {},
    }
}

/// The contact state of every relay, `true` for closed.
#[derive(Debug, Clone, Copy, PartialEq, Eq, Structural)]
pub struct RelayStatus {
    pub relay_1: bool,
    pub relay_2: bool,
    pub relay_3: bool,
    pub relay_6: bool,
    pub relay_7: bool,
    pub relay_8: bool,
}

/// The reply to a switching request.
#[derive(Debug)]
pub struct MqttResponse(pub Result<AtomicFixedString, AtomicFixedString>);

impl MessageImpl for Update {
    open spec fn spec_route() -> Route {
        Route {
            prefix: mqtt_prefix::REQUEST,
            project: project::NAME,
            group: GROUP,
            device: project::DEVICE,
            qos: Qos::_1,
        }
    }

    fn route() -> (r: Route) {
        Route {
            prefix: mqtt_prefix::REQUEST,
            project: project::NAME,
            group: GROUP,
            device: project::DEVICE,
            qos: Qos::_1,
        }
    }
}

impl MessageImpl for RelayStatus {
    open spec fn spec_route() -> Route {
        Route {
            prefix: mqtt_prefix::STATUS,
            project: project::NAME,
            group: GROUP,
            device: project::DEVICE,
            qos: Qos::_1,
        }
    }

    fn route() -> (r: Route) {
        Route {
            prefix: mqtt_prefix::STATUS,
            project: project::NAME,
            group: GROUP,
            device: project::DEVICE,
            qos: Qos::_1,
        }
    }
}

impl MessageImpl for MqttResponse {
    open spec fn spec_route() -> Route {
        Route {
            prefix: mqtt_prefix::RESPONSE,
            project: project::NAME,
            group: GROUP,
            device: project::DEVICE,
            qos: Qos::_1,
        }
    }

    fn route() -> (r: Route) {
        Route {
            prefix: mqtt_prefix::RESPONSE,
            project: project::NAME,
            group: GROUP,
            device: project::DEVICE,
            qos: Qos::_1,
        }
    }
}

/// Requests to the relay board are routed under `request/`, its status under
/// `status/` and its replies under `response/`, all for the board's group and
/// device; so the three topics differ.
pub proof fn lemma_routes()
    ensures
        has_prefix(message_topic::<Update>(), mqtt_prefix::REQUEST@ + seq!['/']),
        Update::spec_route().group@ == GROUP@,
        has_prefix(message_topic::<RelayStatus>(), mqtt_prefix::STATUS@ + seq!['/']),
        RelayStatus::spec_route().group@ == GROUP@,
        has_prefix(message_topic::<MqttResponse>(), mqtt_prefix::RESPONSE@ + seq!['/']),
        MqttResponse::spec_route().group@ == GROUP@,
        same_place(Update::spec_route(), RelayStatus::spec_route()),
        same_place(Update::spec_route(), MqttResponse::spec_route()),
        message_topic::<Update>() != message_topic::<RelayStatus>(),
        message_topic::<Update>() != message_topic::<MqttResponse>(),
        message_topic::<RelayStatus>() != message_topic::<MqttResponse>(),
{
    lemma_prefixes_distinct();
    lemma_topic_has_prefix(Update::spec_route());
    lemma_topic_has_prefix(RelayStatus::spec_route());
    lemma_topic_has_prefix(MqttResponse::spec_route());
    lemma_prefixes_separate(message_topic::<Update>(), message_topic::<RelayStatus>(), mqtt_prefix::REQUEST@, mqtt_prefix::STATUS@);
    lemma_prefixes_separate(message_topic::<Update>(), message_topic::<MqttResponse>(), mqtt_prefix::REQUEST@, mqtt_prefix::RESPONSE@);
    lemma_prefixes_separate(message_topic::<RelayStatus>(), message_topic::<MqttResponse>(), mqtt_prefix::STATUS@, mqtt_prefix::RESPONSE@);
}

} // verus!
