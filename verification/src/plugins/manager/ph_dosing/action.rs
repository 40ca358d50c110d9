//! Messages of the pH dosing pumps.
use vstd::prelude::*;
use crate::constants::{mqtt_prefix, project};
use crate::newtype::AtomicFixedString;
use crate::plugins::mqtt::Qos;
use crate::plugins::mqtt::add_on::action_message::{MessageImpl, Route};
use crate::plugins::manager::relay_module::action::join_entries;
use crate::plugins::mqtt::add_on::action_message::{has_prefix, lemma_prefixes_distinct, lemma_prefixes_separate, lemma_topic_has_prefix, message_topic, same_place};

verus! {

/// The topic group of the dosing pumps.
pub const GROUP: &'static str = "ph_dosing";

/// A dosing request: `Some(true)` asks for a dose of pH-down or pH-up solution.
#[derive(Debug, Clone, Copy, PartialEq, Eq, Structural)]
pub struct Update {
    pub ph_down: Option<bool>,
    pub ph_up: Option<bool>,
}

/// `true` or `false`.
pub open spec fn bool_text(b: bool) -> Seq<char> {
    if b {
        "true"@
    } else {
        "false"@
    }
}

/// One `"key": value` entry of a request's text.
pub open spec fn dose_entry_text(key: Seq<char>, b: bool) -> Seq<char> {
    "\""@ + key + "\": "@ + bool_text(b)
}

pub open spec fn with_dose_entry(acc: Seq<Seq<char>>, key: Seq<char>, field: Option<bool>) -> Seq<
    Seq<char>,
> {
    match field {
        Some(b) => acc.push(dose_entry_text(key, b)),
        None => acc,
    }
}

/// The text of a request: the pH-up entry first, then the pH-down entry, each
/// only when present, e.g. `{"ph_up": true, "ph_down": false}`.
pub open spec fn describe_spec(u: Update) -> Seq<char> {
    let e1 = with_dose_entry(Seq::empty(), "ph_up"@, u.ph_up);
    let e2 = with_dose_entry(e1, "ph_down"@, u.ph_down);
    "{"@ + join_entries(e2) + "}"@
}

fn bool_str(b: bool) -> (r: &'static str)
    ensures
        r@ == bool_text(b),
{
    if b {
        "true"
    } else {
        "false"
    }
}

fn push_dose_entry(
    out: &mut String,
    first: &mut bool,
    Ghost(acc): Ghost<Seq<Seq<char>>>,
    key: &'static str,
    field: Option<bool>,
)
    requires
        old(out)@ == "{"@ + join_entries(acc),
        *old(first) <==> acc.len() == 0,
    ensures
        final(out)@ == "{"@ + join_entries(with_dose_entry(acc, key@, field)),
        *final(first) <==> with_dose_entry(acc, key@, field).len() == 0,
{
    match field {
        Some(b) => {
            let ghost e = dose_entry_text(key@, b);
            let ghost next = acc.push(e);
            if !*first {
                out.append(", ");
            }
            out.append("\"");
            out.append(key);
            out.append("\": ");
            out.append(bool_str(b));
            *first = false;
            proof {
                assert(next.drop_last() =~= acc);
                if acc.len() == 0 {
                    assert(join_entries(next) == e);
                } else {
                    assert(join_entries(next) == join_entries(acc) + ", "@ + e);
                }
            }
        },
        None => {},
    }
}

impl Update {
    /// The text of the request, as [`describe_spec`] writes it.
    pub fn describe(&self) -> (r: String)
        ensures
            r@ == describe_spec(*self),
    {
        let mut out = String::from_str("{");
        let mut first = true;
        let ghost e0: Seq<Seq<char>> = Seq::empty();
        let ghost e1 = with_dose_entry(e0, "ph_up"@, self.ph_up);
        assert(join_entries(e0) == Seq::<char>::empty());
        push_dose_entry(&mut out, &mut first, Ghost(e0), "ph_up", self.ph_up);
        push_dose_entry(&mut out, &mut first, Ghost(e1), "ph_down", self.ph_down);
        out.append("}");
        out
    }
}

/// The reply to a dosing request.
#[derive(Debug)]
pub struct Response(pub Result<AtomicFixedString, AtomicFixedString>);

impl MessageImpl for Update {
    open spec fn spec_route() -> Route {
        Route {
            prefix: mqtt_prefix::REQUEST,
            project: project::NAME,
            group: GROUP,
            device: project::DEVICE,
            qos: Qos::_1,
        }
    }

    fn route() -> (r: Route) {
        Route {
            prefix: mqtt_prefix::REQUEST,
            project: project::NAME,
            group: GROUP,
            device: project::DEVICE,
            qos: Qos::_1,
        }
    }
}

impl MessageImpl for Response {
    open spec fn spec_route() -> Route {
        Route {
            prefix: mqtt_prefix::RESPONSE,
            project: project::NAME,
            group: GROUP,
            device: project::DEVICE,
            qos: Qos::_1,
        }
    }

    fn route() -> (r: Route) {
        Route {
            prefix: mqtt_prefix::RESPONSE,
            project: project::NAME,
            group: GROUP,
            device: project::DEVICE,
            qos: Qos::_1,
        }
    }
}

/// Dosing requests are routed under `request/` and replies under `response/`,
/// both for the dosing group and device; so the two topics differ.
pub proof fn lemma_routes()
    ensures
        has_prefix(message_topic::<Update>(), mqtt_prefix::REQUEST@ + seq!['/']),
        Update::spec_route().group@ == GROUP@,
        has_prefix(message_topic::<Response>(), mqtt_prefix::RESPONSE@ + seq!['/']),
        Response::spec_route().group@ == GROUP@,
        same_place(Update::spec_route(), Response::spec_route()),
        message_topic::<Update>() != message_topic::<Response>(),
{
    lemma_prefixes_distinct();
    lemma_topic_has_prefix(Update::spec_route());
    lemma_topic_has_prefix(Response::spec_route());
    lemma_prefixes_separate(message_topic::<Update>(), message_topic::<Response>(), mqtt_prefix::REQUEST@, mqtt_prefix::RESPONSE@);
}

} // verus!
