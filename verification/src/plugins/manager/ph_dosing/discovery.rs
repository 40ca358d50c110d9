//! The buttons and sensors that announce the dosing pumps to Home Assistant.
use vstd::prelude::*;
use crate::plugins::mqtt::Qos;
use crate::plugins::mqtt::add_on::action_message::message_topic;
use crate::plugins::mqtt::add_on::home_assistant::{
    Device, Discovery, FieldValue, FieldView, announce, announce_spec, device_view, discoveries_view,
    discovery_topic_spec, discovery_view, fields_view, lemma_discovery_topic_injective,
};
use crate::plugins::manager::relay_module::action::RelayStatus;
use super::action::{GROUP, Update};

verus! {

/// The device that the pumps' entities belong to.
pub open spec fn pumps_device() -> FieldView {
    FieldView::Device(seq!["triponics-ph-dosing"@], "Dosing Pumps"@)
}

/// A button that asks for one dose: it sends on the dosing request topic.
pub open spec fn button_fields(name: Seq<char>, command_template: Seq<char>) -> Seq<(Seq<char>, FieldView)> {
    seq![
        ("name"@, FieldView::Text(name)),
        ("command_topic"@, FieldView::Text(message_topic::<Update>())),
        ("command_template"@, FieldView::Text(command_template)),
        ("payload_press"@, FieldView::Flag(true)),
        ("device"@, pumps_device()),
    ]
}

/// A sensor that shows whether a pump runs: it reads the relay board's status.
pub open spec fn pump_fields(name: Seq<char>, value_template: Seq<char>, icon: Seq<char>) -> Seq<(Seq<char>, FieldView)> {
    seq![
        ("name"@, FieldView::Text(name)),
        ("state_topic"@, FieldView::Text(message_topic::<RelayStatus>())),
        ("value_template"@, FieldView::Text(value_template)),
        ("icon"@, FieldView::Text(icon)),
        ("device"@, pumps_device()),
    ]
}

/// The two dose buttons and the two pump sensors, in that order.
pub open spec fn entities_spec() -> Seq<(Seq<char>, Seq<(Seq<char>, FieldView)>, Qos, bool)> {
    seq![
        announce_spec(
            "button"@,
            "down"@,
            GROUP@,
            button_fields("Dose pH Down"@, "{ \"ph_down\" : {{value | lower}} }"@),
        ),
        announce_spec(
            "button"@,
            "up"@,
            GROUP@,
            button_fields("Dose pH Up"@, "{ \"ph_up\" : {{value | lower}} }"@),
        ),
        announce_spec(
            "sensor"@,
            "ph_down_pump"@,
            GROUP@,
            pump_fields(
                "Pump pH Down"@,
                "{{ \"ON\" if value_json.relay_6 else \"OFF\"}}"@,
                "mdi:arrow-down-bold-circle"@,
            ),
        ),
        announce_spec(
            "sensor"@,
            "ph_up_pump"@,
            GROUP@,
            pump_fields(
                "Pump pH Up"@,
                "{{ \"ON\" if value_json.relay_7 else \"OFF\"}}"@,
                "mdi:arrow-up-bold-circle"@,
            ),
        ),
    ]
}

proof fn lemma_topics()
    ensures
        "request/triponics/ph_dosing/0"@ == message_topic::<Update>(),
        "status/triponics/relay_module/0"@ == message_topic::<RelayStatus>(),
{
    reveal_strlit("request/triponics/ph_dosing/0");
    reveal_strlit("status/triponics/relay_module/0");
    reveal_strlit("request");
    reveal_strlit("status");
    reveal_strlit("triponics");
    reveal_strlit("ph_dosing");
    reveal_strlit("relay_module");
    reveal_strlit("0");
    assert("request/triponics/ph_dosing/0"@ =~= message_topic::<Update>());
    assert("status/triponics/relay_module/0"@ =~= message_topic::<RelayStatus>());
}

fn pumps() -> (r: FieldValue)
    ensures
        field_view_is(r, pumps_device()),
{
    let r = FieldValue::Device(Device { identifiers: &["triponics-ph-dosing"], name: "Dosing Pumps" });
    assert(device_view(r->Device_0).0 =~= seq!["triponics-ph-dosing"@]);
    r
}

/// Whether a field value is seen as `v`.
pub open spec fn field_view_is(f: FieldValue, v: FieldView) -> bool {
    crate::plugins::mqtt::add_on::home_assistant::field_view(f) == v
}

fn button(object_id: &str, name: &'static str, command_template: &'static str) -> (r: Discovery)
    ensures
        discovery_view(r) == announce_spec("button"@, object_id@, GROUP@, button_fields(name@, command_template@)),
{
    proof {
        lemma_topics();
    }
    let fields = vec![
        ("name", FieldValue::Text(name)),
        ("command_topic", FieldValue::Text("request/triponics/ph_dosing/0")),
        ("command_template", FieldValue::Text(command_template)),
        ("payload_press", FieldValue::Flag(true)),
        ("device", pumps()),
    ];
    assert(fields_view(fields@) =~= button_fields(name@, command_template@));
    announce("button", object_id, GROUP, fields)
}

fn pump(object_id: &str, name: &'static str, value_template: &'static str, icon: &'static str) -> (r: Discovery)
    ensures
        discovery_view(r) == announce_spec("sensor"@, object_id@, GROUP@, pump_fields(name@, value_template@, icon@)),
{
    proof {
        lemma_topics();
    }
    let fields = vec![
        ("name", FieldValue::Text(name)),
        ("state_topic", FieldValue::Text("status/triponics/relay_module/0")),
        ("value_template", FieldValue::Text(value_template)),
        ("icon", FieldValue::Text(icon)),
        ("device", pumps()),
    ];
    assert(fields_view(fields@) =~= pump_fields(name@, value_template@, icon@));
    announce("sensor", object_id, GROUP, fields)
}

/// The discovery messages that announce the dose buttons and the pump sensors.
pub fn entities() -> (r: Vec<Discovery>)
    ensures
        discoveries_view(r@) == entities_spec(),
{
    let mut r: Vec<Discovery> = Vec::new();
    r.push(button("down", "Dose pH Down", "{ \"ph_down\" : {{value | lower}} }"));
    r.push(button("up", "Dose pH Up", "{ \"ph_up\" : {{value | lower}} }"));
    r.push(
        pump(
            "ph_down_pump",
            "Pump pH Down",
            "{{ \"ON\" if value_json.relay_6 else \"OFF\"}}",
            "mdi:arrow-down-bold-circle",
        ),
    );
    r.push(
        pump(
            "ph_up_pump",
            "Pump pH Up",
            "{{ \"ON\" if value_json.relay_7 else \"OFF\"}}",
            "mdi:arrow-up-bold-circle",
        ),
    );
    assert(discoveries_view(r@) =~= entities_spec());
    r
}

/// The two buttons and the two pump sensors are announced on four different
/// topics.
pub proof fn lemma_entity_topics_distinct(i: int, j: int)
    requires
        0 <= i < j < 4,
    ensures
        entities_spec()[i].0 != entities_spec()[j].0,
{
    let components = seq!["button"@, "button"@, "sensor"@, "sensor"@];
    let objects = seq!["down"@, "up"@, "ph_down_pump"@, "ph_up_pump"@];
    reveal_strlit("button");
    reveal_strlit("sensor");
    reveal_strlit("down");
    reveal_strlit("up");
    reveal_strlit("ph_down_pump");
    reveal_strlit("ph_up_pump");
    assert(entities_spec()[i].0 == discovery_topic_spec(components[i], objects[i], GROUP@));
    assert(entities_spec()[j].0 == discovery_topic_spec(components[j], objects[j], GROUP@));
    if components[i] == components[j] {
        if objects[i].len() == objects[j].len() {
            assert(objects[i][3] != objects[j][3]);
        }
    } else {
        assert(components[i][0] != components[j][0]);
    }
    lemma_discovery_topic_injective(components[i], objects[i], components[j], objects[j], GROUP@);
}

/// The command a button sends: the dosing request with the given pump's flag
/// set to the pressed value.
pub open spec fn press_template(key: Seq<char>) -> Seq<char> {
    "{ \""@ + key + "\" : {{value | lower}} }"@
}

/// What a pump sensor shows: `ON` while the given relay of the board is closed.
pub open spec fn relay_state_template(relay: Seq<char>) -> Seq<char> {
    "{{ \"ON\" if value_json."@ + relay + " else \"OFF\"}}"@
}

/// Each button doses the pump it is labelled with, and each pump sensor reads
/// the relay that the pump's doses switch: the "Dose pH Down" button sets
/// `ph_down` and the "Dose pH Up" button `ph_up`, which are different requests;
/// the pH-down pump sensor reads relay 6, the relay a pH-down dose switches,
/// and the pH-up one relay 7.
pub proof fn lemma_entities_name_their_pumps()
    ensures
        entities_spec()[0].0 == crate::plugins::mqtt::add_on::home_assistant::discovery_topic_spec(
            "button"@,
            "down"@,
            GROUP@,
        ),
        entities_spec()[0].1[0].1 == FieldView::Text("Dose pH Down"@),
        entities_spec()[0].1[2] == ("command_template"@, FieldView::Text(press_template("ph_down"@))),
        entities_spec()[1].1[0].1 == FieldView::Text("Dose pH Up"@),
        entities_spec()[1].1[2] == ("command_template"@, FieldView::Text(press_template("ph_up"@))),
        press_template("ph_down"@) != press_template("ph_up"@),
        entities_spec()[2].1[0].1 == FieldView::Text("Pump pH Down"@),
        entities_spec()[2].1[2] == ("value_template"@, FieldView::Text(relay_state_template("relay_6"@))),
        entities_spec()[3].1[0].1 == FieldView::Text("Pump pH Up"@),
        entities_spec()[3].1[2] == ("value_template"@, FieldView::Text(relay_state_template("relay_7"@))),
        super::pump_request_spec(super::Pump::Down, true).relay_6 == Some(true),
        super::pump_request_spec(super::Pump::Down, true).relay_7 is None,
        super::pump_request_spec(super::Pump::Up, true).relay_7 == Some(true),
        super::pump_request_spec(super::Pump::Up, true).relay_6 is None,
{
    reveal_strlit("{ \"");
    reveal_strlit("\" : {{value | lower}} }");
    reveal_strlit("ph_down");
    reveal_strlit("ph_up");
    reveal_strlit("{ \"ph_down\" : {{value | lower}} }");
    reveal_strlit("{ \"ph_up\" : {{value | lower}} }");
    reveal_strlit("{{ \"ON\" if value_json.");
    reveal_strlit(" else \"OFF\"}}");
    reveal_strlit("relay_6");
    reveal_strlit("relay_7");
    reveal_strlit("{{ \"ON\" if value_json.relay_6 else \"OFF\"}}");
    reveal_strlit("{{ \"ON\" if value_json.relay_7 else \"OFF\"}}");
    assert(press_template("ph_down"@) =~= "{ \"ph_down\" : {{value | lower}} }"@);
    assert(press_template("ph_up"@) =~= "{ \"ph_up\" : {{value | lower}} }"@);
    assert(press_template("ph_down"@).len() != press_template("ph_up"@).len());
    assert(relay_state_template("relay_6"@) =~= "{{ \"ON\" if value_json.relay_6 else \"OFF\"}}"@);
    assert(relay_state_template("relay_7"@) =~= "{{ \"ON\" if value_json.relay_7 else \"OFF\"}}"@);
}

} // verus!
