//! The switches that announce the relays to Home Assistant.
use vstd::prelude::*;
use crate::constants::{mqtt_prefix, project};
use crate::plugins::mqtt::add_on::action_message::{message_topic, topic_spec};
use crate::plugins::mqtt::add_on::home_assistant::{
    Discovery, FieldValue, FieldView, announce, announce_spec, discoveries_view, discovery_topic_spec,
    fields_view, lemma_discovery_topic_injective,
};
use super::action::{GROUP, Update};

verus! {

/// The topic on which Home Assistant reads a relay's state back.
pub open spec fn switch_state_topic() -> Seq<char> {
    topic_spec(mqtt_prefix::DATABASE@, project::NAME@, GROUP@, project::DEVICE@)
}

/// The fields of one relay's switch: it sends requests on the relay board's
/// request topic and reads the state back on [`switch_state_topic`].
pub open spec fn switch_fields(
    name: Seq<char>,
    unique_id: Seq<char>,
    command_template: Seq<char>,
    value_template: Seq<char>,
) -> Seq<(Seq<char>, FieldView)> {
    seq![
        ("name"@, FieldView::Text(name)),
        ("unique_id"@, FieldView::Text(unique_id)),
        ("command_topic"@, FieldView::Text(message_topic::<Update>())),
        ("command_template"@, FieldView::Text(command_template)),
        ("payload_on"@, FieldView::Flag(true)),
        ("payload_off"@, FieldView::Flag(false)),
        ("state_topic"@, FieldView::Text(switch_state_topic())),
        ("value_template"@, FieldView::Text(value_template)),
        ("state_on"@, FieldView::Flag(true)),
        ("state_off"@, FieldView::Flag(false)),
        ("device"@, FieldView::Device(seq!["triponics-relay-module"@], "Relay Module"@)),
    ]
}

/// The switch of one relay, under the object id `slot`.
pub open spec fn switch_spec(
    slot: Seq<char>,
    name: Seq<char>,
    unique_id: Seq<char>,
    command_template: Seq<char>,
    value_template: Seq<char>,
) -> (Seq<char>, Seq<(Seq<char>, FieldView)>, crate::plugins::mqtt::Qos, bool) {
    announce_spec("switch"@, slot, GROUP@, switch_fields(name, unique_id, command_template, value_template))
}

proof fn lemma_switch_topics()
    ensures
        "request/triponics/relay_module/0"@ == message_topic::<Update>(),
        "data/triponics/relay_module/0"@ == switch_state_topic(),
{
    reveal_strlit("request/triponics/relay_module/0");
    reveal_strlit("data/triponics/relay_module/0");
    reveal_strlit("request");
    reveal_strlit("data");
    reveal_strlit("triponics");
    reveal_strlit("relay_module");
    reveal_strlit("0");
    assert("request/triponics/relay_module/0"@ =~= message_topic::<Update>());
    assert("data/triponics/relay_module/0"@ =~= switch_state_topic());
}

fn switch(
    slot: &str,
    name: &'static str,
    unique_id: &'static str,
    command_template: &'static str,
    value_template: &'static str,
) -> (r: Discovery)
    ensures
        crate::plugins::mqtt::add_on::home_assistant::discovery_view(r) == switch_spec(
            slot@,
            name@,
            unique_id@,
            command_template@,
            value_template@,
        ),
{
    proof {
        lemma_switch_topics();
    }
    let fields = vec![
        ("name", FieldValue::Text(name)),
        ("unique_id", FieldValue::Text(unique_id)),
        ("command_topic", FieldValue::Text("request/triponics/relay_module/0")),
        ("command_template", FieldValue::Text(command_template)),
        ("payload_on", FieldValue::Flag(true)),
        ("payload_off", FieldValue::Flag(false)),
        ("state_topic", FieldValue::Text("data/triponics/relay_module/0")),
        ("value_template", FieldValue::Text(value_template)),
        ("state_on", FieldValue::Flag(true)),
        ("state_off", FieldValue::Flag(false)),
        ("device", FieldValue::Device(crate::plugins::mqtt::add_on::home_assistant::Device {
            identifiers: &["triponics-relay-module"],
            name: "Relay Module",
        })),
    ];
    proof {
        let d = crate::plugins::mqtt::add_on::home_assistant::device_view(fields@[10].1->Device_0);
        assert(d.0 =~= seq!["triponics-relay-module"@]);
        assert(fields_view(fields@) =~= switch_fields(name@, unique_id@, command_template@, value_template@));
    }
    announce("switch", slot, GROUP, fields)
}

/// The switches of the relays that Home Assistant may drive, in order: relays
/// 1, 2, 3, 6, 7 and 8.
pub open spec fn switches_spec() -> Seq<(Seq<char>, Seq<(Seq<char>, FieldView)>, crate::plugins::mqtt::Qos, bool)> {
    seq![
        switch_spec(
            "relay_1"@,
            "Relay 1 (Switch 1)"@,
            "triponics-relay-module_1"@,
            "{ \"relay_1\" : {{value | lower}} }"@,
            "{{ value_json.relay_1 }}"@,
        ),
        switch_spec(
            "relay_2"@,
            "Relay 2 (Switch 2)"@,
            "triponics-relay-module_2"@,
            "{ \"relay_2\" : {{value | lower}} }"@,
            "{{ value_json.relay_2 }}"@,
        ),
        switch_spec(
            "relay_3"@,
            "Relay 3 (Switch 3)"@,
            "triponics-relay-module_3"@,
            "{ \"relay_3\" : {{value | lower}} }"@,
            "{{ value_json.relay_3 }}"@,
        ),
        switch_spec(
            "relay_4"@,
            "Relay 6 (Pump pH Down)"@,
            "triponics-relay-module_6"@,
            "{ \"relay_6\" : {{value | lower}} }"@,
            "{{ value_json.relay_6 }}"@,
        ),
        switch_spec(
            "relay_5"@,
            "Relay 7 (Pump pH Up)"@,
            "triponics-relay-module_7"@,
            "{ \"relay_7\" : {{value | lower}} }"@,
            "{{ value_json.relay_7 }}"@,
        ),
        switch_spec(
            "relay_8"@,
            "Relay 8 (Growlight)"@,
            "triponics-relay-module_8"@,
            "{ \"relay_8\" : {{value | lower}} }"@,
            "{{ value_json.relay_8 }}"@,
        ),
    ]
}

/// The discovery messages that announce the relay board's switches.
pub fn switches() -> (r: Vec<Discovery>)
    ensures
        discoveries_view(r@) == switches_spec(),
{
    let mut r: Vec<Discovery> = Vec::new();
    r.push(
        switch(
            "relay_1",
            "Relay 1 (Switch 1)",
            "triponics-relay-module_1",
            "{ \"relay_1\" : {{value | lower}} }",
            "{{ value_json.relay_1 }}",
        ),
    );
    r.push(
        switch(
            "relay_2",
            "Relay 2 (Switch 2)",
            "triponics-relay-module_2",
            "{ \"relay_2\" : {{value | lower}} }",
            "{{ value_json.relay_2 }}",
        ),
    );
    r.push(
        switch(
            "relay_3",
            "Relay 3 (Switch 3)",
            "triponics-relay-module_3",
            "{ \"relay_3\" : {{value | lower}} }",
            "{{ value_json.relay_3 }}",
        ),
    );
    r.push(
        switch(
            "relay_4",
            "Relay 6 (Pump pH Down)",
            "triponics-relay-module_6",
            "{ \"relay_6\" : {{value | lower}} }",
            "{{ value_json.relay_6 }}",
        ),
    );
    r.push(
        switch(
            "relay_5",
            "Relay 7 (Pump pH Up)",
            "triponics-relay-module_7",
            "{ \"relay_7\" : {{value | lower}} }",
            "{{ value_json.relay_7 }}",
        ),
    );
    r.push(
        switch(
            "relay_8",
            "Relay 8 (Growlight)",
            "triponics-relay-module_8",
            "{ \"relay_8\" : {{value | lower}} }",
            "{{ value_json.relay_8 }}",
        ),
    );
    assert(discoveries_view(r@) =~= switches_spec());
    r
}

/// The six switches are announced on six different topics, so that none
/// replaces another in Home Assistant.
pub proof fn lemma_switch_topics_distinct(i: int, j: int)
    requires
        0 <= i < j < 6,
    ensures
        switches_spec()[i].0 != switches_spec()[j].0,
{
    let slots = seq!["relay_1"@, "relay_2"@, "relay_3"@, "relay_4"@, "relay_5"@, "relay_8"@];
    reveal_strlit("relay_1");
    reveal_strlit("relay_2");
    reveal_strlit("relay_3");
    reveal_strlit("relay_4");
    reveal_strlit("relay_5");
    reveal_strlit("relay_8");
    assert(switches_spec()[i].0 == discovery_topic_spec("switch"@, slots[i], GROUP@));
    assert(switches_spec()[j].0 == discovery_topic_spec("switch"@, slots[j], GROUP@));
    assert(slots[i][6] != slots[j][6]);
    lemma_discovery_topic_injective("switch"@, slots[i], "switch"@, slots[j], GROUP@);
}

/// The keys of the relays that have switches, in the order of the switches.
pub open spec fn switch_keys() -> Seq<Seq<char>> {
    seq!["relay_1"@, "relay_2"@, "relay_3"@, "relay_6"@, "relay_7"@, "relay_8"@]
}

/// The command a switch sends: the relay board request that sets the relay
/// with this key to the switch's value.
pub open spec fn relay_command_template(key: Seq<char>) -> Seq<char> {
    "{ \""@ + key + "\" : {{value | lower}} }"@
}

/// How a switch reads its relay back from the board's state.
pub open spec fn relay_value_template(key: Seq<char>) -> Seq<char> {
    "{{ value_json."@ + key + " }}"@
}

/// Each switch drives and reads back one relay, the same one both ways, and no
/// two switches share a relay.
pub proof fn lemma_switches_drive_their_relays(i: int)
    requires
        0 <= i < 6,
    ensures
        switches_spec()[i].1[3] == ("command_template"@, FieldView::Text(relay_command_template(switch_keys()[i]))),
        switches_spec()[i].1[7] == ("value_template"@, FieldView::Text(relay_value_template(switch_keys()[i]))),
        forall|j: int| 0 <= j < 6 && j != i ==> switch_keys()[j] != switch_keys()[i],
{
    assert(relay_command_template("relay_1"@) == "{ \"relay_1\" : {{value | lower}} }"@) by {
        reveal_strlit("{ \"");
        reveal_strlit("\" : {{value | lower}} }");
        reveal_strlit("relay_1");
        reveal_strlit("{ \"relay_1\" : {{value | lower}} }");
        assert(relay_command_template("relay_1"@) =~= "{ \"relay_1\" : {{value | lower}} }"@);
    }
    assert(relay_value_template("relay_1"@) == "{{ value_json.relay_1 }}"@) by {
        reveal_strlit("{{ value_json.");
        reveal_strlit(" }}");
        reveal_strlit("relay_1");
        reveal_strlit("{{ value_json.relay_1 }}");
        assert(relay_value_template("relay_1"@) =~= "{{ value_json.relay_1 }}"@);
    }
    assert(relay_command_template("relay_2"@) == "{ \"relay_2\" : {{value | lower}} }"@) by {
        reveal_strlit("{ \"");
        reveal_strlit("\" : {{value | lower}} }");
        reveal_strlit("relay_2");
        reveal_strlit("{ \"relay_2\" : {{value | lower}} }");
        assert(relay_command_template("relay_2"@) =~= "{ \"relay_2\" : {{value | lower}} }"@);
    }
    assert(relay_value_template("relay_2"@) == "{{ value_json.relay_2 }}"@) by {
        reveal_strlit("{{ value_json.");
        reveal_strlit(" }}");
        reveal_strlit("relay_2");
        reveal_strlit("{{ value_json.relay_2 }}");
        assert(relay_value_template("relay_2"@) =~= "{{ value_json.relay_2 }}"@);
    }
    assert(relay_command_template("relay_3"@) == "{ \"relay_3\" : {{value | lower}} }"@) by {
        reveal_strlit("{ \"");
        reveal_strlit("\" : {{value | lower}} }");
        reveal_strlit("relay_3");
        reveal_strlit("{ \"relay_3\" : {{value | lower}} }");
        assert(relay_command_template("relay_3"@) =~= "{ \"relay_3\" : {{value | lower}} }"@);
    }
    assert(relay_value_template("relay_3"@) == "{{ value_json.relay_3 }}"@) by {
        reveal_strlit("{{ value_json.");
        reveal_strlit(" }}");
        reveal_strlit("relay_3");
        reveal_strlit("{{ value_json.relay_3 }}");
        assert(relay_value_template("relay_3"@) =~= "{{ value_json.relay_3 }}"@);
    }
    assert(relay_command_template("relay_6"@) == "{ \"relay_6\" : {{value | lower}} }"@) by {
        reveal_strlit("{ \"");
        reveal_strlit("\" : {{value | lower}} }");
        reveal_strlit("relay_6");
        reveal_strlit("{ \"relay_6\" : {{value | lower}} }");
        assert(relay_command_template("relay_6"@) =~= "{ \"relay_6\" : {{value | lower}} }"@);
    }
    assert(relay_value_template("relay_6"@) == "{{ value_json.relay_6 }}"@) by {
        reveal_strlit("{{ value_json.");
        reveal_strlit(" }}");
        reveal_strlit("relay_6");
        reveal_strlit("{{ value_json.relay_6 }}");
        assert(relay_value_template("relay_6"@) =~= "{{ value_json.relay_6 }}"@);
    }
    assert(relay_command_template("relay_7"@) == "{ \"relay_7\" : {{value | lower}} }"@) by {
        reveal_strlit("{ \"");
        reveal_strlit("\" : {{value | lower}} }");
        reveal_strlit("relay_7");
        reveal_strlit("{ \"relay_7\" : {{value | lower}} }");
        assert(relay_command_template("relay_7"@) =~= "{ \"relay_7\" : {{value | lower}} }"@);
    }
    assert(relay_value_template("relay_7"@) == "{{ value_json.relay_7 }}"@) by {
        reveal_strlit("{{ value_json.");
        reveal_strlit(" }}");
        reveal_strlit("relay_7");
        reveal_strlit("{{ value_json.relay_7 }}");
        assert(relay_value_template("relay_7"@) =~= "{{ value_json.relay_7 }}"@);
    }
    assert(relay_command_template("relay_8"@) == "{ \"relay_8\" : {{value | lower}} }"@) by {
        reveal_strlit("{ \"");
        reveal_strlit("\" : {{value | lower}} }");
        reveal_strlit("relay_8");
        reveal_strlit("{ \"relay_8\" : {{value | lower}} }");
        assert(relay_command_template("relay_8"@) =~= "{ \"relay_8\" : {{value | lower}} }"@);
    }
    assert(relay_value_template("relay_8"@) == "{{ value_json.relay_8 }}"@) by {
        reveal_strlit("{{ value_json.");
        reveal_strlit(" }}");
        reveal_strlit("relay_8");
        reveal_strlit("{{ value_json.relay_8 }}");
        assert(relay_value_template("relay_8"@) =~= "{{ value_json.relay_8 }}"@);
    }
    reveal_strlit("relay_1");
    reveal_strlit("relay_2");
    reveal_strlit("relay_3");
    reveal_strlit("relay_6");
    reveal_strlit("relay_7");
    reveal_strlit("relay_8");
    assert forall|j: int| 0 <= j < 6 && j != i implies switch_keys()[j] != switch_keys()[i] by {
        assert(switch_keys()[j][6] != switch_keys()[i][6]);
    }
}

} // verus!
