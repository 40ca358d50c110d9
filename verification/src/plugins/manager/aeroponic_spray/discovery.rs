//! The sensors that announce the sprayer to Home Assistant.
use vstd::prelude::*;
use crate::plugins::mqtt::Qos;
use crate::plugins::mqtt::add_on::action_message::message_topic;
use crate::plugins::mqtt::add_on::home_assistant::{
    Device, Discovery, FieldValue, FieldView, announce, announce_spec, device_view, discoveries_view,
    discovery_view, fields_view, lemma_discovery_topic_injective,
};
use super::action::AeroponicSprayerStatus;

verus! {

/// The object group of the sprayer's discovery topics.
pub const DISCOVERY_GROUP: &'static str = "aeroponic_spray";

/// A sensor that reads the sprayer's status.
pub open spec fn sensor_fields(name: Seq<char>, icon: Seq<char>, value_template: Seq<char>) -> Seq<(Seq<char>, FieldView)> {
    seq![
        ("name"@, FieldView::Text(name)),
        ("icon"@, FieldView::Text(icon)),
        ("state_topic"@, FieldView::Text(message_topic::<AeroponicSprayerStatus>())),
        ("value_template"@, FieldView::Text(value_template)),
        ("device"@, FieldView::Device(seq!["aeroponics"@], "Aeroponics"@)),
    ]
}

/// The sprayer's state and its next scheduled spray, in that order.
pub open spec fn sensors_spec() -> Seq<(Seq<char>, Seq<(Seq<char>, FieldView)>, Qos, bool)> {
    seq![
        announce_spec(
            "sensor"@,
            "state"@,
            DISCOVERY_GROUP@,
            sensor_fields(
                "Sprayer Controller Command"@,
                "mdi:car-cruise-control"@,
                "{{ \"ON\" if value_json.sprayer_state else \"OFF\" }}"@,
            ),
        ),
        announce_spec(
            "sensor"@,
            "next_spray_time"@,
            DISCOVERY_GROUP@,
            sensor_fields(
                "Next Scheduled Spray"@,
                "mdi:clock"@,
                "{{ (as_datetime(value_json.next_spray_time) | as_local | string )[:19] }}"@,
            ),
        ),
    ]
}

proof fn lemma_status_topic()
    ensures
        "status/triponics/aeroponics/0"@ == message_topic::<AeroponicSprayerStatus>(),
{
    reveal_strlit("status/triponics/aeroponics/0");
    reveal_strlit("status");
    reveal_strlit("triponics");
    reveal_strlit("aeroponics");
    reveal_strlit("0");
    assert("status/triponics/aeroponics/0"@ =~= message_topic::<AeroponicSprayerStatus>());
}

fn sensor(object_id: &str, name: &'static str, icon: &'static str, value_template: &'static str) -> (r: Discovery)
    ensures
        discovery_view(r) == announce_spec(
            "sensor"@,
            object_id@,
            DISCOVERY_GROUP@,
            sensor_fields(name@, icon@, value_template@),
        ),
{
    proof {
        lemma_status_topic();
    }
    let device = Device { identifiers: &["aeroponics"], name: "Aeroponics" };
    assert(device_view(device).0 =~= seq!["aeroponics"@]);
    let fields = vec![
        ("name", FieldValue::Text(name)),
        ("icon", FieldValue::Text(icon)),
        ("state_topic", FieldValue::Text("status/triponics/aeroponics/0")),
        ("value_template", FieldValue::Text(value_template)),
        ("device", FieldValue::Device(device)),
    ];
    assert(fields_view(fields@) =~= sensor_fields(name@, icon@, value_template@));
    announce("sensor", object_id, DISCOVERY_GROUP, fields)
}

/// The discovery messages that announce the sprayer's sensors.
pub fn sensors() -> (r: Vec<Discovery>)
    ensures
        discoveries_view(r@) == sensors_spec(),
{
    let mut r: Vec<Discovery> = Vec::new();
    r.push(
        sensor(
            "state",
            "Sprayer Controller Command",
            "mdi:car-cruise-control",
            "{{ \"ON\" if value_json.sprayer_state else \"OFF\" }}",
        ),
    );
    r.push(
        sensor(
            "next_spray_time",
            "Next Scheduled Spray",
            "mdi:clock",
            "{{ (as_datetime(value_json.next_spray_time) | as_local | string )[:19] }}",
        ),
    );
    assert(discoveries_view(r@) =~= sensors_spec());
    r
}

/// The two sensors are announced on two different topics.
pub proof fn lemma_sensor_topics_distinct()
    ensures
        sensors_spec()[0].0 != sensors_spec()[1].0,
{
    reveal_strlit("state");
    reveal_strlit("next_spray_time");
    assert("state"@.len() != "next_spray_time"@.len());
    lemma_discovery_topic_injective("sensor"@, "state"@, "sensor"@, "next_spray_time"@, DISCOVERY_GROUP@);
}

/// The sprayer's state sensor shows `ON` exactly while the status reports the
/// sprayer on, and the schedule sensor shows the status's next spray time.
pub proof fn lemma_sensors_show_their_fields()
    ensures
        sensors_spec()[0].1[3] == ("value_template"@, FieldView::Text(
            "{{ \"ON\" if value_json."@ + "sprayer_state"@ + " else \"OFF\" }}"@,
        )),
        sensors_spec()[1].1[3] == ("value_template"@, FieldView::Text(
            "{{ (as_datetime(value_json."@ + "next_spray_time"@ + ") | as_local | string )[:19] }}"@,
        )),
{
    reveal_strlit("{{ \"ON\" if value_json.");
    reveal_strlit("sprayer_state");
    reveal_strlit(" else \"OFF\" }}");
    reveal_strlit("{{ \"ON\" if value_json.sprayer_state else \"OFF\" }}");
    reveal_strlit("{{ (as_datetime(value_json.");
    reveal_strlit("next_spray_time");
    reveal_strlit(") | as_local | string )[:19] }}");
    reveal_strlit("{{ (as_datetime(value_json.next_spray_time) | as_local | string )[:19] }}");
    assert("{{ \"ON\" if value_json."@ + "sprayer_state"@ + " else \"OFF\" }}"@
        =~= "{{ \"ON\" if value_json.sprayer_state else \"OFF\" }}"@);
    assert("{{ (as_datetime(value_json."@ + "next_spray_time"@ + ") | as_local | string )[:19] }}"@
        =~= "{{ (as_datetime(value_json.next_spray_time) | as_local | string )[:19] }}"@);
}

} // verus!
