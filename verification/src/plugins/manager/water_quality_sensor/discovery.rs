//! The sensors that announce the water quality readings to Home Assistant.
use vstd::prelude::*;
use crate::plugins::mqtt::Qos;
use crate::plugins::mqtt::add_on::action_message::message_topic;
use crate::plugins::mqtt::add_on::home_assistant::{
    Device, Discovery, FieldValue, FieldView, announce, announce_spec, device_view, discoveries_view,
    discovery_topic_spec, discovery_view, fields_view, field_view, lemma_discovery_topic_injective,
};
use super::action::{GROUP, MqttStatus};

verus! {

/// A sensor that reads one value of the sensor's status; `unit` is `Null` for
/// a value without a unit.
pub open spec fn reading_fields(
    name: Seq<char>,
    icon: Seq<char>,
    value_template: Seq<char>,
    unit: FieldView,
) -> Seq<(Seq<char>, FieldView)> {
    seq![
        ("name"@, FieldView::Text(name)),
        ("icon"@, FieldView::Text(icon)),
        ("state_topic"@, FieldView::Text(message_topic::<MqttStatus>())),
        ("value_template"@, FieldView::Text(value_template)),
        ("unit_of_measurement"@, unit),
        ("device"@, FieldView::Device(seq!["water_quality_sensor"@], "Water Quality Sensor"@)),
    ]
}

/// The sampling time, pH, EC and temperature sensors, in that order.
pub open spec fn readings_spec() -> Seq<(Seq<char>, Seq<(Seq<char>, FieldView)>, Qos, bool)> {
    seq![
        announce_spec(
            "sensor"@,
            "time"@,
            GROUP@,
            reading_fields(
                "Sampled Time"@,
                "mdi:clock"@,
                "{{ as_datetime(value_json.timestamp) | as_local }}"@,
                FieldView::Null,
            ),
        ),
        announce_spec(
            "sensor"@,
            "ph"@,
            GROUP@,
            reading_fields("Water pH"@, "mdi:flask-round-bottom"@, "{{ value_json.ph }}"@, FieldView::Text("pH"@)),
        ),
        announce_spec(
            "sensor"@,
            "ec"@,
            GROUP@,
            reading_fields(
                "Water EC"@,
                "mdi:lightning-bolt-outline"@,
                "{{ value_json.ec }}"@,
                FieldView::Text("mS/cm"@),
            ),
        ),
        announce_spec(
            "sensor"@,
            "temperature"@,
            GROUP@,
            reading_fields(
                "Water Temperature"@,
                "mdi:water-thermometer"@,
                "{{ value_json.temp }}"@,
                FieldView::Text("°C"@),
            ),
        ),
    ]
}

proof fn lemma_status_topic()
    ensures
        "status/triponics/water_quality_sensor/0"@ == message_topic::<MqttStatus>(),
{
    reveal_strlit("status/triponics/water_quality_sensor/0");
    reveal_strlit("status");
    reveal_strlit("triponics");
    reveal_strlit("water_quality_sensor");
    reveal_strlit("0");
    assert("status/triponics/water_quality_sensor/0"@ =~= message_topic::<MqttStatus>());
}

fn reading(
    object_id: &str,
    name: &'static str,
    icon: &'static str,
    value_template: &'static str,
    unit: FieldValue,
) -> (r: Discovery)
    ensures
        discovery_view(r) == announce_spec(
            "sensor"@,
            object_id@,
            GROUP@,
            reading_fields(name@, icon@, value_template@, field_view(unit)),
        ),
{
    proof {
        lemma_status_topic();
    }
    let device = Device { identifiers: &["water_quality_sensor"], name: "Water Quality Sensor" };
    assert(device_view(device).0 =~= seq!["water_quality_sensor"@]);
    let fields = vec![
        ("name", FieldValue::Text(name)),
        ("icon", FieldValue::Text(icon)),
        ("state_topic", FieldValue::Text("status/triponics/water_quality_sensor/0")),
        ("value_template", FieldValue::Text(value_template)),
        ("unit_of_measurement", unit),
        ("device", FieldValue::Device(device)),
    ];
    assert(fields_view(fields@) =~= reading_fields(name@, icon@, value_template@, field_view(unit)));
    announce("sensor", object_id, GROUP, fields)
}

/// The discovery messages that announce the sensor's readings.
pub fn readings() -> (r: Vec<Discovery>)
    ensures
        discoveries_view(r@) == readings_spec(),
{
    let mut r: Vec<Discovery> = Vec::new();
    r.push(
        reading(
            "time",
            "Sampled Time",
            "mdi:clock",
            "{{ as_datetime(value_json.timestamp) | as_local }}",
            FieldValue::Null,
        ),
    );
    r.push(reading("ph", "Water pH", "mdi:flask-round-bottom", "{{ value_json.ph }}", FieldValue::Text("pH")));
    r.push(
        reading(
            "ec",
            "Water EC",
            "mdi:lightning-bolt-outline",
            "{{ value_json.ec }}",
            FieldValue::Text("mS/cm"),
        ),
    );
    r.push(
        reading(
            "temperature",
            "Water Temperature",
            "mdi:water-thermometer",
            "{{ value_json.temp }}",
            FieldValue::Text("°C"),
        ),
    );
    assert(discoveries_view(r@) =~= readings_spec());
    r
}

/// The four reading sensors are announced on four different topics.
pub proof fn lemma_reading_topics_distinct(i: int, j: int)
    requires
        0 <= i < j < 4,
    ensures
        readings_spec()[i].0 != readings_spec()[j].0,
{
    let objects = seq!["time"@, "ph"@, "ec"@, "temperature"@];
    reveal_strlit("time");
    reveal_strlit("ph");
    reveal_strlit("ec");
    reveal_strlit("temperature");
    assert(readings_spec()[i].0 == discovery_topic_spec("sensor"@, objects[i], GROUP@));
    assert(readings_spec()[j].0 == discovery_topic_spec("sensor"@, objects[j], GROUP@));
    if objects[i].len() == objects[j].len() {
        assert(objects[i][0] != objects[j][0]);
    }
    lemma_discovery_topic_injective("sensor"@, objects[i], "sensor"@, objects[j], GROUP@);
}

/// How a sensor reads one field of the sensor's status.
pub open spec fn reading_template(field: Seq<char>) -> Seq<char> {
    "{{ value_json."@ + field + " }}"@
}

/// Each reading sensor shows the status field it is named after, in that
/// field's unit: pH without scaling, conductivity in mS/cm, temperature in
/// degrees Celsius; the sampling time has no unit.
pub proof fn lemma_readings_show_their_fields()
    ensures
        readings_spec()[0].1[4] == ("unit_of_measurement"@, FieldView::Null),
        readings_spec()[1].1[0].1 == FieldView::Text("Water pH"@),
        readings_spec()[1].1[3] == ("value_template"@, FieldView::Text(reading_template("ph"@))),
        readings_spec()[1].1[4] == ("unit_of_measurement"@, FieldView::Text("pH"@)),
        readings_spec()[2].1[0].1 == FieldView::Text("Water EC"@),
        readings_spec()[2].1[3] == ("value_template"@, FieldView::Text(reading_template("ec"@))),
        readings_spec()[2].1[4] == ("unit_of_measurement"@, FieldView::Text("mS/cm"@)),
        readings_spec()[3].1[0].1 == FieldView::Text("Water Temperature"@),
        readings_spec()[3].1[3] == ("value_template"@, FieldView::Text(reading_template("temp"@))),
        readings_spec()[3].1[4] == ("unit_of_measurement"@, FieldView::Text("°C"@)),
{
    assert(reading_template("ph"@) == "{{ value_json.ph }}"@) by {
        reveal_strlit("{{ value_json.");
        reveal_strlit(" }}");
        reveal_strlit("ph");
        reveal_strlit("{{ value_json.ph }}");
        assert(reading_template("ph"@) =~= "{{ value_json.ph }}"@);
    }
    assert(reading_template("ec"@) == "{{ value_json.ec }}"@) by {
        reveal_strlit("{{ value_json.");
        reveal_strlit(" }}");
        reveal_strlit("ec");
        reveal_strlit("{{ value_json.ec }}");
        assert(reading_template("ec"@) =~= "{{ value_json.ec }}"@);
    }
    assert(reading_template("temp"@) == "{{ value_json.temp }}"@) by {
        reveal_strlit("{{ value_json.");
        reveal_strlit(" }}");
        reveal_strlit("temp");
        reveal_strlit("{{ value_json.temp }}");
        assert(reading_template("temp"@) =~= "{{ value_json.temp }}"@);
    }
}

} // verus!
