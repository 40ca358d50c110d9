use triponics::plugins::manager::aeroponic_spray::discovery::sensors;
use triponics::plugins::manager::ph_dosing::discovery::entities;
use triponics::plugins::manager::relay_module::discovery::switches;
use triponics::plugins::manager::water_quality_sensor::discovery::readings;
use triponics::plugins::manager::water_quality_sensor::{Manager as WaterManager, RawReading};
use triponics::plugins::mqtt::add_on::home_assistant::{announce, Discovery, FieldValue};
use triponics::plugins::mqtt::Qos;

fn text_field(d: &Discovery, name: &str) -> Option<&'static str> {
    d.fields.iter().find(|(n, _)| *n == name).and_then(|(_, v)| match v {
        FieldValue::Text(s) => Some(*s),
        _ => None,
    })
}

#[test]
fn announce_builds_topic_and_flags() {
    let d = announce("sensor", "ph", "water_quality_sensor", vec![("name", FieldValue::Text("Water pH"))]);
    assert_eq!(d.topic, "homeassistant/sensor/ph/water_quality_sensor/config");
    assert!(matches!(d.qos, Qos::_1));
    assert!(d.retained);
    assert_eq!(d.fields.len(), 1);
}

#[test]
fn relay_switches_cover_the_six_relays() {
    let all = switches();
    assert_eq!(all.len(), 6);
    let topics: Vec<&str> = all.iter().map(|d| d.topic.as_str()).collect();
    assert_eq!(
        topics,
        vec![
            "homeassistant/switch/relay_1/relay_module/config",
            "homeassistant/switch/relay_2/relay_module/config",
            "homeassistant/switch/relay_3/relay_module/config",
            "homeassistant/switch/relay_4/relay_module/config",
            "homeassistant/switch/relay_5/relay_module/config",
            "homeassistant/switch/relay_8/relay_module/config",
        ]
    );
    for d in &all {
        assert!(d.retained);
        assert_eq!(text_field(d, "command_topic"), Some("request/triponics/relay_module/0"));
        assert_eq!(text_field(d, "state_topic"), Some("data/triponics/relay_module/0"));
        assert_eq!(d.fields.len(), 11);
    }
    assert_eq!(text_field(&all[3], "name"), Some("Relay 6 (Pump pH Down)"));
    assert_eq!(text_field(&all[3], "command_template"), Some("{ \"relay_6\" : {{value | lower}} }"));
    assert_eq!(text_field(&all[5], "value_template"), Some("{{ value_json.relay_8 }}"));
    match all[0].fields[10].1 {
        FieldValue::Device(dev) => {
            assert_eq!(dev.identifiers, &["triponics-relay-module"][..]);
            assert_eq!(dev.name, "Relay Module");
        }
        _ => panic!("the last field is the device"),
    }
}

#[test]
fn dosing_entities_are_two_buttons_and_two_pumps() {
    let all = entities();
    assert_eq!(all.len(), 4);
    assert_eq!(all[0].topic, "homeassistant/button/down/ph_dosing/config");
    assert_eq!(all[1].topic, "homeassistant/button/up/ph_dosing/config");
    assert_eq!(all[2].topic, "homeassistant/sensor/ph_down_pump/ph_dosing/config");
    assert_eq!(all[3].topic, "homeassistant/sensor/ph_up_pump/ph_dosing/config");
    assert_eq!(text_field(&all[0], "command_topic"), Some("request/triponics/ph_dosing/0"));
    assert_eq!(text_field(&all[1], "command_template"), Some("{ \"ph_up\" : {{value | lower}} }"));
    assert!(matches!(all[0].fields[3], ("payload_press", FieldValue::Flag(true))));
    assert_eq!(text_field(&all[2], "state_topic"), Some("status/triponics/relay_module/0"));
    assert_eq!(text_field(&all[3], "icon"), Some("mdi:arrow-up-bold-circle"));
}

#[test]
fn sprayer_sensors_read_the_sprayer_status() {
    let all = sensors();
    assert_eq!(all.len(), 2);
    assert_eq!(all[0].topic, "homeassistant/sensor/state/aeroponic_spray/config");
    assert_eq!(all[1].topic, "homeassistant/sensor/next_spray_time/aeroponic_spray/config");
    for d in &all {
        assert_eq!(text_field(d, "state_topic"), Some("status/triponics/aeroponics/0"));
    }
    assert_eq!(text_field(&all[1], "name"), Some("Next Scheduled Spray"));
}

#[test]
fn water_readings_carry_their_units() {
    let all = readings();
    assert_eq!(all.len(), 4);
    assert_eq!(all[3].topic, "homeassistant/sensor/temperature/water_quality_sensor/config");
    assert!(matches!(all[0].fields[4], ("unit_of_measurement", FieldValue::Null)));
    assert_eq!(text_field(&all[1], "unit_of_measurement"), Some("pH"));
    assert_eq!(text_field(&all[2], "unit_of_measurement"), Some("mS/cm"));
    assert_eq!(text_field(&all[3], "unit_of_measurement"), Some("°C"));
    for d in &all {
        assert_eq!(text_field(d, "state_topic"), Some("status/triponics/water_quality_sensor/0"));
    }
}

#[test]
fn raw_reading_takes_registers_in_order() {
    let r = RawReading::from_registers(&vec![712, 1450, 215]);
    assert_eq!(r, RawReading { ph: 712, ec: 1450, temp: 215 });
    let longer = RawReading::from_registers(&vec![1, 2, 3, 4]);
    assert_eq!(longer, RawReading { ph: 1, ec: 2, temp: 3 });
}

#[test]
fn water_manager_keeps_latest_reading() {
    let mut m = WaterManager::default();
    assert_eq!(m.get_data(), RawReading { ph: 0, ec: 0, temp: 0 });
    m.update(RawReading { ph: 700, ec: 1200, temp: 210 });
    m.update(RawReading { ph: 705, ec: 1210, temp: 212 });
    assert_eq!(m.get_data(), RawReading { ph: 705, ec: 1210, temp: 212 });
}

#[test]
fn discovery_topics_are_distinct_within_each_device() {
    for list in [switches(), entities(), sensors(), readings()] {
        let topics: Vec<String> = list.iter().map(|d| d.topic.clone()).collect();
        for i in 0..topics.len() {
            for j in (i + 1)..topics.len() {
                assert_ne!(topics[i], topics[j]);
            }
        }
    }
}

#[test]
fn announce_keeps_object_ids_apart() {
    let a = announce("button", "down", "ph_dosing", Vec::new());
    let b = announce("sensor", "down", "ph_dosing", Vec::new());
    let c = announce("button", "up", "ph_dosing", Vec::new());
    assert_ne!(a.topic, b.topic);
    assert_ne!(a.topic, c.topic);
    assert_eq!(b.topic, "homeassistant/sensor/down/ph_dosing/config");
}
