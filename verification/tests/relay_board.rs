use triponics::plugins::manager::relay_module::action::{RelayStatus, Update};
use triponics::plugins::manager::relay_module::relay::{Relay, RelayCtrl, State, NC, NO};
use triponics::plugins::manager::relay_module::{GpioOutput, Manager, PinLevels};
use triponics::plugins::mqtt::add_on::action_message::topic;

fn all_high() -> PinLevels {
    PinLevels {
        relay_1: false,
        relay_2: false,
        relay_3: false,
        relay_6: false,
        relay_7: false,
        relay_8: false,
    }
}

#[test]
fn normally_open_relay_closes_when_energized() {
    let mut r = NO::new(GpioOutput { low: false });
    assert!(matches!(r.get_state(), State::Open));
    r.set_state(State::Close);
    assert!(r.0.is_energize());
    assert!(r.0.low);
    assert!(matches!(r.get_state(), State::Close));
    r.set_state(State::Open);
    assert!(!r.0.low);
}

#[test]
fn normally_closed_relay_opens_when_energized() {
    let mut r = NC::new(GpioOutput { low: false });
    assert!(matches!(r.get_state(), State::Close));
    r.set_state(State::Open);
    assert!(r.0.low);
    assert!(matches!(r.get_state(), State::Open));
}

#[test]
fn state_and_bool_round_trip() {
    assert!(matches!(State::from(true), State::Close));
    assert!(matches!(State::from(false), State::Open));
    assert!(bool::from(State::Close));
    assert!(!bool::from(State::Open));
    assert!(bool::from(State::from(true)));
}

#[test]
fn board_reads_pin_levels() {
    let m = Manager::new(PinLevels { relay_1: true, relay_3: true, ..all_high() });
    let s = m.get_status();
    assert_eq!(
        s,
        RelayStatus {
            relay_1: true,
            relay_2: false,
            relay_3: false,
            relay_6: false,
            relay_7: false,
            relay_8: false,
        }
    );
}

#[test]
fn update_switches_only_named_relays() {
    let mut m = Manager::new(all_high());
    let before = m.get_status();
    assert!(before.relay_3);
    m.update_state(Update { relay_2: Some(true), relay_3: Some(false), ..Update::empty() })
        .unwrap();
    let after = m.get_status();
    assert!(after.relay_2);
    assert!(!after.relay_3);
    assert!(!after.relay_1 && !after.relay_6 && !after.relay_7 && !after.relay_8);
    let levels = m.pin_levels();
    assert!(levels.relay_2);
    assert!(levels.relay_3);
    assert!(!levels.relay_1);
}

#[test]
fn empty_update_changes_nothing() {
    let mut m = Manager::new(PinLevels { relay_6: true, ..all_high() });
    let before = m.get_status();
    m.update_state(Update::empty()).unwrap();
    assert_eq!(m.get_status(), before);
}

#[test]
fn resting_update_releases_every_coil() {
    let mut m = Manager::new(PinLevels {
        relay_1: true,
        relay_2: true,
        relay_3: true,
        relay_6: true,
        relay_7: true,
        relay_8: true,
    });
    m.update_state(Update::default()).unwrap();
    assert_eq!(m.pin_levels(), all_high());
    assert_eq!(
        m.get_status(),
        RelayStatus {
            relay_1: false,
            relay_2: false,
            relay_3: true,
            relay_6: false,
            relay_7: false,
            relay_8: false,
        }
    );
}

#[test]
fn request_is_acknowledged() {
    let mut m = Manager::new(all_high());
    let r = Manager::handle_request(Update { relay_8: Some(true), ..Update::empty() }, &mut m)
        .unwrap();
    assert_eq!(r.0.unwrap().as_str(), "stated updated!");
    assert!(m.get_status().relay_8);
}

#[test]
fn update_text_lists_named_relays() {
    let u = Update { relay_1: Some(true), relay_8: Some(false), ..Update::empty() };
    assert_eq!(u.describe(), "{\"relay_1\": \"ON\", \"relay_8\": \"OFF\"}");
    assert_eq!(Update::empty().describe(), "{}");
    assert_eq!(
        Update::default().describe(),
        "{\"relay_1\": \"OFF\", \"relay_2\": \"OFF\", \"relay_3\": \"ON\", \"relay_6\": \"OFF\", \"relay_7\": \"OFF\", \"relay_8\": \"OFF\"}"
    );
}

#[test]
fn relay_topics() {
    assert_eq!(topic::<Update>().as_str(), "request/triponics/relay_module/0");
    assert_eq!(topic::<RelayStatus>().as_str(), "status/triponics/relay_module/0");
    assert_eq!(
        topic::<triponics::plugins::manager::relay_module::action::MqttResponse>().as_str(),
        "response/triponics/relay_module/0"
    );
}
