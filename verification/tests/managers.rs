use triponics::helper::TimeOfDay;
use triponics::plugins::manager::aeroponic_spray::{self, WatchEvent};
use triponics::plugins::manager::growlight;
use triponics::plugins::manager::ph_dosing::{self, Pump};
use triponics::plugins::manager::relay_module::action::{Update as RelayUpdate};
use triponics::plugins::manager::relay_module::{Manager as RelayManager, PinLevels};
use triponics::plugins::manager::switch;
use triponics::plugins::mqtt::add_on::action_message::topic;
use triponics::plugins::state_file::SaveState;

const SEC: i128 = 1_000_000_000;

#[test]
fn sprayer_cycle() {
    let cfg = aeroponic_spray::Config::default();
    assert_eq!(cfg.spray_duration_ms, 3000);
    assert_eq!(cfg.spray_interval_ms, 300_000);
    let t0: i128 = 1_700_000_000 * SEC;
    let mut m = aeroponic_spray::Manager::new(cfg, t0);
    let mut end: Option<i128> = None;

    // due at once: starts
    let ev = m.watcher(&mut end, t0);
    assert_eq!(ev, WatchEvent::Started { until: t0 + 3 * SEC });
    assert!(m.sprayer_state);
    assert_eq!(end, Some(t0 + 3 * SEC));

    // still spraying
    assert_eq!(m.watcher(&mut end, t0 + 2 * SEC), WatchEvent::Idle);
    assert!(m.sprayer_state);

    // end reached: stops and schedules the next spray
    let ev = m.watcher(&mut end, t0 + 3 * SEC);
    assert_eq!(ev, WatchEvent::Stopped { next_spray_time: t0 + 303 * SEC });
    assert!(!m.sprayer_state);
    assert_eq!(end, None);

    // not due yet
    assert_eq!(m.watcher(&mut end, t0 + 100 * SEC), WatchEvent::Idle);
    assert!(!m.sprayer_state);

    // due again
    assert!(matches!(m.watcher(&mut end, t0 + 303 * SEC), WatchEvent::Started { .. }));
}

#[test]
fn sprayer_relay_and_status() {
    let mut m = aeroponic_spray::Manager::new(aeroponic_spray::Config::default(), 1_700_000_000 * SEC + 999_999_999);
    m.turn_on();
    assert_eq!(m.relay_request(), RelayUpdate { relay_2: Some(true), ..RelayUpdate::empty() });
    let s = m.get_status();
    assert!(s.sprayer_state);
    assert_eq!(s.next_spray_time.as_str(), "1700000000");
    m.turn_off();
    assert_eq!(m.relay_request(), RelayUpdate { relay_2: Some(false), ..RelayUpdate::empty() });
}

#[test]
fn sprayer_status_before_epoch_rounds_down() {
    let m = aeroponic_spray::Manager::new(aeroponic_spray::Config::default(), -SEC / 2);
    assert_eq!(m.get_status().next_spray_time.as_str(), "-1");
    assert_eq!(aeroponic_spray::unix_timestamp(-SEC), -1);
    assert_eq!(aeroponic_spray::unix_timestamp(-SEC - 1), -2);
    assert_eq!(aeroponic_spray::unix_timestamp(0), 0);
}

#[test]
fn sprayer_state_file_merge() {
    let running = aeroponic_spray::Manager::new(
        aeroponic_spray::Config { spray_duration_ms: 1000, spray_interval_ms: 2000 },
        5,
    );
    let loaded = aeroponic_spray::Manager {
        sprayer_state: true,
        next_spray_time: 77,
        spray_duration_ms: 9,
        spray_interval_ms: 9,
    };
    let merged = aeroponic_spray::Manager::build(loaded, Some(running));
    assert!(merged.sprayer_state);
    assert_eq!(merged.next_spray_time, 77);
    assert_eq!(merged.spray_duration_ms, 1000);
    assert_eq!(merged.spray_interval_ms, 2000);
    assert_eq!(aeroponic_spray::Manager::build(loaded, None), loaded);
    assert_eq!(running.save(), running);
    assert_eq!(aeroponic_spray::Manager::filename(), "aeroponic_spray_manager");
}

#[test]
fn sprayer_topics() {
    assert_eq!(
        topic::<aeroponic_spray::action::AeroponicSprayerStatus>().as_str(),
        "status/triponics/aeroponics/0"
    );
    assert_eq!(topic::<aeroponic_spray::Config>().as_str(), "config/triponics/aeroponics/0");
}

#[test]
fn dosing_flow() {
    let mut m = ph_dosing::Manager::new(ph_dosing::Config::default());
    assert_eq!(m.config.unit_time_user_ms, 3000);
    assert_eq!(m.dose_to_start(Pump::Down, true, false), None);

    let r = ph_dosing::Manager::handle_request(
        ph_dosing::action::Update { ph_down: Some(true), ph_up: None },
        &mut m,
    )
    .unwrap();
    assert_eq!(r.0.unwrap().as_str(), "updated ph dosing state");
    assert!(m.ph_down_state && !m.ph_up_state);

    assert_eq!(m.dose_to_start(Pump::Down, true, false), Some(3000));
    assert_eq!(m.dose_to_start(Pump::Down, false, false), None);
    assert_eq!(m.dose_to_start(Pump::Down, true, true), None);
    assert_eq!(m.dose_to_start(Pump::Up, true, false), None);

    let mut board = RelayManager::new(PinLevels {
        relay_1: false,
        relay_2: false,
        relay_3: false,
        relay_6: false,
        relay_7: false,
        relay_8: false,
    });
    board.update_state(ph_dosing::Manager::pump_request(Pump::Down, true)).unwrap();
    assert!(board.get_status().relay_6);
    let (off, logged) = m.finish_dose(Pump::Down);
    board.update_state(off).unwrap();
    assert!(!board.get_status().relay_6);
    assert!(!m.ph_down_state);
    assert_eq!(logged, ph_dosing::action::Update { ph_down: Some(false), ph_up: None });
    assert_eq!(logged.describe(), "{\"ph_down\": false}");
}

#[test]
fn dosing_text_and_topics() {
    let u = ph_dosing::action::Update { ph_down: Some(false), ph_up: Some(true) };
    assert_eq!(u.describe(), "{\"ph_up\": true, \"ph_down\": false}");
    assert_eq!(ph_dosing::action::Update { ph_down: None, ph_up: None }.describe(), "{}");
    assert_eq!(topic::<ph_dosing::action::Update>().as_str(), "request/triponics/ph_dosing/0");
    assert_eq!(topic::<ph_dosing::action::Response>().as_str(), "response/triponics/ph_dosing/0");
    assert_eq!(topic::<ph_dosing::Config>().as_str(), "config/triponics/ph_dosing/0");
    assert_eq!(
        ph_dosing::Manager::pump_request(Pump::Up, true),
        RelayUpdate { relay_7: Some(true), ..RelayUpdate::empty() }
    );
}

#[test]
fn growlight_requests() {
    let mut m = growlight::Manager::default();
    assert!(!m.state);
    let r = growlight::Manager::handle_request(growlight::action::Update { state: true }, &mut m)
        .unwrap();
    assert_eq!(r.0.unwrap().as_str(), "growlight turned on");
    assert!(m.state);
    assert_eq!(m.relay_request(), RelayUpdate { relay_8: Some(true), ..RelayUpdate::default() });
    let r = growlight::Manager::handle_request(growlight::action::Update { state: false }, &mut m)
        .unwrap();
    assert_eq!(r.0.unwrap().as_str(), "growlight turned off");
    assert!(!m.state);
    assert_eq!(growlight::action::Update { state: true }.describe(), "ON");
    assert_eq!(growlight::action::Update::default().describe(), "OFF");
    assert_eq!(topic::<growlight::action::StatusMqtt>().as_str(), "status/triponics/growlight/0");
}

#[test]
fn growlight_period() {
    let cfg = growlight::Config::default();
    assert_eq!(cfg.start_time, TimeOfDay { hour: 7, minute: 0, second: 0, millisecond: 0 });
    assert_eq!(cfg.end_time(), TimeOfDay { hour: 19, minute: 0, second: 0, millisecond: 0 });
    let late = growlight::Config {
        start_time: TimeOfDay { hour: 20, minute: 30, second: 15, millisecond: 250 },
        on_duration_ms: 12 * 3_600_000,
    };
    assert_eq!(late.end_time(), TimeOfDay { hour: 8, minute: 30, second: 15, millisecond: 250 });
}

#[test]
fn switch_sockets() {
    let mut m = switch::Manager::init();
    assert_eq!(
        m.get_status(),
        switch::action::SwitchStatus { switch_1: false, switch_2: false, switch_3: true }
    );
    assert_eq!(m.pin_levels(), (false, false, false));
    m.update_state(switch::action::Update { switch_1: Some(true), switch_2: None, switch_3: Some(false) })
        .unwrap();
    assert_eq!(
        m.get_status(),
        switch::action::SwitchStatus { switch_1: true, switch_2: false, switch_3: false }
    );
    assert_eq!(m.pin_levels(), (true, false, true));
    let r = switch::Manager::handle_request(switch::action::Update::default(), &mut m).unwrap();
    assert_eq!(r.0.unwrap().as_str(), "stated updated!");
    assert_eq!(m.pin_levels(), (false, false, false));
    assert_eq!(
        switch::action::Update::default().describe(),
        "{\"switch_1\": \"OFF\", \"switch_2\": \"OFF\", \"switch_3\": \"ON\"}"
    );
    assert_eq!(topic::<switch::action::SwitchStatus>().as_str(), "status/triponics/switch/0");
}

#[test]
fn sprayer_runs_exactly_while_timed_over_many_ticks() {
    let cfg = aeroponic_spray::Config { spray_duration_ms: 2000, spray_interval_ms: 7000 };
    let t0: i128 = 1_700_000_000 * SEC;
    let mut m = aeroponic_spray::Manager::new(cfg, t0);
    let mut end: Option<i128> = None;
    for k in 0..200i128 {
        m.watcher(&mut end, t0 + k * SEC / 2);
        assert_eq!(m.sprayer_state, end.is_some());
        assert_eq!(m.spray_duration_ms, 2000);
        assert_eq!(m.spray_interval_ms, 7000);
    }
}
