use triponics::config::{filepath, ConfigFile};
use triponics::exit::{shutdown_relay_request, ExitMsg};
use triponics::helper::{
    decimal_string, format_duration_ms, format_time_of_day, parse_time_of_day,
    signed_decimal_string, TimeOfDay,
};
use triponics::newtype::AtomicFixedBytes;
use triponics::plugins::manager::relay_module::action::Update as RelayUpdate;
use triponics::plugins::manager::{aeroponic_spray, growlight, ph_dosing};
use triponics::plugins::mqtt::add_on::action_message::{load_topic, make_topic, qos, save_topic, topic};
use triponics::plugins::mqtt::add_on::action_type::{self, ActionType};
use triponics::plugins::mqtt::add_on::publish_state::{MessageView, StatePublishRegistry, StatePublisher, UpdateState};
use triponics::plugins::mqtt::message::{find_topic, Message, MqttSubscriptions, Subscriptions};
use triponics::plugins::mqtt::{
    drops_task, direct_restart_step, offline_cache_step, publish_step, restart_action, restart_timer_step,
    caches_after_publish, failed_to_connect, CacheStep, ConnectPoll, PublishStep, Qos,
    RestartAction, TimerStep,
};
use triponics::plugins::state_file::{should_persist, state_file_path, StateDir};

#[test]
fn time_of_day_text() {
    let t = TimeOfDay { hour: 7, minute: 5, second: 9, millisecond: 42 };
    assert_eq!(format_time_of_day(&t), b"07:05:09.042".to_vec());
    assert_eq!(parse_time_of_day(b"07:05:09.042"), Some(t));
    assert_eq!(
        parse_time_of_day(b"23:59:59.999"),
        Some(TimeOfDay { hour: 23, minute: 59, second: 59, millisecond: 999 })
    );
    assert_eq!(parse_time_of_day(b"24:00:00.000"), None);
    assert_eq!(parse_time_of_day(b"00:60:00.000"), None);
    assert_eq!(parse_time_of_day(b"00:00:60.000"), None);
    assert_eq!(parse_time_of_day(b"7:05:09.042"), None);
    assert_eq!(parse_time_of_day(b"07:05:09.04"), None);
    assert_eq!(parse_time_of_day(b"07-05-09.042"), None);
    assert_eq!(parse_time_of_day(b"07:05:09.042 "), None);
    assert_eq!(parse_time_of_day(b"0a:05:09.042"), None);
}

#[test]
fn durations_as_text() {
    assert_eq!(format_duration_ms(3000), b"00:00:03.000".to_vec());
    assert_eq!(format_duration_ms(300_000), b"00:05:00.000".to_vec());
    assert_eq!(format_duration_ms(43_200_000), b"12:00:00.000".to_vec());
    assert_eq!(format_duration_ms(86_400_000 + 1), b"00:00:00.001".to_vec());
    let t = TimeOfDay { hour: 23, minute: 59, second: 59, millisecond: 500 };
    assert_eq!(t.add_ms(1000), TimeOfDay { hour: 0, minute: 0, second: 0, millisecond: 500 });
    assert_eq!(t.to_ms_of_day(), 86_399_500);
}

#[test]
fn decimal_text() {
    assert_eq!(decimal_string(0), "0");
    assert_eq!(decimal_string(7), "7");
    assert_eq!(decimal_string(1_700_000_000), "1700000000");
    assert_eq!(decimal_string(u64::MAX), u64::MAX.to_string());
    assert_eq!(signed_decimal_string(-42), "-42");
    assert_eq!(signed_decimal_string(i64::MIN), i64::MIN.to_string());
    assert_eq!(signed_decimal_string(i64::MAX), i64::MAX.to_string());
}

#[test]
fn topics() {
    assert_eq!(make_topic("a", "b", "c", "d").as_str(), "a/b/c/d");
    assert_eq!(topic::<ExitMsg>().as_str(), "request/triponics/exit/0");
    assert!(matches!(qos::<ExitMsg>(), Qos::_1));
    assert_eq!(save_topic::<ph_dosing::Config>().as_str(), "save_config/triponics/ph_dosing/0");
    assert_eq!(load_topic::<ph_dosing::Config>().as_str(), "load_config/triponics/ph_dosing/0");
    assert_eq!(action_type::Status::prefix(), "data");
    assert_eq!(action_type::Request::prefix(), "request");
    assert_eq!(action_type::Response::prefix(), "response");
    assert_eq!(Qos::_0.as_i32(), 0);
    assert_eq!(Qos::_2.as_i32(), 2);
}

#[test]
fn messages_and_subscriptions() {
    let m = Message::make::<growlight::action::StatusMqtt>(AtomicFixedBytes::from_vec(vec![1, 2]));
    assert_eq!(m.topic.as_str(), "status/triponics/growlight/0");
    assert_eq!(m.payload.as_slice(), &[1, 2]);
    assert!(!m.retained);

    let subs = Subscriptions::new()
        .with_msg::<ExitMsg>()
        .with_msg::<ph_dosing::action::Update>()
        .finalize();
    assert_eq!(subs.0.len(), 2);
    let (topics, qos) = subs.subscribe_args().unwrap();
    assert_eq!(topics[0].as_str(), "request/triponics/exit/0");
    assert_eq!(topics[1].as_str(), "request/triponics/ph_dosing/0");
    assert_eq!(qos, vec![1, 1]);
    assert!(Subscriptions::new().finalize().subscribe_args().is_none());

    let mut recorded = MqttSubscriptions(Vec::new());
    recorded.record(&subs);
    recorded.record(&subs);
    assert_eq!(recorded.0.len(), 4);
    assert_eq!(recorded.0[3].0.as_str(), "request/triponics/ph_dosing/0");
}

#[test]
fn finding_topics() {
    let topics = vec!["a".to_string(), "b".to_string(), "a".to_string()];
    assert_eq!(find_topic(&topics, 0, &"a".to_string()), Some(0));
    assert_eq!(find_topic(&topics, 1, &"a".to_string()), Some(2));
    assert_eq!(find_topic(&topics, 3, &"a".to_string()), None);
    assert_eq!(find_topic(&topics, 0, &"c".to_string()), None);
}

#[test]
fn restart_decisions() {
    assert_eq!(restart_timer_step(false, true, true), None);
    assert_eq!(restart_timer_step(true, true, false), Some(TimerStep::Tick));
    assert_eq!(restart_timer_step(true, false, true), Some(TimerStep::Start));
    assert_eq!(restart_timer_step(true, false, false), Some(TimerStep::Keep));

    assert_eq!(restart_action(None, None), RestartAction::StartConnect);
    assert_eq!(restart_action(Some(true), None), RestartAction::StartConnect);
    assert_eq!(restart_action(Some(false), None), RestartAction::Hold);
    assert_eq!(restart_action(Some(false), Some(ConnectPoll::Empty)), RestartAction::StillConnecting);
    assert_eq!(restart_action(None, Some(ConnectPoll::Connected)), RestartAction::InstallClient);
    assert_eq!(restart_action(None, Some(ConnectPoll::Failed)), RestartAction::RetryLater);
    assert_eq!(restart_action(None, Some(ConnectPoll::Disconnected)), RestartAction::FactoryGone);

    assert!(!drops_task(RestartAction::StillConnecting));
    assert!(!drops_task(RestartAction::StartConnect));
    assert!(drops_task(RestartAction::RetryLater));
    assert_eq!(failed_to_connect().0, "failed to connect");
}

#[test]
fn publishing_decisions() {
    assert!(matches!(offline_cache_step(false, false), CacheStep::Restart(e) if e.0 == "client not present"));
    assert!(matches!(offline_cache_step(true, false), CacheStep::Restart(e) if e.0 == "client not connected"));
    assert!(matches!(offline_cache_step(true, true), CacheStep::Read(10)));
    assert_eq!(publish_step(false, false), PublishStep::Cache);
    assert_eq!(publish_step(true, false), PublishStep::Hold);
    assert_eq!(publish_step(true, true), PublishStep::Publish);
    assert!(caches_after_publish(false));
    assert!(!caches_after_publish(true));
}

#[test]
fn file_paths() {
    let dir = StateDir("/home/pi/data/states".to_string());
    assert_eq!(state_file_path(&dir, "aeroponic_spray_manager"), "/home/pi/data/states/aeroponic_spray_manager.json");
    let dir = StateDir("/home/pi/data/states/".to_string());
    assert_eq!(state_file_path(&dir, "x"), "/home/pi/data/states/x.json");
    assert_eq!(state_file_path(&StateDir(String::new()), "x"), "x.json");
    assert_eq!(filepath("/data", "ph_dosing"), "/data/config/ph_dosing.json");
    assert_eq!(state_file_path(&dir, "/tmp/abs"), "/tmp/abs.json");
    assert_eq!(filepath("/data", "/etc/x"), "/etc/x.json");
    assert_eq!(
        std::path::Path::new("/data").join("config").join("/etc/x.json").to_str().unwrap(),
        filepath("/data", "/etc/x")
    );
    assert_eq!(<growlight::Manager as ConfigFile>::filename(), "growlight");
    assert_eq!(<aeroponic_spray::Manager as ConfigFile>::filename(), "aeroponic_spray");
    assert!(should_persist(true, true, false));
    assert!(!should_persist(false, true, false));
    assert!(!should_persist(true, true, true));
    assert!(!should_persist(true, false, false));
}

#[test]
fn shutdown_request_is_resting() {
    assert_eq!(shutdown_relay_request(), RelayUpdate::default());
}

struct LightPublisher(u8);
struct PumpPublisher(u8);

fn status_message(byte: u8) -> Message {
    Message::make::<growlight::action::StatusMqtt>(AtomicFixedBytes::from_vec(vec![byte]))
}

// `spec_publisher_id` and `published` are specification functions: they are
// part of the trait's contract and are never called when the program runs.
impl StatePublisher for LightPublisher {
    fn spec_publisher_id() -> u64 {
        unreachable!("specification function")
    }

    fn published(&self) -> MessageView {
        unreachable!("specification function")
    }

    fn publisher_id() -> u64 {
        1
    }

    fn to_publish(&self) -> Message {
        status_message(self.0)
    }
}

impl StatePublisher for PumpPublisher {
    fn spec_publisher_id() -> u64 {
        unreachable!("specification function")
    }

    fn published(&self) -> MessageView {
        unreachable!("specification function")
    }

    fn publisher_id() -> u64 {
        2
    }

    fn to_publish(&self) -> Message {
        status_message(self.0)
    }
}

#[test]
fn registry_publishes_latest_state_of_each_publisher() {
    let mut registry = StatePublishRegistry::new();
    assert!(registry.publish().is_empty());
    registry.update(UpdateState::new(&LightPublisher(10)));
    registry.update(UpdateState::new(&PumpPublisher(20)));
    registry.update(UpdateState::new(&LightPublisher(11)));
    let published = registry.publish();
    assert_eq!(published.len(), 2);
    let mut payloads: Vec<u8> = published.iter().map(|m| m.payload.as_slice()[0]).collect();
    payloads.sort();
    assert_eq!(payloads, vec![11, 20]);
}

#[test]
fn states_of_one_kind_share_a_number() {
    let a = UpdateState::new(&LightPublisher(3));
    let b = UpdateState::new(&LightPublisher(4));
    let c = UpdateState::new(&PumpPublisher(3));
    assert_eq!(a.id, b.id);
    assert_ne!(a.id, c.id);
    assert_eq!(b.data.payload.as_slice(), &[4u8][..]);
}

#[test]
fn update_state_keeps_its_message() {
    let m = Message::make::<growlight::action::StatusMqtt>(AtomicFixedBytes::from_vec(vec![7]));
    let u = UpdateState::with_message(9, m.clone());
    assert_eq!(u.id, 9);
    assert_eq!(u.data.payload.as_slice(), &[7u8][..]);
    assert_eq!(u.data.topic.as_str(), m.topic.as_str());
}

#[test]
fn direct_restart_decisions() {
    assert_eq!(direct_restart_step(false, None, None), None);
    assert_eq!(direct_restart_step(true, Some(true), None), None);
    assert_eq!(direct_restart_step(false, None, Some(ConnectPoll::Disconnected)), None);
    assert_eq!(direct_restart_step(true, Some(true), Some(ConnectPoll::Disconnected)), None);
    assert_eq!(direct_restart_step(true, Some(false), None), Some(RestartAction::StartConnect));
    assert_eq!(direct_restart_step(true, None, None), Some(RestartAction::StartConnect));
    assert_eq!(direct_restart_step(true, None, Some(ConnectPoll::Empty)), Some(RestartAction::StillConnecting));
    assert_eq!(direct_restart_step(true, None, Some(ConnectPoll::Connected)), Some(RestartAction::InstallClient));
    assert_eq!(direct_restart_step(true, Some(false), Some(ConnectPoll::Failed)), Some(RestartAction::RetryLater));
}
