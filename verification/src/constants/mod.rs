//! Names shared by every MQTT topic of the controller.
pub mod mqtt_prefix;
pub mod project;
