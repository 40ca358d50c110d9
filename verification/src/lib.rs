//! Control logic of a hydroponics/aeroponics controller: relay switching, dosing
//! and spraying schedules, and the MQTT message plumbing around them.
pub mod actor;
pub mod app;
pub mod config;
pub mod constants;
pub mod exit;
pub mod helper;
pub mod newtype;
pub mod plugins;
