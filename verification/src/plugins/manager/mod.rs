pub mod aeroponic_spray;
pub mod growlight;
pub mod ph_dosing;
pub mod relay_module;
pub mod switch;
pub mod water_quality_sensor;
