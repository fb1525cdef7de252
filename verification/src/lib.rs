//! Storage-health telemetry: normalises the health of SATA disks and software
//! RAID arrays into state and attribute messages for an MQTT broker, and
//! decides, step by step, what a polling agent does next.

pub mod config_types;
pub mod discovery;
pub mod hass_sensors;
pub mod json;
pub mod monitor;
pub mod percent;
pub mod poll_loop;
pub mod smartmon_types;
pub mod text;
pub mod topics;
