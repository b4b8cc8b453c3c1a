//! Verified core of a small plant-monitoring station: the command codec,
//! the sensor rules, the link state machine, the daily schedule and the
//! report formats.

pub mod command;
pub mod decimal;
pub mod json;
pub mod relay;
pub mod report;
pub mod sensor;
pub mod text;
pub mod trigger;
pub mod utils;
