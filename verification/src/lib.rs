//! Verified core logic of a capacitive soil-moisture sensor node: the
//! millivolt-to-percent conversions, the sampling arithmetic, the dry/wet
//! calibration flow, the button gesture recogniser, the status-LED patterns
//! and the reporting decisions of the two sensor clusters.
pub mod button;
pub mod calibration;
pub mod clusters;
pub mod config;
pub mod percent;
pub mod sampling;
pub mod sensor;
pub mod status_led;

pub use percent::{battery_percent, soil_moisture_percent};
