//! State and decisions of the two sensor clusters the node hosts.
pub mod power_source;
pub mod soil_measurement;
