//! Air-quality telemetry bridge: derives a US EPA air quality index from a
//! sensor reading, builds the time-series point that records it, and keeps
//! the state of the metrics writer that sends it.

pub mod aqi;
pub mod client;
pub mod point;
pub mod reading;
pub mod settings;
pub mod tags;
pub mod wire;
pub mod writer;
