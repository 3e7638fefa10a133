//! One snapshot from the sensor.

use vstd::prelude::*;

verus! {

/// A reading as the sensor reports it. Concentrations are whole micrograms
/// per cubic metre, carbon dioxide is in parts per million, humidity in
/// percent. The two temperatures are carried as the bit pattern of a
/// double-precision number in degrees Celsius, which this library hands on
/// without looking inside.
#[derive(Debug)]
pub struct AirGradientData {
    pub wifi: i32,
    pub serialno: String,
    pub rco2: u32,
    pub pm01: u32,
    pub pm02: u32,
    pub pm10: u32,
    pub pm003_count: u32,
    pub atmp_bits: u64,
    pub rhum: u32,
    pub atmp_compensated_bits: u64,
    pub rhum_compensated: u32,
    pub tvoc_index: u32,
    pub tvoc_raw: u32,
    pub nox_index: u32,
    pub nox_raw: u32,
    pub boot: u32,
    pub boot_count: u32,
    pub led_mode: String,
    pub firmware: String,
    pub model: String,
}

} // verus!
