use vstd::prelude::*;

verus! {

/// Default 7-bit bus address of the sensor.
pub const ADDR: u8 = 0x62;

/// Leaves periodic measurement mode.
pub const STOP_PERIODIC_MEASUREMENT: [u8; 2] = [0x3f, 0x86];

/// Wakes the sensor from power-down mode.
pub const WAKE_UP: [u8; 2] = [0x36, 0xf6];

/// Reloads the user settings from the sensor's memory.
pub const REINIT: [u8; 2] = [0x36, 0x46];

/// Enters periodic measurement mode (one sample every five seconds).
pub const START_PERIODIC_MESUREMENT: [u8; 2] = [0x21, 0xb1];

/// Requests the latest sample; the sensor answers with nine bytes.
pub const READ_MEASUREMENT: [u8; 2] = [0xec, 0x05];

/// Time the sensor needs after `STOP_PERIODIC_MEASUREMENT`.
pub const SETTLE_MILLIS: u64 = 500;

/// Time until the first sample is ready after `START_PERIODIC_MESUREMENT`.
pub const FIRST_SAMPLE_MILLIS: u64 = 5000;

} // verus!
