//! Telemetry core for a solar charge controller monitor: the fixed-format
//! command codec, the register decoder that turns raw big-endian register
//! bytes into typed physical quantities, the session state machine that
//! drives one long-lived device connection, and the bounded time-series
//! buffer that downsamples streaming samples for display.

use vstd::prelude::*;

pub mod chart;
pub mod codec;
pub mod fixed;
pub mod registers;
pub mod remote;
pub mod session;
pub mod status;
pub mod time_interval;

verus! {

/// Converts a raw ADC reading to centivolts through the board's fixed
/// voltage-divider transform, truncating to whole centivolts.
pub fn adc_reading_to_voltage(adc_reading: u16) -> (r: u32)
    ensures
        r == 2_277_000 * adc_reading / 506_044,
{
    ((2_277_000u64 * (adc_reading as u64)) / 506_044u64) as u32
}

} // verus!
