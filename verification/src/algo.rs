//! The vendor compensation/algorithm library, as the session consumes it.
//!
//! The numerically heavy calibration and compensation mathematics is not
//! part of this crate: it lives in the manufacturer's algorithm library,
//! reached through the [`AlgoLink`] trait.  The session logic is verified
//! against every behaviour an implementation can have, so nothing is
//! assumed of these methods; each returns a native status code that the
//! caller maps through [`crate::errors::SensorError`].

use crate::settings::AppliedSettings;
use vstd::prelude::*;

verus! {

/// Power mode: the device is asleep.
pub const BME680_SLEEP_MODE: u8 = 0;
/// Power mode: one forced measurement, after which the device returns to
/// sleep on its own.
pub const BME680_FORCED_MODE: u8 = 1;
/// Status-byte mask of the gas-valid bit: the most recent gas-resistance
/// reading is trustworthy only when this bit is set.
pub const BME680_GASM_VALID_MSK: u8 = 0x20;

/// One raw measurement snapshot, exactly as the vendor library reports it:
/// the status byte, the measurement indices, and the fixed-point field
/// values before any scaling.
#[derive(Copy, Clone, Debug, PartialEq, Eq, Structural)]
pub struct RawFieldData {
    pub status: u8,
    pub gas_index: u8,
    pub meas_index: u8,
    /// Hundredths of a degree Celsius; negative below zero.
    pub temperature: i16,
    /// Pascal, as reported.
    pub pressure: u32,
    /// Thousandths of a percent relative humidity.
    pub humidity: u32,
    /// Ohms; trustworthy only when the gas-valid bit is set.
    pub gas_resistance: u32,
}

impl RawFieldData {
    /// The all-zero snapshot a fetch starts from.
    pub open spec fn spec_zeroed() -> RawFieldData {
        RawFieldData {
            status: 0,
            gas_index: 0,
            meas_index: 0,
            temperature: 0,
            pressure: 0,
            humidity: 0,
            gas_resistance: 0,
        }
    }
}

impl Default for RawFieldData {
    fn default() -> (r: Self)
        ensures
            r == RawFieldData::spec_zeroed(),
    {
        RawFieldData {
            status: 0,
            gas_index: 0,
            meas_index: 0,
            temperature: 0,
            pressure: 0,
            humidity: 0,
            gas_resistance: 0,
        }
    }
}

/// The external collaborator that owns the calibration data and the
/// compensation formulas.  An implementation drives the actual bus traffic
/// (through the transport bridge) when asked to initialize, push settings,
/// switch modes or fetch a snapshot; a test double scripts the answers.
pub trait AlgoLink {
    /// Probe the chip and read its calibration coefficients; native status.
    fn init(&mut self) -> i8;

    /// Push the settings fields named by `selector` to the hardware;
    /// native status.
    fn apply_settings(&mut self, selector: u16, settings: &AppliedSettings) -> i8;

    /// Request the given power mode; native status.
    fn set_mode(&mut self, mode: u8) -> i8;

    /// Read back the power mode the device currently reports.
    fn get_mode(&mut self) -> u8;

    /// The device-reported duration of one forced measurement, in
    /// milliseconds, for the settings most recently applied.
    fn get_profile_duration(&mut self) -> u16;

    /// Block the calling thread for `ms` milliseconds.
    fn delay_ms(&mut self, ms: u32);

    /// Fetch one field-data snapshot, with its native status.
    fn get_field_data(&mut self) -> (RawFieldData, i8);
}

} // verus!
