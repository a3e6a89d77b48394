//! Failure classes and the total mapping from native status codes.
//!
//! The vendor algorithm library reports every outcome as a small signed
//! integer: zero for success, a handful of documented negative codes for
//! failures.  Each call site maps a non-zero status through the same total
//! function into a [`SensorError`].

use vstd::prelude::*;

verus! {

/// Native status code for success.
pub const BME680_OK: i8 = 0;
/// Native status code: the vendor library was handed a null pointer.
pub const BME680_E_NULL_PTR: i8 = -1;
/// Native status code: a bus transaction failed.
pub const BME680_E_COM_FAIL: i8 = -2;
/// Native status code: the chip did not identify itself.
pub const BME680_E_DEV_NOT_FOUND: i8 = -3;
/// Native status code: a block transfer had a malformed length.
pub const BME680_E_INVALID_LENGTH: i8 = -4;

/// Everything that can go wrong while driving the sensor.
///
/// The first four variants name the documented native failure codes; any
/// other non-zero code maps to `Unknown`.  `DeviceUnresponsive` is raised by
/// the acquisition state machine itself when the device keeps reporting
/// sleep mode after the bounded activation retries; no native code maps to
/// it.
#[derive(Copy, Clone, Debug, PartialEq, Eq, Structural)]
pub enum SensorError {
    CommunicationError,
    DeviceNotFound,
    InvalidLength,
    NullPointer,
    DeviceUnresponsive,
    Unknown,
}

impl SensorError {
    /// The total map from a native status code to a failure class.
    ///
    /// Defined on every `i8`; call sites only apply it to non-zero codes,
    /// since zero is success and never constructs an error value.
    pub open spec fn spec_from_code(code: i8) -> SensorError {
        if code == BME680_E_NULL_PTR {
            SensorError::NullPointer
        } else if code == BME680_E_COM_FAIL {
            SensorError::CommunicationError
        } else if code == BME680_E_DEV_NOT_FOUND {
            SensorError::DeviceNotFound
        } else if code == BME680_E_INVALID_LENGTH {
            SensorError::InvalidLength
        } else {
            SensorError::Unknown
        }
    }

    /// Map a native status to a result: zero is success, every other code
    /// is the mapped failure class.
    pub fn check_status(code: i8) -> (r: Result<(), SensorError>)
        ensures
            r is Ok <==> code == BME680_OK,
            code != BME680_OK ==> r == Err::<(), SensorError>(SensorError::spec_from_code(code)),
    {
        if code == BME680_OK {
            Ok(())
        } else {
            Err(SensorError::from(code))
        }
    }

    /// A short, fixed description of the failure class.
    pub fn message(&self) -> &'static str {
        match self {
            SensorError::CommunicationError => "communication with the device failed",
            SensorError::DeviceNotFound => "device not found",
            SensorError::InvalidLength => "invalid block-transfer length",
            SensorError::NullPointer => "internal null pointer encountered",
            SensorError::DeviceUnresponsive => "device did not confirm forced mode",
            SensorError::Unknown => "an unknown error occurred",
        }
    }
}

impl From<i8> for SensorError {
    fn from(code: i8) -> (r: Self) {
        if code == BME680_E_COM_FAIL {
            SensorError::CommunicationError
        } else if code == BME680_E_DEV_NOT_FOUND {
            SensorError::DeviceNotFound
        } else if code == BME680_E_INVALID_LENGTH {
            SensorError::InvalidLength
        } else if code == BME680_E_NULL_PTR {
            SensorError::NullPointer
        } else {
            SensorError::Unknown
        }
    }
}

impl vstd::std_specs::convert::FromSpecImpl<i8> for SensorError {
    open spec fn obeys_from_spec() -> bool {
        true
    }

    open spec fn from_spec(code: i8) -> Self {
        SensorError::spec_from_code(code)
    }
}

} // verus!
