//! Session and acquisition core for the Bosch BME680 environmental sensor.
//!
//! The BME680 reports temperature, pressure, humidity and gas resistance over
//! a register-oriented bus.  This crate verifies the driver's session logic:
//! the transport registry and block-transfer bridge, the lazy settings
//! tracker, the sleep-to-forced-mode acquisition state machine with bounded
//! retry, and the decoder that validity-gates raw field data.
//!
//! The numerically heavy compensation mathematics lives in the vendor's
//! algorithm library, reached through the [`algo::AlgoLink`] trait; bus
//! construction and the floating-point presentation of readings are the
//! embedder's concern.

pub mod algo;
pub mod device;
pub mod errors;
pub mod registry;
pub mod settings;
pub mod sim;

pub use algo::{AlgoLink, RawFieldData};
pub use device::{Bme680Address, Bme680Data, BME680};
pub use errors::SensorError;
pub use registry::{BusHandle, TransportRegistry};
pub use settings::{FilterSize, Oversampling, SettingsTracker};
pub use sim::{SimBus, SimLink};
