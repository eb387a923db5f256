//! Typed values of the module's holding registers and their wire encodings.

use vstd::prelude::*;

pub mod address;
pub mod automatic_report;
pub mod baud_rate;
pub mod channel;
pub mod error;
pub mod factory_reset;
pub mod temperature;
pub mod temperature_correction;
pub mod temperatures;

pub use address::{Address, ErrorAddressOutOfRange};
pub use automatic_report::{AutomaticReport, ErrorDurationOutOfRange};
pub use baud_rate::{BaudRate, ErrorInvalidBaudRate};
pub use channel::{Channel, ErrorChannelOutOfRange};
pub use error::{outcome, Error, ErrorView};
pub use factory_reset::FactoryReset;
pub use temperature::{ErrorDegreeCelsiusOutOfRange, Temperature};
pub use temperature_correction::TemperatureCorrection;
pub use temperatures::Temperatures;

verus! {

/// A single 16-bit holding register, the unit the transport speaks.
pub type Word = u16;

/// Number of temperature channels of the module.
pub const NUMBER_OF_CHANNELS: usize = 8;

} // verus!
