//! Register codec for the R4DCB08 eight-channel Modbus temperature module.
//!
//! The crate converts between raw 16-bit holding registers and typed values
//! (temperatures, baud rate, device address, report interval) and states, for
//! every conversion, exactly which words are accepted and what they mean.
//! It performs no I/O: a caller reads and writes registers with a Modbus
//! transport of its choice and hands the words over.
//!
//! - [`protocol`]: the typed values and their encodings.
//! - [`registers`]: the register reads and writes that make up the commands.
//! - [`reset`] and [`scan`]: the steps of a factory reset and of the search
//!   for a module on a serial line.
//! - [`serial`] and [`timing`]: the settings of the serial line and the
//!   silence between two frames.
//! - [`commandline`]: parsing of command-line values.
//! - [`duration`]: what is taken on trust of `std::time::Duration`.
//! - [`text`]: rendering of numbers.

pub mod commandline;
pub mod duration;
pub mod protocol;
pub mod registers;
pub mod reset;
pub mod scan;
pub mod serial;
pub mod text;
pub mod timing;
