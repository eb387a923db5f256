//! The settings of the serial line the module speaks on.
//!
//! The module uses eight data bits, no parity and one stop bit at its baud
//! rate. The settings are plain values; opening a port with them is the
//! caller's business.

use crate::protocol::baud_rate::BaudRate;
use vstd::prelude::*;
use vstd::string::StringExecFns;

verus! {

/// Number of bits of a character on the line.
#[derive(Debug, Clone, Copy, PartialEq, Eq, Structural)]
pub enum DataBits {
    Five,
    Six,
    Seven,
    Eight,
}

/// The parity bit of a character.
#[derive(Debug, Clone, Copy, PartialEq, Eq, Structural)]
pub enum Parity {
    /// No parity bit.
    Off,
    /// The parity bit makes the number of one bits odd.
    Odd,
    /// The parity bit makes the number of one bits even.
    Even,
}

/// Number of bits that end a character.
#[derive(Debug, Clone, Copy, PartialEq, Eq, Structural)]
pub enum StopBits {
    One,
    Two,
}

/// How the flow of data is controlled.
#[derive(Debug, Clone, Copy, PartialEq, Eq, Structural)]
pub enum FlowControl {
    /// No flow control.
    Off,
    /// XON/XOFF bytes.
    Software,
    /// RTS/CTS signals.
    Hardware,
}

/// The parity the module uses.
pub const PARITY: Parity = Parity::Off;

/// The number of stop bits the module uses.
pub const STOP_BITS: StopBits = StopBits::One;

/// The number of data bits the module uses.
pub const DATA_BITS: DataBits = DataBits::Eight;

/// The settings to open a serial port with.
#[derive(Debug, PartialEq, Eq)]
pub struct SerialPortSettings {
    /// Path or name of the serial device, such as `/dev/ttyUSB0` or `COM3`.
    pub device: String,
    /// Bits per second.
    pub baud_rate: u32,
    /// Bits of a character.
    pub data_bits: DataBits,
    /// Flow control.
    pub flow_control: FlowControl,
    /// Parity bit.
    pub parity: Parity,
    /// Bits that end a character.
    pub stop_bits: StopBits,
}

/// The settings of the serial line to a module at `device` that runs at
/// `baud_rate`: eight data bits, no parity, one stop bit, no flow control.
/// Nothing is opened.
pub fn serial_port_builder(device: &str, baud_rate: &BaudRate) -> (settings: SerialPortSettings)
    ensures
        settings.device@ == device@,
        settings.baud_rate == baud_rate.rate(),
        settings.data_bits == DATA_BITS,
        settings.flow_control == FlowControl::Off,
        settings.parity == PARITY,
        settings.stop_bits == STOP_BITS,
{
    SerialPortSettings {
        device: String::from_str(device),
        baud_rate: u32::from(*baud_rate),
        data_bits: DATA_BITS,
        flow_control: FlowControl::Off,
        parity: PARITY,
        stop_bits: STOP_BITS,
    }
}

} // verus!
