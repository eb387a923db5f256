//! The register reads and writes that make up the module's commands.
//!
//! A request names a place in the holding-register space and, for a write,
//! the word to put there. Building a request performs no I/O: the caller
//! hands it to its Modbus transport (function 0x03 for a read, 0x06 for a
//! write) and decodes the words of a read with the type the request was
//! built for.

use crate::protocol::address::Address;
use crate::protocol::automatic_report::AutomaticReport;
use crate::protocol::baud_rate::BaudRate;
use crate::protocol::channel::Channel;
use crate::protocol::error::{outcome, Error, ErrorView};
use crate::protocol::factory_reset::FactoryReset;
use crate::protocol::temperature::Temperature;
use crate::protocol::temperature_correction::TemperatureCorrection;
use crate::protocol::temperatures::Temperatures;
use crate::protocol::Word;
use vstd::prelude::*;

verus! {

/// A read of consecutive holding registers.
#[derive(Debug, Clone, Copy, PartialEq, Eq, Structural)]
pub struct ReadRequest {
    /// Address of the first register.
    pub address: u16,
    /// Number of registers.
    pub quantity: u16,
}

/// A write of one holding register.
#[derive(Debug, Clone, Copy, PartialEq, Eq, Structural)]
pub struct WriteRequest {
    /// Address of the register.
    pub address: u16,
    /// The word to write.
    pub value: Word,
}

impl ReadRequest {
    /// Whether the request reads the register at `address`.
    pub open spec fn covers(self, address: int) -> bool {
        self.address <= address < self.address + self.quantity
    }

    /// The read of the eight temperature readings.
    pub fn temperatures() -> (request: ReadRequest)
        ensures
            request == (ReadRequest { address: 0x0000, quantity: 8 }),
    {
        ReadRequest { address: Temperatures::ADDRESS, quantity: Temperatures::QUANTITY }
    }

    /// The read of the eight temperature corrections.
    pub fn temperature_correction() -> (request: ReadRequest)
        ensures
            request == (ReadRequest { address: 0x0008, quantity: 8 }),
    {
        ReadRequest {
            address: TemperatureCorrection::ADDRESS,
            quantity: TemperatureCorrection::QUANTITY,
        }
    }

    /// The read of the automatic report interval.
    pub fn automatic_report() -> (request: ReadRequest)
        ensures
            request == (ReadRequest { address: 0x00FD, quantity: 1 }),
    {
        ReadRequest { address: AutomaticReport::ADDRESS, quantity: AutomaticReport::QUANTITY }
    }

    /// The read of the baud rate.
    pub fn baud_rate() -> (request: ReadRequest)
        ensures
            request == (ReadRequest { address: 0x00FF, quantity: 1 }),
    {
        ReadRequest { address: BaudRate::ADDRESS, quantity: BaudRate::QUANTITY }
    }

    /// The read of the device address.
    pub fn address() -> (request: ReadRequest)
        ensures
            request == (ReadRequest { address: 0x00FE, quantity: 1 }),
    {
        ReadRequest { address: Address::ADDRESS, quantity: Address::QUANTITY }
    }
}

impl WriteRequest {
    /// What the write of a channel's correction is: the register of the
    /// channel and the encoded correction, or the encode error.
    pub open spec fn spec_temperature_correction(channel: int, correction: Option<int>) -> Result<
        WriteRequest,
        ErrorView,
    > {
        match Temperature::spec_encode_checked(correction) {
            Ok(value) => Ok(
                WriteRequest {
                    address: TemperatureCorrection::spec_channel_address(channel) as u16,
                    value,
                },
            ),
            Err(error) => Err(error),
        }
    }

    /// The write that sets the correction of one channel.
    ///
    /// "Not a number" cannot be written and is refused with an encode error.
    pub fn temperature_correction(channel: Channel, correction: Temperature) -> (r: Result<
        WriteRequest,
        Error,
    >)
        ensures
            outcome(r) == Self::spec_temperature_correction(channel@, correction@),
            r is Ok <==> correction@ is Some,
            r matches Ok(request) ==> request.address == 0x0008 + channel@,
    {
        match TemperatureCorrection::encode_for_write_register(correction) {
            Ok(value) => Ok(
                WriteRequest { address: TemperatureCorrection::channel_address(channel), value },
            ),
            Err(error) => Err(error),
        }
    }

    /// The write that sets the automatic report interval.
    pub fn automatic_report(report: AutomaticReport) -> (request: WriteRequest)
        ensures
            request.address == 0x00FD,
            request.value == report@,
    {
        WriteRequest {
            address: AutomaticReport::ADDRESS,
            value: report.encode_for_write_register(),
        }
    }

    /// The write that sets the baud rate; it takes effect after a power cycle.
    pub fn baud_rate(baud_rate: BaudRate) -> (request: WriteRequest)
        ensures
            request.address == 0x00FF,
            request.value == baud_rate.code(),
            request.value != FactoryReset::DATA,
    {
        WriteRequest { address: BaudRate::ADDRESS, value: baud_rate.encode_for_write_register() }
    }

    /// The write that triggers the factory reset.
    pub fn factory_reset() -> (request: WriteRequest)
        ensures
            request == (WriteRequest { address: 0x00FF, value: 5 }),
    {
        WriteRequest {
            address: FactoryReset::ADDRESS,
            value: FactoryReset::encode_for_write_register(),
        }
    }

    /// The write that gives the device a new address.
    pub fn address(new_address: Address) -> (request: WriteRequest)
        ensures
            request.address == 0x00FE,
            request.value == new_address@,
    {
        WriteRequest { address: Address::ADDRESS, value: new_address.encode_for_write_register() }
    }
}

/// The reads of the five register blocks do not overlap: a register belongs
/// to at most one of them.
pub proof fn lemma_reads_are_disjoint(address: int)
    ensures
        ({
            let temperatures = ReadRequest { address: 0x0000, quantity: 8 }.covers(address);
            let corrections = ReadRequest { address: 0x0008, quantity: 8 }.covers(address);
            let report = ReadRequest { address: 0x00FD, quantity: 1 }.covers(address);
            let device = ReadRequest { address: 0x00FE, quantity: 1 }.covers(address);
            let baud = ReadRequest { address: 0x00FF, quantity: 1 }.covers(address);
            &&& !(temperatures && (corrections || report || device || baud))
            &&& !(corrections && (report || device || baud))
            &&& !(report && (device || baud))
            &&& !(device && baud)
        }),
{
}

/// A correction is written into the block of corrections, and so never
/// over a reading or a setting.
pub proof fn lemma_correction_write_stays_in_block(channel: int, correction: Option<int>)
    requires
        Channel::in_range(channel),
    ensures
        WriteRequest::spec_temperature_correction(channel, correction) matches Ok(request)
            ==> (ReadRequest { address: 0x0008, quantity: 8 }).covers(request.address as int),
{
}

/// The factory reset shares its register with the baud rate, and its word
/// stands for no baud rate: no baud rate encodes to it, and decoding rejects it.
pub proof fn lemma_reset_word_is_no_baud_rate(baud_rate: BaudRate)
    ensures
        FactoryReset::ADDRESS == BaudRate::ADDRESS,
        baud_rate.code() != FactoryReset::DATA,
        BaudRate::spec_decode(seq![FactoryReset::DATA]) is Err,
{
}

} // verus!
