//! The serial baud rate of the module and its ordinal register encoding.

use crate::protocol::error::{outcome, Error, ErrorView};
use crate::protocol::Word;
use crate::text::{append_decimal, decimal};
use vstd::prelude::*;
use vstd::std_specs::convert::{FromSpecImpl, TryFromSpecImpl};
use vstd::string::StringExecFns;

verus! {

/// The baud rates the module supports on its RS485 line.
///
/// The register holds the ordinal of the rate (0 to 4), not the rate itself.
#[derive(Debug, Clone, Copy, PartialEq, Eq, Structural)]
pub enum BaudRate {
    /// 1200 baud, register value 0.
    B1200,
    /// 2400 baud, register value 1.
    B2400,
    /// 4800 baud, register value 2.
    B4800,
    /// 9600 baud, the factory default, register value 3.
    B9600,
    /// 19200 baud, register value 4.
    B19200,
}

/// A number that is none of the five supported baud rates.
#[derive(Debug, Clone, Copy, PartialEq, Eq, Structural)]
pub struct ErrorInvalidBaudRate(
    /// The rejected number.
    pub u16,
);

impl BaudRate {
    /// Register address of the baud rate.
    pub const ADDRESS: u16 = 0x00FF;

    /// Number of registers the baud rate occupies.
    pub const QUANTITY: u16 = 1;

    /// The rate in bits per second.
    pub open spec fn rate(self) -> u16 {
        match self {
            BaudRate::B1200 => 1200,
            BaudRate::B2400 => 2400,
            BaudRate::B4800 => 4800,
            BaudRate::B9600 => 9600,
            BaudRate::B19200 => 19200,
        }
    }

    /// The ordinal that stands for the rate in the register.
    pub open spec fn code(self) -> Word {
        match self {
            BaudRate::B1200 => 0,
            BaudRate::B2400 => 1,
            BaudRate::B4800 => 2,
            BaudRate::B9600 => 3,
            BaudRate::B19200 => 4,
        }
    }

    /// The rate a register code stands for, if it stands for one.
    pub open spec fn from_code(code: Word) -> Option<BaudRate> {
        if code == 0 {
            Some(BaudRate::B1200)
        } else if code == 1 {
            Some(BaudRate::B2400)
        } else if code == 2 {
            Some(BaudRate::B4800)
        } else if code == 3 {
            Some(BaudRate::B9600)
        } else if code == 4 {
            Some(BaudRate::B19200)
        } else {
            None
        }
    }

    /// The variant of a rate given in bits per second, if it is supported.
    pub open spec fn from_rate(rate: u16) -> Option<BaudRate> {
        if rate == 1200 {
            Some(BaudRate::B1200)
        } else if rate == 2400 {
            Some(BaudRate::B2400)
        } else if rate == 4800 {
            Some(BaudRate::B4800)
        } else if rate == 9600 {
            Some(BaudRate::B9600)
        } else if rate == 19200 {
            Some(BaudRate::B19200)
        } else {
            None
        }
    }

    /// What validation makes of a rate given in bits per second.
    pub open spec fn spec_try_from(rate: u16) -> Result<BaudRate, ErrorInvalidBaudRate> {
        match Self::from_rate(rate) {
            Some(baud_rate) => Ok(baud_rate),
            None => Err(ErrorInvalidBaudRate(rate)),
        }
    }

    /// What decoding makes of the registers read at [`BaudRate::ADDRESS`].
    pub open spec fn spec_decode(words: Seq<Word>) -> Result<BaudRate, ErrorView> {
        if words.len() != 1 {
            Err(ErrorView::UnexpectedDataLength { expected: 1, got: words.len() })
        } else {
            match Self::from_code(words[0]) {
                Some(baud_rate) => Ok(baud_rate),
                None => Err(ErrorView::InvalidValueCode { entity: "BaudRate"@, code: words[0] }),
            }
        }
    }

    /// Decodes the baud rate from the registers read at [`BaudRate::ADDRESS`].
    ///
    /// Exactly one word with a code from 0 to 4 is accepted. Any other code,
    /// the factory-reset value 5 included, is an invalid value code.
    pub fn decode_from_holding_registers(words: &[Word]) -> (r: Result<Self, Error>)
        ensures
            outcome(r) == Self::spec_decode(words@),
            r is Ok <==> words@.len() == 1 && words@[0] <= 4,
            r matches Ok(baud_rate) ==> baud_rate.code() == words@[0],
    {
        if words.len() != 1 {
            return Err(Error::UnexpectedDataLength { expected: 1, got: words.len() });
        }
        let code = words[0];
        if code == 0 {
            Ok(BaudRate::B1200)
        } else if code == 1 {
            Ok(BaudRate::B2400)
        } else if code == 2 {
            Ok(BaudRate::B4800)
        } else if code == 3 {
            Ok(BaudRate::B9600)
        } else if code == 4 {
            Ok(BaudRate::B19200)
        } else {
            Err(Error::InvalidValueCode { entity: String::from_str("BaudRate"), code })
        }
    }

    /// Encodes the baud rate as the word to write to [`BaudRate::ADDRESS`].
    pub fn encode_for_write_register(&self) -> (word: Word)
        ensures
            word == self.code(),
    {
        match self {
            BaudRate::B1200 => 0,
            BaudRate::B2400 => 1,
            BaudRate::B4800 => 2,
            BaudRate::B9600 => 3,
            BaudRate::B19200 => 4,
        }
    }

    /// The rate in bits per second.
    pub fn bits_per_second(&self) -> (rate: u16)
        ensures
            rate == self.rate(),
    {
        match self {
            BaudRate::B1200 => 1200,
            BaudRate::B2400 => 2400,
            BaudRate::B4800 => 4800,
            BaudRate::B9600 => 9600,
            BaudRate::B19200 => 19200,
        }
    }

    /// Renders the rate as its number, such as `9600`.
    pub fn to_string(&self) -> (text: String)
        ensures
            text@ == decimal(self.rate() as nat),
    {
        let mut text = String::new();
        append_decimal(&mut text, self.bits_per_second() as u64);
        text
    }

    /// Decoding accepts exactly the codes 0 to 4: any other single word, 5
    /// included, is rejected as an invalid value code that carries the word.
    pub proof fn lemma_decode_accepts_exactly_five_codes(word: Word)
        ensures
            Self::spec_decode(seq![word]) is Ok <==> word <= 4,
            word >= 5 ==> Self::spec_decode(seq![word]) == Err::<BaudRate, ErrorView>(
                ErrorView::InvalidValueCode { entity: "BaudRate"@, code: word },
            ),
    {
    }

    /// Decoding the word a baud rate encodes to gives that baud rate back.
    pub proof fn lemma_encode_then_decode(baud_rate: BaudRate)
        ensures
            Self::spec_decode(seq![baud_rate.code()]) == Ok::<BaudRate, ErrorView>(baud_rate),
    {
    }

    /// Only the word a baud rate encodes to decodes to it.
    pub proof fn lemma_decode_then_encode(words: Seq<Word>, baud_rate: BaudRate)
        requires
            Self::spec_decode(words) == Ok::<BaudRate, ErrorView>(baud_rate),
        ensures
            words == seq![baud_rate.code()],
    {
    }

    /// A rate in bits per second names the variant whose rate it is, and no other.
    pub proof fn lemma_rate_names_one_variant(baud_rate: BaudRate, rate: u16)
        ensures
            Self::from_rate(rate) == Some(baud_rate) <==> baud_rate.rate() == rate,
    {
    }
}

impl Default for BaudRate {
    /// The factory default, 9600 baud.
    fn default() -> (baud_rate: Self)
        ensures
            baud_rate == BaudRate::B9600,
    {
        BaudRate::B9600
    }
}

impl TryFromSpecImpl<u16> for BaudRate {
    open spec fn obeys_try_from_spec() -> bool {
        true
    }

    open spec fn try_from_spec(value: u16) -> Result<Self, ErrorInvalidBaudRate> {
        Self::spec_try_from(value)
    }
}

impl TryFrom<u16> for BaudRate {
    type Error = ErrorInvalidBaudRate;

    /// The variant of a rate given in bits per second; any number that is
    /// none of the five supported rates is rejected and handed back.
    fn try_from(value: u16) -> (r: Result<Self, ErrorInvalidBaudRate>)
        ensures
            r == Self::spec_try_from(value),
    {
        if value == 1200 {
            Ok(BaudRate::B1200)
        } else if value == 2400 {
            Ok(BaudRate::B2400)
        } else if value == 4800 {
            Ok(BaudRate::B4800)
        } else if value == 9600 {
            Ok(BaudRate::B9600)
        } else if value == 19200 {
            Ok(BaudRate::B19200)
        } else {
            Err(ErrorInvalidBaudRate(value))
        }
    }
}

impl FromSpecImpl<BaudRate> for u16 {
    open spec fn obeys_from_spec() -> bool {
        true
    }

    open spec fn from_spec(baud_rate: BaudRate) -> u16 {
        baud_rate.rate()
    }
}

impl From<BaudRate> for u16 {
    /// The rate in bits per second.
    fn from(baud_rate: BaudRate) -> (rate: u16)
        ensures
            rate == baud_rate.rate(),
    {
        baud_rate.bits_per_second()
    }
}

impl FromSpecImpl<BaudRate> for u32 {
    open spec fn obeys_from_spec() -> bool {
        true
    }

    open spec fn from_spec(baud_rate: BaudRate) -> u32 {
        baud_rate.rate() as u32
    }
}

impl From<BaudRate> for u32 {
    /// The rate in bits per second.
    fn from(baud_rate: BaudRate) -> (rate: u32)
        ensures
            rate == baud_rate.rate(),
    {
        baud_rate.bits_per_second() as u32
    }
}

impl ErrorInvalidBaudRate {
    /// The message shown to a user for a rejected baud rate.
    pub open spec fn message(self) -> Seq<char> {
        "Unsupported baud rate value: "@ + decimal(self.0 as nat)
            + ". Must be 1200, 2400, 4800, 9600, or 19200."@
    }

    /// Renders the error as the message shown to a user.
    pub fn to_string(&self) -> (text: String)
        ensures
            text@ == self.message(),
    {
        let mut text = String::from_str("Unsupported baud rate value: ");
        append_decimal(&mut text, self.0 as u64);
        text.append(". Must be 1200, 2400, 4800, 9600, or 19200.");
        text
    }
}

} // verus!
