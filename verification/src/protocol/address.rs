//! The Modbus device address of the module.

use crate::protocol::error::{Error, ErrorView};
use crate::protocol::Word;
use crate::text::{
    append_decimal, append_hex_byte, append_hex_word_upper, decimal, hex_byte, hex_word_upper,
};
use vstd::prelude::*;
use vstd::std_specs::convert::TryFromSpecImpl;
use vstd::string::StringExecFns;

verus! {

/// A Modbus device address.
///
/// A value is either assignable (1 to 247) or the broadcast address 255. The
/// validated constructors give assignable addresses only; the broadcast
/// address comes from [`Address::broadcast`] alone.
#[derive(Debug, Clone, Copy, PartialEq, Eq, PartialOrd, Ord, Structural)]
pub struct Address {
    value: u8,
}

/// A number outside the assignable range of device addresses.
#[derive(Debug, Clone, Copy, PartialEq, Eq, Structural)]
pub struct ErrorAddressOutOfRange(
    /// The rejected number.
    pub u8,
);

impl View for Address {
    type V = int;

    /// The address as a number.
    closed spec fn view(&self) -> int {
        self.value as int
    }
}

impl Address {
    /// Register address of the device address.
    pub const ADDRESS: u16 = 0x00FE;

    /// Number of registers the device address occupies.
    pub const QUANTITY: u16 = 1;

    /// The smallest assignable device address.
    pub const MIN: u8 = 1;

    /// The largest assignable device address.
    pub const MAX: u8 = 247;

    /// Whether a number can be assigned to a device as its address.
    pub open spec fn assignable(number: int) -> bool {
        Self::MIN <= number <= Self::MAX
    }

    /// Validity: the address is assignable or the broadcast address.
    #[verifier::type_invariant]
    pub closed spec fn wf(self) -> bool {
        Self::assignable(self.value as int) || self.value == 255
    }

    /// The address with the given number.
    pub closed spec fn numbered(number: u8) -> Address {
        Address { value: number }
    }

    /// The text written into an invalid-data error for a word whose upper byte is set.
    pub open spec fn upper_byte_details(word: Word) -> Seq<char> {
        "Upper byte of address register is non-zero (value: "@ + hex_word_upper(word as int) + ")"@
    }

    /// What validation makes of a number.
    pub open spec fn spec_try_from(number: u8) -> Result<Address, ErrorAddressOutOfRange> {
        if Self::assignable(number as int) {
            Ok(Self::numbered(number))
        } else {
            Err(ErrorAddressOutOfRange(number))
        }
    }

    /// What decoding makes of the registers read at [`Address::ADDRESS`]: the
    /// number of the address, or the error.
    pub open spec fn spec_decode(words: Seq<Word>) -> Result<int, ErrorView> {
        if words.len() != 1 {
            Err(ErrorView::UnexpectedDataLength { expected: 1, got: words.len() })
        } else if words[0] / 256 != 0 {
            Err(ErrorView::InvalidData { details: Self::upper_byte_details(words[0]) })
        } else if !Self::assignable(words[0] as int) {
            Err(ErrorView::InvalidData { details: ErrorAddressOutOfRange(words[0] as u8).message() })
        } else {
            Ok(words[0] as int)
        }
    }

    /// The broadcast address 255.
    ///
    /// It addresses a read of the device address when that address is not
    /// known; no device can have it as its own.
    pub fn broadcast() -> (address: Address)
        ensures
            address@ == 255,
    {
        Address { value: 0xFF }
    }

    /// Decodes the device address from the registers read at [`Address::ADDRESS`].
    ///
    /// Exactly one word is accepted, with a zero upper byte and a lower byte
    /// from 1 to 247.
    pub fn decode_from_holding_registers(words: &[Word]) -> (r: Result<Self, Error>)
        ensures
            match r {
                Ok(address) => Self::spec_decode(words@) == Ok::<int, ErrorView>(address@),
                Err(error) => Self::spec_decode(words@) == Err::<int, ErrorView>(error@),
            },
            r is Ok <==> words@.len() == 1 && Self::assignable(words@[0] as int),
    {
        if words.len() != 1 {
            return Err(Error::UnexpectedDataLength { expected: 1, got: words.len() });
        }
        let word = words[0];
        if word / 256 != 0 {
            let mut details = String::from_str(
                "Upper byte of address register is non-zero (value: ",
            );
            append_hex_word_upper(&mut details, word);
            details.append(")");
            return Err(Error::InvalidData { details });
        }
        let number = word as u8;
        match Address::try_from(number) {
            Ok(address) => Ok(address),
            Err(error) => Err(Error::InvalidData { details: error.to_string() }),
        }
    }

    /// Encodes the address as the word to write to [`Address::ADDRESS`].
    pub fn encode_for_write_register(&self) -> (word: Word)
        ensures
            word == self@,
    {
        self.value as Word
    }

    /// Renders the address as `0x` and two hexadecimal digits, such as `0x01`.
    pub fn to_string(&self) -> (text: String)
        ensures
            text@ == hex_byte(self@),
    {
        let mut text = String::new();
        append_hex_byte(&mut text, self.value);
        text
    }

    /// A valid address is assignable or the broadcast address.
    pub proof fn lemma_valid_numbers(self)
        requires
            self.wf(),
        ensures
            Self::assignable(self@) || self@ == 255,
    {
    }

    /// An address is determined by its number.
    pub proof fn lemma_number_determines_address(a: Address, b: Address)
        ensures
            a@ == b@ <==> a == b,
            Self::numbered(a@ as u8) == a,
    {
    }

    /// The address made of a number has that number, and is valid exactly
    /// when the number is assignable or 255.
    pub proof fn lemma_numbered(number: u8)
        ensures
            Self::numbered(number)@ == number,
            Self::numbered(number).wf() <==> Self::assignable(number as int) || number == 255,
    {
    }

    /// Decoding the word an assignable address encodes to gives the address back.
    pub proof fn lemma_encode_then_decode(address: Address)
        requires
            address.wf(),
            address@ != 255,
        ensures
            Self::spec_decode(seq![address@ as Word]) == Ok::<int, ErrorView>(address@),
    {
    }

    /// The broadcast address never comes out of validation or decoding.
    pub proof fn lemma_broadcast_is_never_produced(words: Seq<Word>)
        ensures
            Self::spec_try_from(255) == Err::<Address, ErrorAddressOutOfRange>(
                ErrorAddressOutOfRange(255),
            ),
            Self::spec_decode(words) != Ok::<int, ErrorView>(255),
    {
    }
}

impl std::ops::Deref for Address {
    type Target = u8;

    /// The address as a number.
    fn deref(&self) -> (number: &u8)
        ensures
            *number == self@,
    {
        &self.value
    }
}

impl Default for Address {
    /// The factory default address 1.
    fn default() -> (address: Self)
        ensures
            address@ == 1,
    {
        Address { value: 0x01 }
    }
}

impl TryFromSpecImpl<u8> for Address {
    open spec fn obeys_try_from_spec() -> bool {
        true
    }

    open spec fn try_from_spec(value: u8) -> Result<Self, ErrorAddressOutOfRange> {
        Self::spec_try_from(value)
    }
}

impl TryFrom<u8> for Address {
    type Error = ErrorAddressOutOfRange;

    /// The assignable address with the given number; a number outside 1 to
    /// 247, the broadcast number 255 included, is rejected and handed back.
    fn try_from(value: u8) -> (r: Result<Self, ErrorAddressOutOfRange>)
        ensures
            r == Self::spec_try_from(value),
            r is Ok <==> Self::assignable(value as int),
            r matches Ok(address) ==> address@ == value,
            r matches Err(error) ==> error.0 == value,
    {
        if Self::MIN <= value && value <= Self::MAX {
            Ok(Address { value })
        } else {
            Err(ErrorAddressOutOfRange(value))
        }
    }
}

impl ErrorAddressOutOfRange {
    /// The message shown to a user for a rejected address.
    pub open spec fn message(self) -> Seq<char> {
        "The address value "@ + decimal(self.0 as nat)
            + " is outside the valid assignable range of 1 to 247"@
    }

    /// Renders the error as the message shown to a user.
    pub fn to_string(&self) -> (text: String)
        ensures
            text@ == self.message(),
    {
        let mut text = String::from_str("The address value ");
        append_decimal(&mut text, self.0 as u64);
        text.append(" is outside the valid assignable range of 1 to 247");
        text
    }
}

} // verus!
