//! A temperature in tenths of a degree Celsius and its register encoding.

use crate::protocol::error::{outcome, Error, ErrorView};
use crate::protocol::Word;
use crate::text::{append_one_decimal_place, one_decimal_place};
use std::cmp::Ordering;
use vstd::prelude::*;
use vstd::std_specs::convert::TryFromSpecImpl;
use vstd::string::StringExecFns;

verus! {

/// A temperature reading or correction in degrees Celsius.
///
/// The module measures in steps of 0.1 °C, so a temperature is a whole number
/// of tenths from -32767 to 32767 (-3276.7 °C to 3276.7 °C), or the value
/// "not a number", which stands for an absent or failed sensor.
///
/// A register holds the tenths as a signed 16-bit number. The word `0x8000`,
/// which would be -3276.8 °C, is set aside for "not a number"; so the range
/// ends one step short at its lower end, and -3276.8 °C is no temperature.
///
/// Two temperatures are equal when they hold the same tenths or are both
/// "not a number".
#[derive(Debug, Clone, Copy, PartialEq, Eq, Structural)]
pub struct Temperature {
    /// The tenths of a degree; the smallest `i16` stands for "not a number".
    raw: i16,
}

/// A number of tenths outside the range of temperatures.
#[derive(Debug, Clone, Copy, PartialEq, Eq, Structural)]
pub struct ErrorDegreeCelsiusOutOfRange(
    /// The rejected number of tenths of a degree.
    pub i32,
);

impl View for Temperature {
    type V = Option<int>;

    /// The tenths of a degree, or `None` for "not a number".
    closed spec fn view(&self) -> Option<int> {
        if self.raw == i16::MIN {
            None
        } else {
            Some(self.raw as int)
        }
    }
}

impl Temperature {
    /// The lowest temperature, -3276.7 °C, in tenths of a degree.
    pub const MIN: i16 = -32767;

    /// The highest temperature, 3276.7 °C, in tenths of a degree.
    pub const MAX: i16 = 32767;

    /// The register word that stands for "not a number".
    pub const NAN_WORD: Word = 0x8000;

    /// Whether a number of tenths is a temperature.
    pub open spec fn in_range(tenths: int) -> bool {
        Self::MIN <= tenths <= Self::MAX
    }

    /// What a register word means: `None` for the word `0x8000`, else the
    /// tenths of a degree that the word holds as a signed 16-bit number.
    pub open spec fn spec_decode(word: Word) -> Option<int> {
        if word == Self::NAN_WORD {
            None
        } else if word > Self::NAN_WORD {
            Some(word as int - 65536)
        } else {
            Some(word as int)
        }
    }

    /// The register word of a number of tenths: the number itself when it is
    /// not negative, else the number counted down from 65536.
    pub open spec fn spec_encode(tenths: int) -> int {
        if tenths >= 0 {
            tenths
        } else {
            65536 + tenths
        }
    }

    /// The reason given when "not a number" is to be encoded.
    pub open spec fn nan_reason() -> Seq<char> {
        "Temperature value is NAN, which cannot be encoded."@
    }

    /// What encoding makes of a temperature.
    pub open spec fn spec_encode_checked(temperature: Option<int>) -> Result<Word, ErrorView> {
        match temperature {
            Some(tenths) => Ok(Self::spec_encode(tenths) as Word),
            None => Err(ErrorView::EncodeError { reason: Self::nan_reason() }),
        }
    }

    /// The text of a temperature: one decimal place, or `NAN`.
    pub open spec fn spec_text(temperature: Option<int>) -> Seq<char> {
        match temperature {
            Some(tenths) => one_decimal_place(tenths),
            None => "NAN"@,
        }
    }

    /// The temperature of the given tenths of a degree.
    pub closed spec fn of_tenths(tenths: int) -> Temperature {
        Temperature { raw: tenths as i16 }
    }

    /// What validation makes of a number of tenths.
    pub open spec fn spec_try_from(tenths: i32) -> Result<
        Temperature,
        ErrorDegreeCelsiusOutOfRange,
    > {
        if Self::in_range(tenths as int) {
            Ok(Self::of_tenths(tenths as int))
        } else {
            Err(ErrorDegreeCelsiusOutOfRange(tenths))
        }
    }

    /// The value "not a number": the reading of a channel without a working sensor.
    pub fn nan() -> (temperature: Temperature)
        ensures
            temperature@ is None,
    {
        Temperature { raw: i16::MIN }
    }

    /// Decodes a temperature from its register word.
    pub fn decode_from_holding_registers(word: Word) -> (temperature: Temperature)
        ensures
            temperature@ == Self::spec_decode(word),
    {
        if word >= 0x8000 {
            Temperature { raw: (word as i32 - 65536) as i16 }
        } else {
            Temperature { raw: word as i16 }
        }
    }

    /// Encodes the temperature as the word to write to a register.
    ///
    /// "Not a number" cannot be written and is refused with an encode error.
    pub fn encode_for_write_register(&self) -> (r: Result<Word, Error>)
        ensures
            outcome(r) == Self::spec_encode_checked(self@),
            r is Ok <==> self@ is Some,
    {
        if self.raw == i16::MIN {
            Err(
                Error::EncodeError {
                    reason: String::from_str("Temperature value is NAN, which cannot be encoded."),
                },
            )
        } else if self.raw >= 0 {
            Ok(self.raw as Word)
        } else {
            Ok((65536 + self.raw as i32) as Word)
        }
    }

    /// Whether the temperature is "not a number".
    pub fn is_nan(&self) -> (nan: bool)
        ensures
            nan == (self@ is None),
    {
        self.raw == i16::MIN
    }

    /// The tenths of a degree, or `None` for "not a number".
    pub fn tenths(&self) -> (tenths: Option<i16>)
        ensures
            match tenths {
                Some(number) => self@ == Some(number as int),
                None => self@ is None,
            },
    {
        if self.raw == i16::MIN {
            None
        } else {
            Some(self.raw)
        }
    }

    /// Renders the temperature with one decimal place, such as `21.9`, or as `NAN`.
    pub fn to_string(&self) -> (text: String)
        ensures
            text@ == Self::spec_text(self@),
    {
        if self.raw == i16::MIN {
            String::from_str("NAN")
        } else {
            let mut text = String::new();
            append_one_decimal_place(&mut text, self.raw as i32);
            text
        }
    }

    /// The tenths of every temperature that is a number are in range.
    pub proof fn lemma_tenths_in_range(self)
        ensures
            self@ matches Some(tenths) ==> Self::in_range(tenths),
    {
    }

    /// A temperature is determined by its tenths.
    pub proof fn lemma_tenths_determine_temperature(a: Temperature, b: Temperature)
        ensures
            a@ == b@ <==> a == b,
    {
    }

    /// The temperature made of tenths in range has those tenths.
    pub proof fn lemma_of_tenths(tenths: int)
        requires
            Self::in_range(tenths),
        ensures
            Self::of_tenths(tenths)@ == Some(tenths),
    {
    }

    /// Every register word but `0x8000` decodes to tenths in range, and
    /// `0x8000` alone decodes to "not a number".
    pub proof fn lemma_decode_range(word: Word)
        ensures
            Self::spec_decode(word) is None <==> word == Self::NAN_WORD,
            Self::spec_decode(word) matches Some(tenths) ==> Self::in_range(tenths),
    {
    }

    /// Round trip: every temperature that is a number encodes to a word, and
    /// that word decodes to the temperature. "Not a number" has no word.
    pub proof fn lemma_round_trip(temperature: Temperature)
        ensures
            temperature@ is Some ==> (Self::spec_encode_checked(temperature@) matches Ok(word)
                && Self::spec_decode(word) == temperature@),
            temperature@ is None ==> Self::spec_encode_checked(temperature@) is Err,
    {
    }

    /// Round trip: tenths in range decode from the word they encode to.
    pub proof fn lemma_encode_then_decode(tenths: int)
        requires
            Self::in_range(tenths),
        ensures
            0 <= Self::spec_encode(tenths) <= Word::MAX,
            Self::spec_encode(tenths) != Self::NAN_WORD,
            Self::spec_decode(Self::spec_encode(tenths) as Word) == Some(tenths),
    {
    }

    /// Round trip: a word that decodes to a number is the word that number
    /// encodes to.
    pub proof fn lemma_decode_then_encode(word: Word)
        requires
            word != Self::NAN_WORD,
        ensures
            Self::spec_decode(word) matches Some(tenths) && Self::spec_encode(tenths) == word,
    {
    }

    /// Validation never gives "not a number".
    pub proof fn lemma_validated_is_a_number(tenths: i32)
        ensures
            Self::spec_try_from(tenths) matches Ok(temperature) ==> temperature@ == Some(
                tenths as int,
            ),
    {
    }
}

impl vstd::std_specs::cmp::PartialOrdSpecImpl for Temperature {
    open spec fn obeys_partial_cmp_spec() -> bool {
        true
    }

    /// Numbers are ordered by their tenths. "Not a number" equals itself and
    /// is neither below nor above any number.
    open spec fn partial_cmp_spec(&self, other: &Temperature) -> Option<Ordering> {
        match (self@, other@) {
            (Some(left), Some(right)) => if left < right {
                Some(Ordering::Less)
            } else if left > right {
                Some(Ordering::Greater)
            } else {
                Some(Ordering::Equal)
            },
            (None, None) => Some(Ordering::Equal),
            _ => None,
        }
    }
}

impl PartialOrd for Temperature {
    /// Compares two temperatures by their tenths; "not a number" compares
    /// with itself alone.
    fn partial_cmp(&self, other: &Temperature) -> (order: Option<Ordering>) {
        if self.raw == other.raw {
            Some(Ordering::Equal)
        } else if self.raw == i16::MIN || other.raw == i16::MIN {
            None
        } else if self.raw < other.raw {
            Some(Ordering::Less)
        } else {
            Some(Ordering::Greater)
        }
    }
}

impl TryFromSpecImpl<i32> for Temperature {
    open spec fn obeys_try_from_spec() -> bool {
        true
    }

    open spec fn try_from_spec(value: i32) -> Result<Self, ErrorDegreeCelsiusOutOfRange> {
        Self::spec_try_from(value)
    }
}

impl TryFrom<i32> for Temperature {
    type Error = ErrorDegreeCelsiusOutOfRange;

    /// The temperature of the given tenths of a degree; a number outside
    /// -32767 to 32767 is rejected and handed back. The result is never
    /// "not a number".
    fn try_from(value: i32) -> (r: Result<Self, ErrorDegreeCelsiusOutOfRange>)
        ensures
            r == Self::spec_try_from(value),
            r is Ok <==> Self::in_range(value as int),
            r matches Ok(temperature) ==> temperature@ == Some(value as int),
            r matches Err(error) ==> error.0 == value,
    {
        if -32767 <= value && value <= 32767 {
            Ok(Temperature { raw: value as i16 })
        } else {
            Err(ErrorDegreeCelsiusOutOfRange(value))
        }
    }
}

impl ErrorDegreeCelsiusOutOfRange {
    /// The message shown to a user for a rejected temperature.
    pub open spec fn message(self) -> Seq<char> {
        "The degree celsius value "@ + one_decimal_place(self.0 as int)
            + " is outside the valid range of -3276.7 to 3276.7"@
    }

    /// Renders the error as the message shown to a user.
    pub fn to_string(&self) -> (text: String)
        ensures
            text@ == self.message(),
    {
        let mut text = String::from_str("The degree celsius value ");
        append_one_decimal_place(&mut text, self.0);
        text.append(" is outside the valid range of -3276.7 to 3276.7");
        text
    }
}

} // verus!
