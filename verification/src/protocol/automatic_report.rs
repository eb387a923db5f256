//! The interval of the module's automatic temperature report.

use crate::duration::{nanoseconds, NANOS_PER_SECOND};
use crate::protocol::error::{Error, ErrorView};
use crate::protocol::Word;
use crate::text::{append_decimal, append_hex_word_upper, decimal, hex_word_upper};
use std::time::Duration;
use vstd::prelude::*;
use vstd::std_specs::convert::{FromSpecImpl, TryFromSpecImpl};
use vstd::string::StringExecFns;

verus! {

/// The interval of the automatic report in seconds, from 0 to 255.
///
/// An interval of 0 seconds switches the report off: the module then answers
/// queries only.
#[derive(Debug, Clone, Copy, PartialEq, Eq, PartialOrd, Ord, Structural)]
pub struct AutomaticReport {
    seconds: u8,
}

/// A number of whole seconds that is no report interval.
#[derive(Debug, Clone, Copy, PartialEq, Eq, Structural)]
pub struct ErrorDurationOutOfRange(
    /// The rejected number of whole seconds.
    pub u64,
);

impl View for AutomaticReport {
    type V = int;

    /// The interval in seconds.
    closed spec fn view(&self) -> int {
        self.seconds as int
    }
}

impl AutomaticReport {
    /// Register address of the report interval.
    pub const ADDRESS: u16 = 0x00FD;

    /// Number of registers the report interval occupies.
    pub const QUANTITY: u16 = 1;

    /// The shortest interval; it switches the report off.
    pub const DURATION_MIN: u8 = 0;

    /// The longest interval.
    pub const DURATION_MAX: u8 = 255;

    /// The interval of the given seconds.
    pub closed spec fn of_seconds(seconds: u8) -> AutomaticReport {
        AutomaticReport { seconds }
    }

    /// The whole seconds in a duration.
    pub open spec fn whole_seconds(duration: Duration) -> u64 {
        (nanoseconds(duration) / (NANOS_PER_SECOND as u128)) as u64
    }

    /// What validation makes of a number of whole seconds.
    pub open spec fn spec_from_whole_seconds(seconds: u64) -> Result<
        AutomaticReport,
        ErrorDurationOutOfRange,
    > {
        if seconds <= Self::DURATION_MAX {
            Ok(Self::of_seconds(seconds as u8))
        } else {
            Err(ErrorDurationOutOfRange(seconds))
        }
    }

    /// The text written into an invalid-data error for a word whose upper byte is set.
    pub open spec fn upper_byte_details(word: Word) -> Seq<char> {
        "Upper byte of automatic report register is non-zero (value: "@ + hex_word_upper(
            word as int,
        ) + ")"@
    }

    /// What decoding makes of the registers read at
    /// [`AutomaticReport::ADDRESS`]: the interval in seconds, or the error.
    pub open spec fn spec_decode(words: Seq<Word>) -> Result<int, ErrorView> {
        if words.len() != 1 {
            Err(ErrorView::UnexpectedDataLength { expected: 1, got: words.len() })
        } else if words[0] / 256 != 0 {
            Err(ErrorView::InvalidData { details: Self::upper_byte_details(words[0]) })
        } else {
            Ok(words[0] as int)
        }
    }

    /// The interval that switches the automatic report off.
    pub fn disabled() -> (report: AutomaticReport)
        ensures
            report@ == 0,
    {
        AutomaticReport { seconds: 0 }
    }

    /// Decodes the report interval from the registers read at
    /// [`AutomaticReport::ADDRESS`].
    ///
    /// Exactly one word with a zero upper byte is accepted; its lower byte is
    /// the interval in seconds.
    pub fn decode_from_holding_registers(words: &[Word]) -> (r: Result<Self, Error>)
        ensures
            match r {
                Ok(report) => Self::spec_decode(words@) == Ok::<int, ErrorView>(report@),
                Err(error) => Self::spec_decode(words@) == Err::<int, ErrorView>(error@),
            },
            r is Ok <==> words@.len() == 1 && words@[0] <= 255,
    {
        if words.len() != 1 {
            return Err(Error::UnexpectedDataLength { expected: 1, got: words.len() });
        }
        let word = words[0];
        if word / 256 != 0 {
            let mut details = String::from_str(
                "Upper byte of automatic report register is non-zero (value: ",
            );
            append_hex_word_upper(&mut details, word);
            details.append(")");
            return Err(Error::InvalidData { details });
        }
        Ok(AutomaticReport { seconds: word as u8 })
    }

    /// Encodes the interval as the word to write to [`AutomaticReport::ADDRESS`].
    pub fn encode_for_write_register(&self) -> (word: Word)
        ensures
            word == self@,
    {
        self.seconds as Word
    }

    /// The interval in seconds; 0 means the report is switched off.
    pub fn as_secs(&self) -> (seconds: u8)
        ensures
            seconds == self@,
    {
        self.seconds
    }

    /// The interval as a duration of whole seconds.
    pub fn as_duration(&self) -> (duration: Duration)
        ensures
            nanoseconds(duration) == self@ * NANOS_PER_SECOND,
            Self::whole_seconds(duration) == self@,
    {
        let duration = Duration::from_secs(self.seconds as u64);
        proof {
            let nanos = nanoseconds(duration) as int;
            assert(nanos / 1_000_000_000 == self.seconds as int);
        }
        duration
    }

    /// Whether the automatic report is switched off.
    pub fn is_disabled(&self) -> (disabled: bool)
        ensures
            disabled == (self@ == 0),
    {
        self.seconds == Self::DURATION_MIN
    }

    /// The interval of a number of whole seconds; a number above 255 is
    /// rejected and handed back.
    pub fn from_whole_seconds(seconds: u64) -> (r: Result<Self, ErrorDurationOutOfRange>)
        ensures
            r == Self::spec_from_whole_seconds(seconds),
            r is Ok <==> seconds <= 255,
            r matches Ok(report) ==> report@ == seconds,
            r matches Err(error) ==> error.0 == seconds,
    {
        if seconds <= 255 {
            Ok(AutomaticReport { seconds: seconds as u8 })
        } else {
            Err(ErrorDurationOutOfRange(seconds))
        }
    }

    /// Renders the interval as its seconds and the letter `s`, such as `10s`.
    pub fn to_string(&self) -> (text: String)
        ensures
            text@ == decimal(self@ as nat) + "s"@,
    {
        let mut text = String::new();
        append_decimal(&mut text, self.seconds as u64);
        text.append("s");
        text
    }

    /// Every interval is a number of seconds from 0 to 255.
    pub proof fn lemma_seconds_in_range(self)
        ensures
            0 <= self@ <= 255,
    {
    }

    /// The interval made of seconds has those seconds.
    pub proof fn lemma_of_seconds(seconds: u8)
        ensures
            Self::of_seconds(seconds)@ == seconds,
    {
    }

    /// An interval is determined by its seconds.
    pub proof fn lemma_seconds_determine_interval(a: AutomaticReport, b: AutomaticReport)
        ensures
            a@ == b@ <==> a == b,
    {
    }

    /// Decoding the word an interval encodes to gives the interval back.
    pub proof fn lemma_encode_then_decode(report: AutomaticReport)
        ensures
            Self::spec_decode(seq![report@ as Word]) == Ok::<int, ErrorView>(report@),
    {
    }
}

impl std::ops::Deref for AutomaticReport {
    type Target = u8;

    /// The interval in seconds.
    fn deref(&self) -> (seconds: &u8)
        ensures
            *seconds == self@,
    {
        &self.seconds
    }
}

impl FromSpecImpl<u8> for AutomaticReport {
    open spec fn obeys_from_spec() -> bool {
        true
    }

    open spec fn from_spec(seconds: u8) -> AutomaticReport {
        Self::of_seconds(seconds)
    }
}

impl From<u8> for AutomaticReport {
    /// The interval of the given seconds; every `u8` is an interval.
    fn from(interval_seconds: u8) -> (report: AutomaticReport)
        ensures
            report@ == interval_seconds,
    {
        AutomaticReport { seconds: interval_seconds }
    }
}

impl TryFromSpecImpl<Duration> for AutomaticReport {
    open spec fn obeys_try_from_spec() -> bool {
        true
    }

    open spec fn try_from_spec(value: Duration) -> Result<Self, ErrorDurationOutOfRange> {
        Self::spec_from_whole_seconds(Self::whole_seconds(value))
    }
}

impl TryFrom<Duration> for AutomaticReport {
    type Error = ErrorDurationOutOfRange;

    /// The interval of the whole seconds of a duration. The fraction of a
    /// second is dropped first; more than 255 whole seconds are rejected, and
    /// the error carries the whole seconds.
    fn try_from(value: Duration) -> (r: Result<Self, ErrorDurationOutOfRange>)
        ensures
            r == Self::spec_from_whole_seconds(Self::whole_seconds(value)),
            r is Ok <==> Self::whole_seconds(value) <= 255,
            r matches Ok(report) ==> report@ == Self::whole_seconds(value),
            r matches Err(error) ==> error.0 == Self::whole_seconds(value),
    {
        Self::from_whole_seconds(value.as_secs())
    }
}

impl ErrorDurationOutOfRange {
    /// The message shown to a user for a rejected duration.
    pub open spec fn message(self) -> Seq<char> {
        "The duration "@ + decimal(self.0 as nat)
            + " seconds is outside the valid automatic report range [0, 255] seconds"@
    }

    /// Renders the error as the message shown to a user.
    pub fn to_string(&self) -> (text: String)
        ensures
            text@ == self.message(),
    {
        let mut text = String::from_str("The duration ");
        append_decimal(&mut text, self.0);
        text.append(" seconds is outside the valid automatic report range [0, 255] seconds");
        text
    }
}

} // verus!
