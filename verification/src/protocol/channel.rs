//! The index of one of the eight temperature channels.

use crate::text::{append_decimal, decimal};
use vstd::prelude::*;
use vstd::std_specs::convert::TryFromSpecImpl;
use vstd::string::StringExecFns;

verus! {

/// A temperature channel, an index from 0 to 7.
#[derive(Debug, Clone, Copy, PartialEq, Eq, PartialOrd, Ord, Structural)]
pub struct Channel {
    index: u8,
}

/// A number that is no channel index.
#[derive(Debug, Clone, Copy, PartialEq, Eq, Structural)]
pub struct ErrorChannelOutOfRange(
    /// The rejected number.
    pub u8,
);

impl View for Channel {
    type V = int;

    /// The channel as an index.
    closed spec fn view(&self) -> int {
        self.index as int
    }
}

impl Channel {
    /// The smallest channel index.
    pub const MIN: u8 = 0;

    /// The largest channel index.
    pub const MAX: u8 = 7;

    /// Whether a number is a channel index.
    pub open spec fn in_range(number: int) -> bool {
        Self::MIN <= number <= Self::MAX
    }

    /// Validity: the index is below the number of channels.
    #[verifier::type_invariant]
    pub closed spec fn wf(self) -> bool {
        Self::in_range(self.index as int)
    }

    /// The channel with the given index.
    pub closed spec fn numbered(number: u8) -> Channel {
        Channel { index: number }
    }

    /// What validation makes of a number.
    pub open spec fn spec_try_from(number: u8) -> Result<Channel, ErrorChannelOutOfRange> {
        if Self::in_range(number as int) {
            Ok(Self::numbered(number))
        } else {
            Err(ErrorChannelOutOfRange(number))
        }
    }

    /// Renders the channel as its index, such as `7`.
    pub fn to_string(&self) -> (text: String)
        ensures
            text@ == decimal(self@ as nat),
    {
        let mut text = String::new();
        append_decimal(&mut text, self.index as u64);
        text
    }

    /// The index of a valid channel is in range.
    pub proof fn lemma_valid_indices(self)
        requires
            self.wf(),
        ensures
            Self::in_range(self@),
    {
    }

    /// The channel made of a number has that number as its index, and is
    /// valid exactly when the number is in range.
    pub proof fn lemma_numbered(number: u8)
        ensures
            Self::numbered(number)@ == number,
            Self::numbered(number).wf() <==> Self::in_range(number as int),
    {
    }

    /// A channel is determined by its index.
    pub proof fn lemma_index_determines_channel(a: Channel, b: Channel)
        ensures
            a@ == b@ <==> a == b,
    {
    }
}

impl std::ops::Deref for Channel {
    type Target = u8;

    /// The channel as an index.
    fn deref(&self) -> (number: &u8)
        ensures
            *number == self@,
            Channel::in_range(*number as int),
    {
        proof {
            use_type_invariant(self);
        }
        &self.index
    }
}

impl TryFromSpecImpl<u8> for Channel {
    open spec fn obeys_try_from_spec() -> bool {
        true
    }

    open spec fn try_from_spec(value: u8) -> Result<Self, ErrorChannelOutOfRange> {
        Self::spec_try_from(value)
    }
}

impl TryFrom<u8> for Channel {
    type Error = ErrorChannelOutOfRange;

    /// The channel with the given index; a number above 7 is rejected and
    /// handed back.
    fn try_from(value: u8) -> (r: Result<Self, ErrorChannelOutOfRange>)
        ensures
            r == Self::spec_try_from(value),
            r is Ok <==> Self::in_range(value as int),
            r matches Ok(channel) ==> channel@ == value,
            r matches Err(error) ==> error.0 == value,
    {
        if value <= Self::MAX {
            Ok(Channel { index: value })
        } else {
            Err(ErrorChannelOutOfRange(value))
        }
    }
}

impl ErrorChannelOutOfRange {
    /// The message shown to a user for a rejected channel.
    pub open spec fn message(self) -> Seq<char> {
        "The channel value "@ + decimal(self.0 as nat) + " is outside the valid range of 0 to 7"@
    }

    /// Renders the error as the message shown to a user.
    pub fn to_string(&self) -> (text: String)
        ensures
            text@ == self.message(),
    {
        let mut text = String::from_str("The channel value ");
        append_decimal(&mut text, self.0 as u64);
        text.append(" is outside the valid range of 0 to 7");
        text
    }
}

} // verus!
