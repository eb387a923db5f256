//! The temperature corrections of all eight channels.

use crate::protocol::channel::Channel;
use crate::protocol::error::{outcome, Error, ErrorView};
use crate::protocol::temperature::Temperature;
use crate::protocol::temperatures::{
    channels_text, decode_block, decode_channels, listing, tenths_of,
};
use crate::protocol::{Word, NUMBER_OF_CHANNELS};
use vstd::prelude::*;

verus! {

/// The temperature corrections of the eight channels, by channel index.
///
/// The module adds a channel's correction to its raw reading; a correction of
/// 0.0 °C leaves the reading as it is. Corrections are read as a block and
/// written one channel at a time.
#[derive(Debug, Clone, Copy, PartialEq, Eq)]
pub struct TemperatureCorrection {
    values: [Temperature; NUMBER_OF_CHANNELS],
}

impl View for TemperatureCorrection {
    type V = Seq<Option<int>>;

    /// The tenths of a degree of each channel's correction, `None` for "not a number".
    closed spec fn view(&self) -> Seq<Option<int>> {
        tenths_of(self.values@)
    }
}

impl vstd::std_specs::core::IndexSpecImpl<usize> for TemperatureCorrection {
    open spec fn index_req(&self, index: &usize) -> bool {
        *index < NUMBER_OF_CHANNELS
    }
}

impl std::ops::Index<usize> for TemperatureCorrection {
    type Output = Temperature;

    /// The correction of the channel with the given index, which is below eight.
    fn index(&self, index: usize) -> (correction: &Temperature)
        ensures
            correction@ == self@[index as int],
    {
        &self.values[index]
    }
}

impl IntoIterator for TemperatureCorrection {
    type Item = Temperature;

    type IntoIter = std::vec::IntoIter<Temperature>;

    /// An iterator over the corrections in channel order.
    fn into_iter(self) -> (corrections: std::vec::IntoIter<Temperature>)
        ensures
            tenths_of(vstd::std_specs::vec::into_iter_elts(corrections)) == self@,
    {
        let listed = vstd::slice::slice_to_vec(self.as_slice());
        let corrections = listed.into_iter();
        proof {
            vstd::std_specs::vec::axiom_spec_into_iter(listed);
        }
        corrections
    }
}

impl<'a> IntoIterator for &'a TemperatureCorrection {
    type Item = &'a Temperature;

    type IntoIter = std::slice::Iter<'a, Temperature>;

    /// An iterator over the corrections in channel order.
    fn into_iter(self) -> (corrections: std::slice::Iter<'a, Temperature>)
        ensures
            tenths_of(vstd::std_specs::slice::into_iter_elts(corrections)) == self@,
    {
        self.iter()
    }
}

impl TemperatureCorrection {
    /// Register address of the first channel's correction.
    pub const ADDRESS: u16 = 0x0008;

    /// Number of registers the corrections occupy.
    pub const QUANTITY: u16 = 8;

    /// The register address of a channel's correction.
    pub open spec fn spec_channel_address(channel: int) -> int {
        Self::ADDRESS + channel
    }

    /// Decodes the corrections from the registers read at
    /// [`TemperatureCorrection::ADDRESS`].
    ///
    /// Exactly eight words are accepted; each is decoded on its own, as a
    /// temperature is.
    pub fn decode_from_holding_registers(words: &[Word]) -> (r: Result<Self, Error>)
        ensures
            match r {
                Ok(corrections) => decode_block(words@) == Ok::<Seq<Option<int>>, ErrorView>(
                    corrections@,
                ),
                Err(error) => decode_block(words@) == Err::<Seq<Option<int>>, ErrorView>(error@),
            },
            r is Ok <==> words@.len() == NUMBER_OF_CHANNELS,
            r matches Ok(decoded) ==> decoded@.len() == NUMBER_OF_CHANNELS && forall|i: int|
                0 <= i < NUMBER_OF_CHANNELS ==> #[trigger] decoded@[i] == Temperature::spec_decode(
                    words@[i],
                ),
    {
        if words.len() != NUMBER_OF_CHANNELS {
            return Err(
                Error::UnexpectedDataLength { expected: NUMBER_OF_CHANNELS, got: words.len() },
            );
        }
        Ok(TemperatureCorrection { values: decode_channels(words) })
    }

    /// The correction of a channel.
    pub fn get(&self, channel: Channel) -> (correction: Temperature)
        ensures
            correction@ == self@[channel@],
    {
        let index: u8 = *channel;
        self.values[index as usize]
    }

    /// An iterator over the corrections in channel order.
    pub fn iter(&self) -> (corrections: std::slice::Iter<'_, Temperature>)
        ensures
            tenths_of(vstd::std_specs::slice::into_iter_elts(corrections)) == self@,
    {
        let corrections = self.values.iter();
        proof {
            vstd::std_specs::slice::axiom_spec_slice_iter(
                vstd::array::spec_array_as_slice(&self.values),
            );
        }
        corrections
    }

    /// The corrections in channel order.
    pub fn as_slice(&self) -> (corrections: &[Temperature])
        ensures
            tenths_of(corrections@) == self@,
            corrections@.len() == NUMBER_OF_CHANNELS,
            forall|i: int| 0 <= i < NUMBER_OF_CHANNELS ==> (#[trigger] corrections@[i])@ == self@[i],
    {
        &self.values
    }

    /// The corrections in channel order.
    pub fn as_array(&self) -> (corrections: &[Temperature; NUMBER_OF_CHANNELS])
        ensures
            tenths_of(corrections@) == self@,
            forall|i: int| 0 <= i < NUMBER_OF_CHANNELS ==> (#[trigger] corrections@[i])@ == self@[i],
    {
        &self.values
    }

    /// Encodes one correction as the word to write to the register of its
    /// channel, which [`TemperatureCorrection::channel_address`] gives.
    ///
    /// "Not a number" cannot be written and is refused with an encode error.
    pub fn encode_for_write_register(correction_value: Temperature) -> (r: Result<Word, Error>)
        ensures
            outcome(r) == Temperature::spec_encode_checked(correction_value@),
            r is Ok <==> correction_value@ is Some,
    {
        correction_value.encode_for_write_register()
    }

    /// The register address of a channel's correction: the address of the
    /// block plus the channel index.
    pub fn channel_address(channel: Channel) -> (address: u16)
        ensures
            address == Self::spec_channel_address(channel@),
            address == 0x0008 + channel@,
            Self::ADDRESS <= address < Self::ADDRESS + Self::QUANTITY,
    {
        let index: u8 = *channel;
        Self::ADDRESS + index as u16
    }

    /// Renders the corrections, separated by a comma and a space.
    pub fn to_string(&self) -> (text: String)
        ensures
            text@ == listing(self@),
    {
        channels_text(&self.values)
    }

    /// There are eight corrections, each "not a number" or tenths in range.
    pub proof fn lemma_eight_corrections(self)
        ensures
            self@.len() == NUMBER_OF_CHANNELS,
            forall|i: int|
                0 <= i < NUMBER_OF_CHANNELS ==> ((#[trigger] self@[i]) matches Some(tenths)
                    ==> Temperature::in_range(tenths)),
    {
        assert forall|i: int| 0 <= i < NUMBER_OF_CHANNELS implies ((#[trigger] self@[i]) matches Some(
            tenths,
        ) ==> Temperature::in_range(tenths)) by {
            self.values@[i].lemma_tenths_in_range();
        }
    }

    /// Different channels have different registers, all within the block.
    pub proof fn lemma_channel_addresses(a: int, b: int)
        requires
            Channel::in_range(a),
            Channel::in_range(b),
        ensures
            Self::spec_channel_address(a) == Self::spec_channel_address(b) <==> a == b,
            Self::ADDRESS <= Self::spec_channel_address(a) < Self::ADDRESS + Self::QUANTITY,
    {
    }
}

} // verus!
