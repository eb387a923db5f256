//! The temperature readings of all eight channels.

use crate::protocol::channel::Channel;
use crate::protocol::error::{Error, ErrorView};
use crate::protocol::temperature::Temperature;
use crate::protocol::{Word, NUMBER_OF_CHANNELS};
use vstd::prelude::*;
use vstd::string::StringExecFns;

verus! {

/// What a run of register words means, word by word.
pub open spec fn decode_each(words: Seq<Word>) -> Seq<Option<int>> {
    Seq::new(words.len(), |i: int| Temperature::spec_decode(words[i]))
}

/// What decoding makes of the registers of an eight-channel block.
pub open spec fn decode_block(words: Seq<Word>) -> Result<Seq<Option<int>>, ErrorView> {
    if words.len() != NUMBER_OF_CHANNELS {
        Err(
            ErrorView::UnexpectedDataLength {
                expected: NUMBER_OF_CHANNELS as nat,
                got: words.len(),
            },
        )
    } else {
        Ok(decode_each(words))
    }
}

/// A block is decoded from exactly eight words: any other number of words,
/// seven and nine included, is refused with the expected and the actual
/// number, and eight words are decoded whatever they hold.
pub proof fn lemma_block_needs_eight_words(words: Seq<Word>)
    ensures
        decode_block(words) is Ok <==> words.len() == NUMBER_OF_CHANNELS,
        words.len() != NUMBER_OF_CHANNELS ==> decode_block(words) == Err::<
            Seq<Option<int>>,
            ErrorView,
        >(ErrorView::UnexpectedDataLength { expected: 8, got: words.len() }),
        decode_block(words) matches Ok(temperatures) ==> temperatures.len() == 8 && forall|i: int|
            0 <= i < 8 ==> #[trigger] temperatures[i] == Temperature::spec_decode(words[i]),
{
}

/// The text of a run of temperatures: each as by [`Temperature::spec_text`],
/// separated by a comma and a space.
pub open spec fn listing(temperatures: Seq<Option<int>>) -> Seq<char>
    decreases temperatures.len(),
{
    if temperatures.len() == 0 {
        Seq::empty()
    } else if temperatures.len() == 1 {
        Temperature::spec_text(temperatures[0])
    } else {
        listing(temperatures.drop_last()) + ", "@ + Temperature::spec_text(temperatures.last())
    }
}

/// The temperatures of a block as a sequence of their tenths.
pub open spec fn tenths_of(values: Seq<Temperature>) -> Seq<Option<int>> {
    Seq::new(values.len(), |i: int| values[i]@)
}

/// Decodes the eight words of a block, each as a temperature.
pub(crate) fn decode_channels(words: &[Word]) -> (values: [Temperature; NUMBER_OF_CHANNELS])
    requires
        words@.len() == NUMBER_OF_CHANNELS,
    ensures
        tenths_of(values@) == decode_each(words@),
{
    let mut values = [Temperature::nan(); NUMBER_OF_CHANNELS];
    let mut i: usize = 0;
    while i < NUMBER_OF_CHANNELS
        invariant
            i <= NUMBER_OF_CHANNELS,
            words@.len() == NUMBER_OF_CHANNELS,
            forall|k: int| 0 <= k < i ==> (#[trigger] values@[k])@ == Temperature::spec_decode(words@[k]),
        decreases NUMBER_OF_CHANNELS - i,
    {
        values[i] = Temperature::decode_from_holding_registers(words[i]);
        i = i + 1;
    }
    values
}

/// Renders the temperatures of a block, separated by a comma and a space.
pub(crate) fn channels_text(values: &[Temperature; NUMBER_OF_CHANNELS]) -> (text: String)
    ensures
        text@ == listing(tenths_of(values@)),
{
    let mut text = values[0].to_string();
    let mut i: usize = 1;
    while i < NUMBER_OF_CHANNELS
        invariant
            1 <= i <= NUMBER_OF_CHANNELS,
            text@ == listing(tenths_of(values@).take(i as int)),
        decreases NUMBER_OF_CHANNELS - i,
    {
        text.append(", ");
        let item = values[i].to_string();
        text.append(item.as_str());
        proof {
            let all = tenths_of(values@);
            assert(all.take(i + 1).drop_last() =~= all.take(i as int));
        }
        i = i + 1;
    }
    proof {
        assert(tenths_of(values@).take(NUMBER_OF_CHANNELS as int) =~= tenths_of(values@));
    }
    text
}

/// The temperature readings of the eight channels, by channel index.
#[derive(Debug, Clone, Copy, PartialEq, Eq)]
pub struct Temperatures {
    values: [Temperature; NUMBER_OF_CHANNELS],
}

impl View for Temperatures {
    type V = Seq<Option<int>>;

    /// The tenths of a degree of each channel, `None` for "not a number".
    closed spec fn view(&self) -> Seq<Option<int>> {
        tenths_of(self.values@)
    }
}

impl vstd::std_specs::core::IndexSpecImpl<usize> for Temperatures {
    open spec fn index_req(&self, index: &usize) -> bool {
        *index < NUMBER_OF_CHANNELS
    }
}

impl std::ops::Index<usize> for Temperatures {
    type Output = Temperature;

    /// The reading of the channel with the given index, which is below eight.
    fn index(&self, index: usize) -> (temperature: &Temperature)
        ensures
            temperature@ == self@[index as int],
    {
        &self.values[index]
    }
}

impl IntoIterator for Temperatures {
    type Item = Temperature;

    type IntoIter = std::vec::IntoIter<Temperature>;

    /// An iterator over the readings in channel order.
    fn into_iter(self) -> (readings: std::vec::IntoIter<Temperature>)
        ensures
            tenths_of(vstd::std_specs::vec::into_iter_elts(readings)) == self@,
    {
        let listed = vstd::slice::slice_to_vec(self.as_slice());
        let readings = listed.into_iter();
        proof {
            vstd::std_specs::vec::axiom_spec_into_iter(listed);
        }
        readings
    }
}

impl<'a> IntoIterator for &'a Temperatures {
    type Item = &'a Temperature;

    type IntoIter = std::slice::Iter<'a, Temperature>;

    /// An iterator over the readings in channel order.
    fn into_iter(self) -> (readings: std::slice::Iter<'a, Temperature>)
        ensures
            tenths_of(vstd::std_specs::slice::into_iter_elts(readings)) == self@,
    {
        self.iter()
    }
}

impl Temperatures {
    /// Register address of the first channel's reading.
    pub const ADDRESS: u16 = 0x0000;

    /// Number of registers the readings occupy.
    pub const QUANTITY: u16 = 8;

    /// Decodes the readings from the registers read at [`Temperatures::ADDRESS`].
    ///
    /// Exactly eight words are accepted; each is decoded on its own.
    pub fn decode_from_holding_registers(words: &[Word]) -> (r: Result<Self, Error>)
        ensures
            match r {
                Ok(temperatures) => decode_block(words@) == Ok::<Seq<Option<int>>, ErrorView>(
                    temperatures@,
                ),
                Err(error) => decode_block(words@) == Err::<Seq<Option<int>>, ErrorView>(error@),
            },
            r is Ok <==> words@.len() == NUMBER_OF_CHANNELS,
            r matches Ok(decoded) ==> decoded@.len() == NUMBER_OF_CHANNELS && forall|i: int|
                0 <= i < NUMBER_OF_CHANNELS ==> #[trigger] decoded@[i] == Temperature::spec_decode(
                    words@[i],
                ),
    {
        if words.len() != NUMBER_OF_CHANNELS {
            return Err(
                Error::UnexpectedDataLength { expected: NUMBER_OF_CHANNELS, got: words.len() },
            );
        }
        Ok(Temperatures { values: decode_channels(words) })
    }

    /// The reading of a channel.
    pub fn get(&self, channel: Channel) -> (temperature: Temperature)
        ensures
            temperature@ == self@[channel@],
    {
        let index: u8 = *channel;
        self.values[index as usize]
    }

    /// An iterator over the readings in channel order.
    pub fn iter(&self) -> (readings: std::slice::Iter<'_, Temperature>)
        ensures
            tenths_of(vstd::std_specs::slice::into_iter_elts(readings)) == self@,
    {
        let readings = self.values.iter();
        proof {
            vstd::std_specs::slice::axiom_spec_slice_iter(
                vstd::array::spec_array_as_slice(&self.values),
            );
        }
        readings
    }

    /// The readings in channel order.
    pub fn as_slice(&self) -> (readings: &[Temperature])
        ensures
            tenths_of(readings@) == self@,
            readings@.len() == NUMBER_OF_CHANNELS,
            forall|i: int| 0 <= i < NUMBER_OF_CHANNELS ==> (#[trigger] readings@[i])@ == self@[i],
    {
        &self.values
    }

    /// The readings in channel order.
    pub fn as_array(&self) -> (readings: &[Temperature; NUMBER_OF_CHANNELS])
        ensures
            tenths_of(readings@) == self@,
            forall|i: int| 0 <= i < NUMBER_OF_CHANNELS ==> (#[trigger] readings@[i])@ == self@[i],
    {
        &self.values
    }

    /// Renders the readings, separated by a comma and a space.
    pub fn to_string(&self) -> (text: String)
        ensures
            text@ == listing(self@),
    {
        channels_text(&self.values)
    }

    /// There are eight readings, each "not a number" or tenths in range.
    pub proof fn lemma_eight_readings(self)
        ensures
            self@.len() == NUMBER_OF_CHANNELS,
            forall|i: int|
                0 <= i < NUMBER_OF_CHANNELS ==> ((#[trigger] self@[i]) matches Some(tenths)
                    ==> Temperature::in_range(tenths)),
    {
        assert forall|i: int| 0 <= i < NUMBER_OF_CHANNELS implies ((#[trigger] self@[i]) matches Some(
            tenths,
        ) ==> Temperature::in_range(tenths)) by {
            self.values@[i].lemma_tenths_in_range();
        }
    }
}

} // verus!
