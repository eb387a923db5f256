//! The search for a module on a serial line whose settings are not known.
//!
//! The caller asks for the device address at one baud rate after another,
//! each time through the broadcast address, and reports what came back; the
//! functions here decide which baud rate is next and when the search ends.

use crate::protocol::address::Address;
use crate::protocol::baud_rate::BaudRate;
use vstd::prelude::*;

verus! {

/// The state of a search.
#[derive(Debug, Clone, Copy, PartialEq, Eq, Structural)]
pub enum ScanStep {
    /// Ask for the device address at this baud rate.
    Probe(BaudRate),
    /// A device answered at this baud rate, with this address.
    Found { address: Address, baud_rate: BaudRate },
    /// No device answered at any baud rate.
    NotFound,
}

impl ScanStep {
    /// The baud rate tried first: the fastest.
    pub open spec fn spec_first() -> BaudRate {
        BaudRate::B19200
    }

    /// The baud rate tried after `baud_rate`: the next slower one, if there is one.
    pub open spec fn spec_following(baud_rate: BaudRate) -> Option<BaudRate> {
        match baud_rate {
            BaudRate::B19200 => Some(BaudRate::B9600),
            BaudRate::B9600 => Some(BaudRate::B4800),
            BaudRate::B4800 => Some(BaudRate::B2400),
            BaudRate::B2400 => Some(BaudRate::B1200),
            BaudRate::B1200 => None,
        }
    }

    /// The number of baud rates tried before `baud_rate`.
    pub open spec fn spec_position(baud_rate: BaudRate) -> nat {
        match baud_rate {
            BaudRate::B19200 => 0,
            BaudRate::B9600 => 1,
            BaudRate::B4800 => 2,
            BaudRate::B2400 => 3,
            BaudRate::B1200 => 4,
        }
    }

    /// The state that follows when `answer` came back from the probe of this
    /// state: found with the first answer, else the next baud rate, else not
    /// found. A search that has ended stays as it is.
    pub open spec fn spec_next(self, answer: Option<Address>) -> ScanStep {
        match self {
            ScanStep::Probe(baud_rate) => match answer {
                Some(address) => ScanStep::Found { address, baud_rate },
                None => match Self::spec_following(baud_rate) {
                    Some(slower) => ScanStep::Probe(slower),
                    None => ScanStep::NotFound,
                },
            },
            _ => self,
        }
    }

    /// The state after `count` probes in a row, from this state on, that no
    /// device answered.
    pub open spec fn spec_after_silence(self, count: nat) -> ScanStep
        decreases count,
    {
        if count == 0 {
            self
        } else {
            self.spec_next(None).spec_after_silence((count - 1) as nat)
        }
    }

    /// The state a search starts in: a probe at the fastest baud rate.
    pub fn start() -> (step: ScanStep)
        ensures
            step == ScanStep::Probe(Self::spec_first()),
    {
        ScanStep::Probe(BaudRate::B19200)
    }

    /// The state that follows when `answer` came back from the probe of this state.
    pub fn next(self, answer: Option<Address>) -> (step: ScanStep)
        ensures
            step == self.spec_next(answer),
    {
        match self {
            ScanStep::Probe(baud_rate) => match answer {
                Some(address) => ScanStep::Found { address, baud_rate },
                None => match baud_rate {
                    BaudRate::B19200 => ScanStep::Probe(BaudRate::B9600),
                    BaudRate::B9600 => ScanStep::Probe(BaudRate::B4800),
                    BaudRate::B4800 => ScanStep::Probe(BaudRate::B2400),
                    BaudRate::B2400 => ScanStep::Probe(BaudRate::B1200),
                    BaudRate::B1200 => ScanStep::NotFound,
                },
            },
            _ => self,
        }
    }

    /// The search tries every baud rate once, from the fastest to the
    /// slowest: the positions count up by one, no two baud rates share one,
    /// and each next baud rate is slower.
    pub proof fn lemma_order_covers_all_rates(a: BaudRate, b: BaudRate)
        ensures
            Self::spec_position(Self::spec_first()) == 0,
            Self::spec_position(a) <= 4,
            Self::spec_position(a) == Self::spec_position(b) <==> a == b,
            Self::spec_following(a) is None <==> Self::spec_position(a) == 4,
            Self::spec_following(a) matches Some(slower) ==> Self::spec_position(slower)
                == Self::spec_position(a) + 1 && slower.rate() < a.rate(),
    {
    }

    /// A search that no device answers probes `baud_rate` after exactly as
    /// many failed probes as its position says, and ends as not found after
    /// five.
    pub proof fn lemma_silent_search(baud_rate: BaudRate)
        ensures
            ScanStep::Probe(Self::spec_first()).spec_after_silence(Self::spec_position(baud_rate))
                == ScanStep::Probe(baud_rate),
            ScanStep::Probe(Self::spec_first()).spec_after_silence(5) == ScanStep::NotFound,
    {
        reveal_with_fuel(ScanStep::spec_after_silence, 6);
    }

    /// A search ends as found exactly when a probe was answered, and then
    /// holds that answer and the baud rate of that probe.
    pub proof fn lemma_found_holds_the_answer(baud_rate: BaudRate, answer: Option<Address>)
        ensures
            ScanStep::Probe(baud_rate).spec_next(answer) is Found <==> answer is Some,
            answer matches Some(address) ==> ScanStep::Probe(baud_rate).spec_next(answer)
                == (ScanStep::Found { address, baud_rate }),
    {
    }
}

/// The address to send a command to on a serial line: the broadcast address
/// for the query of the device address, whatever address is configured, and
/// the configured address for every other command.
pub fn target_address(configured: Address, query_address: bool) -> (target: Address)
    ensures
        query_address ==> target@ == 255,
        !query_address ==> target == configured,
{
    if query_address {
        Address::broadcast()
    } else {
        configured
    }
}

} // verus!
