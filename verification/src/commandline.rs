//! Parsing of command-line values into typed register values.
//!
//! The text of a number is read by `clap_num::maybe_hex` (decimal, or
//! hexadecimal after `0x`) or by the standard library's `u16` parser. What
//! they make of a text has a name here; what is made of their result is
//! verified.

use crate::protocol::address::Address;
use crate::protocol::automatic_report::AutomaticReport;
use crate::protocol::baud_rate::BaudRate;
use crate::protocol::channel::Channel;
use vstd::prelude::*;
use vstd::string::StringExecFns;

verus! {

/// What `clap_num::maybe_hex::<u8>` returns for a text: the number, or the
/// reason why the text is none.
pub uninterp spec fn maybe_hex_u8(text: Seq<char>) -> Result<u8, Seq<char>>;

/// What `str::parse::<u16>` returns for a text: the number, or the text of
/// the parse error.
pub uninterp spec fn decimal_u16(text: Seq<char>) -> Result<u16, Seq<char>>;

/// A result with its message, if it holds one, as a sequence of characters.
pub open spec fn with_reason<T>(r: Result<T, String>) -> Result<T, Seq<char>> {
    match r {
        Ok(value) => Ok(value),
        Err(reason) => Err(reason@),
    }
}

/// Calls `clap_num::maybe_hex::<u8>`, which reads a `u8` written in decimal
/// or, after `0x` or `0X`, in hexadecimal, and gives a message for any other
/// text. The contract names the result and claims nothing else of it.
#[verifier::external_body]
fn maybe_hex(text: &str) -> (r: Result<u8, String>)
    ensures
        with_reason(r) == maybe_hex_u8(text@),
{
    clap_num::maybe_hex::<u8>(text)
}

/// Calls `str::parse::<u16>` and renders its error with `Display`. The
/// contract names the result and claims nothing else of it.
#[verifier::external_body]
fn parse_u16(text: &str) -> (r: Result<u16, String>)
    ensures
        with_reason(r) == decimal_u16(text@),
{
    match text.parse::<u16>() {
        Ok(number) => Ok(number),
        Err(error) => Err(format!("{error}")),
    }
}

/// What a channel argument is, given what the number parser made of its text.
pub open spec fn spec_channel(number: Result<u8, Seq<char>>) -> Result<Channel, Seq<char>> {
    match number {
        Ok(value) => match Channel::spec_try_from(value) {
            Ok(channel) => Ok(channel),
            Err(error) => Err(error.message()),
        },
        Err(reason) => Err("Invalid channel number format: "@ + reason),
    }
}

/// What an address argument is, given what the number parser made of its text.
pub open spec fn spec_address(number: Result<u8, Seq<char>>) -> Result<Address, Seq<char>> {
    match number {
        Ok(value) => match Address::spec_try_from(value) {
            Ok(address) => Ok(address),
            Err(error) => Err(error.message()),
        },
        Err(reason) => Err("Invalid address format: "@ + reason),
    }
}

/// What a report-interval argument is, given what the number parser made of its text.
pub open spec fn spec_automatic_report(number: Result<u8, Seq<char>>) -> Result<
    AutomaticReport,
    Seq<char>,
> {
    match number {
        Ok(value) => Ok(AutomaticReport::of_seconds(value)),
        Err(reason) => Err("Invalid automatic report time format: "@ + reason),
    }
}

/// What a baud-rate argument is, given what the number parser made of its text.
pub open spec fn spec_baud_rate(number: Result<u16, Seq<char>>) -> Result<BaudRate, Seq<char>> {
    match number {
        Ok(value) => match BaudRate::spec_try_from(value) {
            Ok(baud_rate) => Ok(baud_rate),
            Err(error) => Err(error.message()),
        },
        Err(reason) => Err("Invalid baud rate number format: "@ + reason),
    }
}

/// The text `prefix` followed by `reason`.
fn prefixed(prefix: &str, reason: &String) -> (text: String)
    ensures
        text@ == prefix@ + reason@,
{
    let mut text = String::from_str(prefix);
    text.append(reason.as_str());
    text
}

/// The channel of a parsed number: the number must be a channel index, and a
/// text that was no number is reported as a format error.
pub fn channel_from_number(number: Result<u8, String>) -> (r: Result<Channel, String>)
    ensures
        with_reason(r) == spec_channel(with_reason(number)),
{
    match number {
        Ok(value) => match Channel::try_from(value) {
            Ok(channel) => Ok(channel),
            Err(error) => Err(error.to_string()),
        },
        Err(reason) => Err(prefixed("Invalid channel number format: ", &reason)),
    }
}

/// The address of a parsed number: the number must be assignable, and a text
/// that was no number is reported as a format error.
pub fn address_from_number(number: Result<u8, String>) -> (r: Result<Address, String>)
    ensures
        with_reason(r) == spec_address(with_reason(number)),
{
    match number {
        Ok(value) => match Address::try_from(value) {
            Ok(address) => Ok(address),
            Err(error) => Err(error.to_string()),
        },
        Err(reason) => Err(prefixed("Invalid address format: ", &reason)),
    }
}

/// The report interval of a parsed number of seconds; a text that was no
/// number is reported as a format error.
pub fn automatic_report_from_number(number: Result<u8, String>) -> (r: Result<
    AutomaticReport,
    String,
>)
    ensures
        with_reason(r) == spec_automatic_report(with_reason(number)),
{
    match number {
        Ok(value) => {
            let report = AutomaticReport::from(value);
            proof {
                AutomaticReport::lemma_seconds_determine_interval(
                    report,
                    AutomaticReport::of_seconds(value),
                );
            }
            Ok(report)
        },
        Err(reason) => Err(prefixed("Invalid automatic report time format: ", &reason)),
    }
}

/// The baud rate of a parsed number: the number must be a supported rate,
/// and a text that was no number is reported as a format error.
pub fn baud_rate_from_number(number: Result<u16, String>) -> (r: Result<BaudRate, String>)
    ensures
        with_reason(r) == spec_baud_rate(with_reason(number)),
{
    match number {
        Ok(value) => match BaudRate::try_from(value) {
            Ok(baud_rate) => Ok(baud_rate),
            Err(error) => Err(error.to_string()),
        },
        Err(reason) => Err(prefixed("Invalid baud rate number format: ", &reason)),
    }
}

/// Parses a channel index, decimal or hexadecimal.
pub fn parse_channel(s: &str) -> (r: Result<Channel, String>)
    ensures
        with_reason(r) == spec_channel(maybe_hex_u8(s@)),
{
    channel_from_number(maybe_hex(s))
}

/// Parses an assignable device address, decimal or hexadecimal.
pub fn parse_address(s: &str) -> (r: Result<Address, String>)
    ensures
        with_reason(r) == spec_address(maybe_hex_u8(s@)),
{
    address_from_number(maybe_hex(s))
}

/// Parses a report interval in seconds, decimal or hexadecimal.
pub fn parse_automatic_report(s: &str) -> (r: Result<AutomaticReport, String>)
    ensures
        with_reason(r) == spec_automatic_report(maybe_hex_u8(s@)),
{
    automatic_report_from_number(maybe_hex(s))
}

/// Parses a baud rate given in bits per second.
pub fn parse_baud_rate(s: &str) -> (r: Result<BaudRate, String>)
    ensures
        with_reason(r) == spec_baud_rate(decimal_u16(s@)),
{
    baud_rate_from_number(parse_u16(s))
}

/// No text is parsed into the broadcast address, and whatever text is parsed
/// into an address or a channel names a number in its range.
pub proof fn lemma_parsed_values_are_in_range(number: Result<u8, Seq<char>>)
    ensures
        spec_address(number) matches Ok(address) ==> Address::assignable(address@),
        spec_channel(number) matches Ok(channel) ==> Channel::in_range(channel@),
{
    if let Ok(value) = number {
        Address::lemma_numbered(value);
        Channel::lemma_numbered(value);
    }
}

} // verus!
