//! The silence a Modbus RTU line needs between two frames.

use crate::duration::{nanoseconds, NANOS_PER_MICRO};
use crate::protocol::baud_rate::BaudRate;
use std::time::Duration;
use vstd::prelude::*;

verus! {

/// Bit times of the silence between two frames: 3.5 characters of 11 bits
/// (start bit, eight data bits, parity or stop bit, stop bit), that is 38.5.
/// Held in microseconds per bit-per-second, so that the silence at a baud
/// rate is this number divided by the rate.
pub const SILENCE_MICROS_PER_BAUD: u64 = 38_500_000;

/// The shortest silence ever used, 1.75 ms, whatever the baud rate.
pub const PRACTICAL_MIN_INTER_FRAME_DELAY_MICROS: u64 = 1_750;

/// The recommended silence between two frames in microseconds: the time of
/// 3.5 characters at the baud rate, rounded down, but never below 1750.
pub open spec fn spec_minimum_rtu_delay_micros(baud_rate: BaudRate) -> int {
    let silence = SILENCE_MICROS_PER_BAUD as int / baud_rate.rate() as int;
    if silence < PRACTICAL_MIN_INTER_FRAME_DELAY_MICROS {
        PRACTICAL_MIN_INTER_FRAME_DELAY_MICROS as int
    } else {
        silence
    }
}

/// The delay in nanoseconds that is used when the caller asks for `wanted`
/// nanoseconds at a baud rate: the longer of that and the recommended
/// silence.
pub open spec fn spec_checked_delay_nanos(wanted: int, baud_rate: BaudRate) -> int {
    let least = spec_minimum_rtu_delay_micros(baud_rate) * NANOS_PER_MICRO;
    if wanted < least {
        least
    } else {
        wanted
    }
}

/// The recommended silence between two frames at a baud rate, in microseconds.
pub fn minimum_rtu_delay_micros(baud_rate: &BaudRate) -> (micros: u64)
    ensures
        micros == spec_minimum_rtu_delay_micros(*baud_rate),
        PRACTICAL_MIN_INTER_FRAME_DELAY_MICROS <= micros <= 32_083,
{
    let rate = baud_rate.bits_per_second() as u64;
    let silence = SILENCE_MICROS_PER_BAUD / rate;
    if silence < PRACTICAL_MIN_INTER_FRAME_DELAY_MICROS {
        PRACTICAL_MIN_INTER_FRAME_DELAY_MICROS
    } else {
        silence
    }
}

/// The recommended silence between two frames at a baud rate.
pub fn minimum_rtu_delay(baud_rate: &BaudRate) -> (delay: Duration)
    ensures
        nanoseconds(delay) == spec_minimum_rtu_delay_micros(*baud_rate) * NANOS_PER_MICRO,
{
    Duration::from_micros(minimum_rtu_delay_micros(baud_rate))
}

/// The delay to use when the caller asks for `user_delay`: that delay where
/// it is at least the recommended silence at the baud rate, else the
/// recommended silence.
pub fn check_rtu_delay(user_delay: Duration, baud_rate: &BaudRate) -> (delay: Duration)
    ensures
        nanoseconds(delay) == spec_checked_delay_nanos(nanoseconds(user_delay) as int, *baud_rate),
        nanoseconds(user_delay) >= spec_minimum_rtu_delay_micros(*baud_rate) * NANOS_PER_MICRO
            ==> delay == user_delay,
{
    let least = minimum_rtu_delay_micros(baud_rate);
    if user_delay.as_nanos() < (least as u128) * (NANOS_PER_MICRO as u128) {
        Duration::from_micros(least)
    } else {
        user_delay
    }
}

/// The recommended silence at each of the five baud rates, in microseconds.
pub proof fn lemma_silence_at_each_rate()
    ensures
        spec_minimum_rtu_delay_micros(BaudRate::B1200) == 32_083,
        spec_minimum_rtu_delay_micros(BaudRate::B2400) == 16_041,
        spec_minimum_rtu_delay_micros(BaudRate::B4800) == 8_020,
        spec_minimum_rtu_delay_micros(BaudRate::B9600) == 4_010,
        spec_minimum_rtu_delay_micros(BaudRate::B19200) == 2_005,
{
    assert(38_500_000int / 1200 == 32_083) by (nonlinear_arith);
    assert(38_500_000int / 2400 == 16_041) by (nonlinear_arith);
    assert(38_500_000int / 4800 == 8_020) by (nonlinear_arith);
    assert(38_500_000int / 9600 == 4_010) by (nonlinear_arith);
    assert(38_500_000int / 19200 == 2_005) by (nonlinear_arith);
}

/// The faster the line, the shorter the recommended silence; it never falls
/// below the practical minimum.
pub proof fn lemma_silence_shrinks_with_rate(slow: BaudRate, fast: BaudRate)
    requires
        slow.rate() <= fast.rate(),
    ensures
        spec_minimum_rtu_delay_micros(fast) <= spec_minimum_rtu_delay_micros(slow),
        spec_minimum_rtu_delay_micros(fast) >= PRACTICAL_MIN_INTER_FRAME_DELAY_MICROS,
{
}

/// The checked delay is never shorter than what was asked for, never shorter
/// than the recommended silence, and checking it again changes nothing.
pub proof fn lemma_checked_delay(wanted: int, baud_rate: BaudRate)
    ensures
        spec_checked_delay_nanos(wanted, baud_rate) >= wanted,
        spec_checked_delay_nanos(wanted, baud_rate) >= spec_minimum_rtu_delay_micros(baud_rate)
            * NANOS_PER_MICRO,
        spec_checked_delay_nanos(spec_checked_delay_nanos(wanted, baud_rate), baud_rate)
            == spec_checked_delay_nanos(wanted, baud_rate),
{
}

} // verus!
