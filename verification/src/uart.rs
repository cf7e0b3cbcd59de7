//! UART / serial port configuration: data bits, parity, stop bits, baud
//! rate and timeout.
use vstd::prelude::*;

use core::time::Duration;

verus! {

/// Number of data bits per character.
#[derive(Debug, Clone, Copy, PartialEq, Eq, Structural)]
pub enum DataBits {
    /// Five data bits.
    Five,
    /// Six data bits.
    Six,
    /// Seven data bits.
    Seven,
    /// Eight data bits.
    Eight,
}

/// Parity checking mode.
#[derive(Debug, Clone, Copy, PartialEq, Eq, Structural)]
pub enum Parity {
    /// No parity bit.
    NoParity,
    /// Odd parity.
    Odd,
    /// Even parity.
    Even,
}

/// Number of stop bits.
#[derive(Debug, Clone, Copy, PartialEq, Eq, Structural)]
pub enum StopBits {
    /// One stop bit.
    One,
    /// Two stop bits.
    Two,
}

/// The duration `Duration::from_millis(ms)` makes.
pub uninterp spec fn duration_from_millis(ms: u64) -> Duration;

/// `Duration::from_millis`: the result is named `duration_from_millis(ms)`.
#[verifier::external_body]
fn millis(ms: u64) -> (d: Duration)
    ensures
        d == duration_from_millis(ms),
{
    Duration::from_millis(ms)
}

/// `Clone` of a `Duration`, which is `Copy`: the clone is the same duration.
pub assume_specification[ <Duration as Clone>::clone ](d: &Duration) -> (r: Duration)
    ensures
        r == *d,
;

/// Configuration for a UART serial port connection.
#[derive(Debug, Clone, PartialEq, Eq)]
pub struct UartConfig {
    /// Baud rate in bits per second.
    pub baud_rate: u32,
    /// Number of data bits per character.
    pub data_bits: DataBits,
    /// Parity checking mode.
    pub parity: Parity,
    /// Number of stop bits.
    pub stop_bits: StopBits,
    /// Read/write timeout.
    pub timeout: Duration,
}

impl Default for UartConfig {
    /// 115 200 baud, 8 data bits, no parity, 1 stop bit, 1 000 ms timeout.
    fn default() -> (c: Self)
        ensures
            c.baud_rate == 115_200,
            c.data_bits == DataBits::Eight,
            c.parity == Parity::NoParity,
            c.stop_bits == StopBits::One,
            c.timeout == duration_from_millis(1000),
    {
        UartConfig {
            baud_rate: 115_200,
            data_bits: DataBits::Eight,
            parity: Parity::NoParity,
            stop_bits: StopBits::One,
            timeout: millis(1000),
        }
    }
}

} // verus!
