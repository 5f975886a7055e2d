//! The run configuration and the plain data it is made of.

use vstd::prelude::*;

verus! {

/// An IP address as plain numbers: the four octets of an IPv4 address, or
/// the 128 bits of an IPv6 address as two 64-bit halves, network order.
#[derive(PartialEq, Eq, Structural, Clone, Copy, Debug)]
pub enum IpAddress {
    V4 { a: u8, b: u8, c: u8, d: u8 },
    V6 { hi: u64, lo: u64 },
}

impl IpAddress {
    /// Whether this is an IPv4 address.
    pub fn is_v4(&self) -> (r: bool)
        ensures
            r == (self is V4),
    {
        match self {
            IpAddress::V4 { .. } => true,
            IpAddress::V6 { .. } => false,
        }
    }
}

/// One run's settings, created once from external input and never mutated.
///
/// Durations are plain integers: the interval between rounds in
/// microseconds, the per-round timeout in whole seconds.
#[derive(Clone, Copy, Debug)]
pub struct Config {
    /// Where the echo requests go.
    pub destination: IpAddress,
    /// How many rounds to run; zero means unbounded.
    pub count: u16,
    /// Microseconds between the starts of consecutive rounds.
    pub interval_micros: u64,
    /// Suppress the per-round lines, keep only the summary.
    pub quiet: bool,
    /// Payload bytes carried by each request.
    pub packet_size: usize,
    /// Outbound IP hop limit (IPv4 only).
    pub ttl: u8,
    /// Seconds each round waits for a reply.
    pub timeout_secs: u8,
    /// Whether one request may elicit many replies, one per responder.
    pub broadcast: bool,
}

impl Config {
    /// Assembles a configuration from its parts.
    pub fn new(
        destination: IpAddress,
        count: u16,
        interval_micros: u64,
        quiet: bool,
        packet_size: usize,
        ttl: u8,
        timeout_secs: u8,
        broadcast: bool,
    ) -> (r: Option<Config>)
        ensures
            r == Some(
                (Config {
                    destination,
                    count,
                    interval_micros,
                    quiet,
                    packet_size,
                    ttl,
                    timeout_secs,
                    broadcast,
                }),
            ),
    {
        Some(
            Config {
                destination,
                count,
                interval_micros,
                quiet,
                packet_size,
                ttl,
                timeout_secs,
                broadcast,
            },
        )
    }
}

/// The echo identifier of this process: its numeric identity truncated to
/// 16 bits, held constant across all rounds.
pub fn derive_identifier(process_id: u32) -> (r: u16)
    ensures
        r as int == process_id as int % 0x10000,
{
    (process_id % 0x10000) as u16
}

/// The receive budget a round starts with, in microseconds.
pub fn initial_budget_micros(timeout_secs: u8) -> (r: u64)
    ensures
        r as int == timeout_secs as int * 1_000_000,
{
    timeout_secs as u64 * 1_000_000
}

/// The interval between rounds in microseconds, from the whole seconds the
/// command line gives; an interval too large for the counter saturates.
pub fn interval_micros_from_secs(interval_secs: u64) -> (r: u64)
    ensures
        r as int == if interval_secs * 1_000_000 <= u64::MAX {
            interval_secs * 1_000_000
        } else {
            u64::MAX as int
        },
{
    if interval_secs <= u64::MAX / 1_000_000 {
        interval_secs * 1_000_000
    } else {
        u64::MAX
    }
}

} // verus!
