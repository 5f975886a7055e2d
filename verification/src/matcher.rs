//! One unicast request/response exchange.
//!
//! A round sends one request and then loops over bounded receives. Each
//! receive attempt ends in one packet or in nothing, and the decision what
//! to do next is pure: it depends only on the packet bytes, the sent
//! identifier and sequence, the remaining budget and the time elapsed since
//! the round began. The loop that performs the receives lives with the
//! channel, outside this library; it feeds every outcome through
//! [`unicast_step`] and obeys the step it gets back.

use vstd::prelude::*;
use crate::codec::parse_reply;
use crate::codec::parse_reply_spec;
use crate::codec::EchoRequest;
use crate::codec::ParsedReply;
use crate::config::IpAddress;

verus! {

/// What one bounded receive produced: the bytes of an ICMP message and the
/// address it came from.
pub struct Received {
    pub bytes: Vec<u8>,
    pub source: IpAddress,
}

/// The step a round takes after one receive attempt.
#[derive(PartialEq, Eq, Structural, Clone, Copy, Debug)]
pub enum MatchStep {
    /// The reply belongs to this round; the round is over, with this
    /// round-trip time.
    Matched { elapsed_micros: u64 },
    /// The packet was not an echo reply; keep receiving on the remaining
    /// budget.
    Waiting { budget_micros: u64 },
    /// Nothing arrived in time, or the budget ran out: the round reports no
    /// answer and the run continues.
    NoAnswer,
    /// An IPv4 echo reply carried a foreign identifier or sequence number:
    /// this design escalates that to a fatal, run-terminating condition.
    ProtocolError,
}

/// The bytes of a receive outcome, the empty outcome kept empty.
pub open spec fn packet_view(received: Option<Received>) -> Option<Seq<u8>> {
    match received {
        Some(rc) => Some(rc.bytes@),
        None => None,
    }
}

/// The decision after one receive attempt of a unicast round.
///
/// Nothing received means the bounded receive itself timed out: no answer.
/// An IPv4 echo reply must carry the identifier and sequence that were
/// sent; a foreign one is the fatal protocol anomaly. An IPv6 echo reply is
/// accepted without that comparison. Any other packet leaves the round
/// waiting: if more time has elapsed than the budget held, the round is
/// over with no answer, else the elapsed time is taken out of the budget
/// and the round receives again.
pub open spec fn unicast_step_spec(
    v4: bool,
    identifier: u16,
    sequence: u16,
    budget_micros: u64,
    packet: Option<Seq<u8>>,
    elapsed_micros: u64,
) -> MatchStep {
    match packet {
        None => MatchStep::NoAnswer,
        Some(bytes) => match parse_reply_spec(v4, bytes) {
            Some(ParsedReply::V4 { identifier: id, sequence: sq }) => {
                if id == identifier && sq == sequence {
                    MatchStep::Matched { elapsed_micros }
                } else {
                    MatchStep::ProtocolError
                }
            },
            Some(ParsedReply::V6) => MatchStep::Matched { elapsed_micros },
            None => {
                if elapsed_micros > budget_micros {
                    MatchStep::NoAnswer
                } else {
                    MatchStep::Waiting { budget_micros: (budget_micros - elapsed_micros) as u64 }
                }
            },
        },
    }
}

/// Decides one receive attempt of a unicast round; see [`unicast_step_spec`].
pub fn unicast_step(
    v4: bool,
    request: &EchoRequest,
    budget_micros: u64,
    received: Option<Received>,
    elapsed_micros: u64,
) -> (r: MatchStep)
    ensures
        r == unicast_step_spec(
            v4,
            request.identifier,
            request.sequence,
            budget_micros,
            packet_view(received),
            elapsed_micros,
        ),
{
    match received {
        None => MatchStep::NoAnswer,
        Some(rc) => match parse_reply(v4, &rc.bytes) {
            Some(ParsedReply::V4 { identifier, sequence }) => {
                if identifier == request.identifier && sequence == request.sequence {
                    MatchStep::Matched { elapsed_micros }
                } else {
                    MatchStep::ProtocolError
                }
            },
            Some(ParsedReply::V6) => MatchStep::Matched { elapsed_micros },
            None => {
                if elapsed_micros > budget_micros {
                    MatchStep::NoAnswer
                } else {
                    MatchStep::Waiting { budget_micros: budget_micros - elapsed_micros }
                }
            },
        },
    }
}

/// A reply that carries the identifier and sequence of the sent request
/// ends the round matched, with the elapsed time as its round-trip time —
/// a non-negative duration by type alone.
pub proof fn lemma_matched_reply(
    identifier: u16,
    sequence: u16,
    budget_micros: u64,
    bytes: Seq<u8>,
    elapsed_micros: u64,
)
    requires
        parse_reply_spec(true, bytes) == Some(ParsedReply::V4 { identifier, sequence }),
    ensures
        unicast_step_spec(true, identifier, sequence, budget_micros, Some(bytes), elapsed_micros)
            == (MatchStep::Matched { elapsed_micros }),
{
}

/// An IPv4 echo reply whose identifier or sequence differs from the sent
/// request takes the fatal protocol-anomaly path, whatever the budget and
/// elapsed time.
pub proof fn lemma_foreign_reply_is_fatal(
    identifier: u16,
    sequence: u16,
    budget_micros: u64,
    bytes: Seq<u8>,
    elapsed_micros: u64,
    reply_identifier: u16,
    reply_sequence: u16,
)
    requires
        parse_reply_spec(true, bytes) == Some(
            ParsedReply::V4 { identifier: reply_identifier, sequence: reply_sequence },
        ),
        reply_identifier != identifier || reply_sequence != sequence,
    ensures
        unicast_step_spec(true, identifier, sequence, budget_micros, Some(bytes), elapsed_micros)
            == MatchStep::ProtocolError,
{
}

} // verus!
