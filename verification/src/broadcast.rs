//! One broadcast round: one request, many possible repliers.
//!
//! A broadcast round sends a single IPv4 request and then collects replies
//! until its budget runs out. Every reply that carries the sent identifier
//! and sequence is reported at once — distinct responders to one broadcast
//! are expected, so none is a duplicate — and the round keeps listening on
//! whatever budget is left. The loop that owns the channel lives outside
//! this library and obeys the step it gets back, as the unicast loop does.

use vstd::prelude::*;
use crate::codec::parse_reply;
use crate::codec::parse_reply_spec;
use crate::codec::EchoRequest;
use crate::codec::ParsedReply;
use crate::config::IpAddress;
use crate::matcher::Received;

verus! {

/// One accepted echo reply: the values it carried, who sent it, and how
/// long after the request it arrived.
#[derive(PartialEq, Eq, Structural, Clone, Copy, Debug)]
pub struct EchoReply {
    pub identifier: u16,
    pub sequence: u16,
    pub source: IpAddress,
    pub elapsed_micros: u64,
}

/// The step a broadcast round takes after one receive attempt: a reply to
/// report, if the packet matched, and the budget for the next receive —
/// none when the round is over.
#[derive(PartialEq, Eq, Structural, Clone, Copy, Debug)]
pub struct BroadcastStep {
    pub report: Option<EchoReply>,
    pub next_budget_micros: Option<u64>,
}

/// The decision after one receive attempt of a broadcast round.
///
/// Nothing received means the bounded receive itself timed out: the round
/// is over. An IPv4 echo reply carrying the sent identifier and sequence
/// is reported with the elapsed time; any other packet is ignored. Either
/// way, if more time has elapsed than the budget held the round is over,
/// else the elapsed time is taken out of the budget and the round listens
/// again.
pub open spec fn broadcast_step_spec(
    identifier: u16,
    sequence: u16,
    budget_micros: u64,
    received: Option<Received>,
    elapsed_micros: u64,
) -> BroadcastStep {
    match received {
        None => BroadcastStep { report: None, next_budget_micros: None },
        Some(rc) => {
            let report = match parse_reply_spec(true, rc.bytes@) {
                Some(ParsedReply::V4 { identifier: id, sequence: sq }) => {
                    if id == identifier && sq == sequence {
                        Some(EchoReply { identifier: id, sequence: sq, source: rc.source, elapsed_micros })
                    } else {
                        None
                    }
                },
                _ => None,
            };
            let next = if elapsed_micros > budget_micros {
                None
            } else {
                Some((budget_micros - elapsed_micros) as u64)
            };
            BroadcastStep { report, next_budget_micros: next }
        },
    }
}

/// Decides one receive attempt of a broadcast round; see
/// [`broadcast_step_spec`]. Broadcast rounds are IPv4 only.
pub fn broadcast_step(
    request: &EchoRequest,
    budget_micros: u64,
    received: Option<Received>,
    elapsed_micros: u64,
) -> (r: BroadcastStep)
    ensures
        r == broadcast_step_spec(
            request.identifier,
            request.sequence,
            budget_micros,
            received,
            elapsed_micros,
        ),
{
    match received {
        None => BroadcastStep { report: None, next_budget_micros: None },
        Some(rc) => {
            let report = match parse_reply(true, &rc.bytes) {
                Some(ParsedReply::V4 { identifier, sequence }) => {
                    if identifier == request.identifier && sequence == request.sequence {
                        Some(
                            EchoReply {
                                identifier,
                                sequence,
                                source: rc.source,
                                elapsed_micros,
                            },
                        )
                    } else {
                        None
                    }
                },
                _ => None,
            };
            let next = if elapsed_micros > budget_micros {
                None
            } else {
                Some(budget_micros - elapsed_micros)
            };
            BroadcastStep { report, next_budget_micros: next }
        },
    }
}

} // verus!
