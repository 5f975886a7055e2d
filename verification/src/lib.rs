//! A verified ICMP/ICMPv6 echo ("ping") engine.
//!
//! The library holds everything about an echo run that is pure logic: how
//! request messages are built and replies parsed, how a reply is matched
//! against what was sent, how rounds are counted, paced and summarized. The
//! raw sockets, clocks, threads and printing that carry a real run belong to
//! the program around the library, which feeds every outcome through the
//! step functions here and obeys what they decide.

pub mod broadcast;
pub mod checksum;
pub mod codec;
pub mod config;
pub mod matcher;
pub mod scheduler;

pub use checksum::rfc1071_checksum;
pub use codec::build_echo_request;
pub use codec::parse_reply;
pub use codec::EchoRequest;
pub use codec::ParsedReply;
pub use codec::HEADER_BYTES;
pub use codec::MAX_PAYLOAD;
pub use config::derive_identifier;
pub use config::initial_budget_micros;
pub use config::interval_micros_from_secs;
pub use config::Config;
pub use config::IpAddress;
pub use matcher::unicast_step;
pub use matcher::MatchStep;
pub use matcher::Received;
pub use broadcast::broadcast_step;
pub use broadcast::BroadcastStep;
pub use broadcast::EchoReply;
pub use scheduler::loss_share;
pub use scheduler::sleep_budget_micros;
pub use scheduler::RunStatistics;
pub use scheduler::RunSummary;
