use rping::initial_budget_micros;
use rping::unicast_step;
use rping::EchoRequest;
use rping::IpAddress;
use rping::MatchStep;
use rping::Received;
use rping::RunStatistics;

fn reply_bytes(msg_type: u8, identifier: u16, sequence: u16) -> Vec<u8> {
    vec![
        msg_type,
        0,
        0,
        0,
        (identifier >> 8) as u8,
        (identifier & 0xFF) as u8,
        (sequence >> 8) as u8,
        (sequence & 0xFF) as u8,
    ]
}

fn from_host(bytes: Vec<u8>) -> Option<Received> {
    Some(Received {
        bytes,
        source: IpAddress::V4 { a: 192, b: 168, c: 0, d: 1 },
    })
}

#[test]
fn matched_round_reports_duration_and_counts_once() {
    let req = EchoRequest { identifier: 7, sequence: 3, payload_size: 56 };
    let step = unicast_step(true, &req, 3_000_000, from_host(reply_bytes(0, 7, 3)), 421);
    match step {
        MatchStep::Matched { elapsed_micros } => assert_eq!(elapsed_micros, 421),
        other => panic!("expected a match, got {:?}", other),
    }
    let mut stats = RunStatistics::new();
    stats.record_round(true);
    assert_eq!(stats.received, 1);
    assert_eq!(stats.transmitted, 1);
}

#[test]
fn foreign_sequence_is_fatal() {
    let req = EchoRequest { identifier: 7, sequence: 3, payload_size: 56 };
    let step = unicast_step(true, &req, 3_000_000, from_host(reply_bytes(0, 7, 4)), 421);
    assert_eq!(step, MatchStep::ProtocolError);
}

#[test]
fn foreign_identifier_is_fatal() {
    let req = EchoRequest { identifier: 7, sequence: 3, payload_size: 56 };
    let step = unicast_step(true, &req, 3_000_000, from_host(reply_bytes(0, 8, 3)), 421);
    assert_eq!(step, MatchStep::ProtocolError);
}

#[test]
fn timeout_without_reply_is_no_answer() {
    let req = EchoRequest { identifier: 7, sequence: 0, payload_size: 56 };
    let budget = initial_budget_micros(1);
    assert_eq!(budget, 1_000_000);
    // the bounded receive returned empty after about a second
    let step = unicast_step(true, &req, budget, None, 1_000_120);
    assert_eq!(step, MatchStep::NoAnswer);
    let mut stats = RunStatistics::new();
    stats.record_round(false);
    assert_eq!(stats.received, 0);
    assert_eq!(stats.transmitted, 1);
}

#[test]
fn stray_packet_shrinks_budget() {
    let req = EchoRequest { identifier: 7, sequence: 3, payload_size: 56 };
    // an echo request of our own family is not a reply: keep waiting
    let step = unicast_step(true, &req, 1_000, from_host(reply_bytes(8, 7, 3)), 300);
    assert_eq!(step, MatchStep::Waiting { budget_micros: 700 });
}

#[test]
fn stray_packet_after_budget_is_no_answer() {
    let req = EchoRequest { identifier: 7, sequence: 3, payload_size: 56 };
    let step = unicast_step(true, &req, 1_000, from_host(reply_bytes(8, 7, 3)), 1_001);
    assert_eq!(step, MatchStep::NoAnswer);
}

#[test]
fn v6_reply_matches_without_comparison() {
    let req = EchoRequest { identifier: 7, sequence: 3, payload_size: 56 };
    // a v6 reply with foreign identifier and sequence is still accepted
    let step = unicast_step(false, &req, 1_000, from_host(reply_bytes(129, 9, 9)), 50);
    assert_eq!(step, MatchStep::Matched { elapsed_micros: 50 });
}
