use rping::broadcast_step;
use rping::EchoRequest;
use rping::IpAddress;
use rping::Received;

fn reply_bytes(msg_type: u8, identifier: u16, sequence: u16) -> Vec<u8> {
    vec![
        msg_type,
        0,
        0,
        0,
        (identifier >> 8) as u8,
        (identifier & 0xFF) as u8,
        (sequence >> 8) as u8,
        (sequence & 0xFF) as u8,
    ]
}

fn responder(d: u8) -> IpAddress {
    IpAddress::V4 { a: 10, b: 0, c: 0, d }
}

#[test]
fn one_send_three_responders_three_reports() {
    let req = EchoRequest { identifier: 21, sequence: 4, payload_size: 56 };
    let mut budget: u64 = 3_000_000;
    let mut reports = Vec::new();
    for d in 1u8..=3 {
        let received = Some(Received {
            bytes: reply_bytes(0, 21, 4),
            source: responder(d),
        });
        let step = broadcast_step(&req, budget, received, 1_000);
        reports.push(step.report.expect("a matching reply must be reported"));
        budget = step.next_budget_micros.expect("budget must remain");
    }
    assert_eq!(reports.len(), 3);
    for (i, report) in reports.iter().enumerate() {
        assert_eq!(report.sequence, 4);
        assert_eq!(report.identifier, 21);
        assert_eq!(report.source, responder(i as u8 + 1));
    }
    // the three sources are pairwise distinct
    assert_ne!(reports[0].source, reports[1].source);
    assert_ne!(reports[0].source, reports[2].source);
    assert_ne!(reports[1].source, reports[2].source);
}

#[test]
fn foreign_reply_is_ignored_not_fatal() {
    let req = EchoRequest { identifier: 21, sequence: 4, payload_size: 56 };
    let received = Some(Received {
        bytes: reply_bytes(0, 21, 5),
        source: responder(9),
    });
    let step = broadcast_step(&req, 3_000_000, received, 1_000);
    assert_eq!(step.report, None);
    assert_eq!(step.next_budget_micros, Some(2_999_000));
}

#[test]
fn empty_receive_ends_the_round() {
    let req = EchoRequest { identifier: 21, sequence: 4, payload_size: 56 };
    let step = broadcast_step(&req, 3_000_000, None, 3_000_200);
    assert_eq!(step.report, None);
    assert_eq!(step.next_budget_micros, None);
}

#[test]
fn late_match_is_reported_but_ends_the_round() {
    let req = EchoRequest { identifier: 21, sequence: 4, payload_size: 56 };
    let received = Some(Received {
        bytes: reply_bytes(0, 21, 4),
        source: responder(2),
    });
    let step = broadcast_step(&req, 3_000_000, received, 3_000_001);
    let report = step.report.expect("the reply still counts");
    assert_eq!(report.elapsed_micros, 3_000_001);
    assert_eq!(step.next_budget_micros, None);
}
