use rping::loss_share;
use rping::sleep_budget_micros;
use rping::RunStatistics;

#[test]
fn sequence_numbers_climb_from_zero() {
    let mut stats = RunStatistics::new();
    for round in 0u16..5 {
        assert_eq!(stats.sequence, round);
        stats.record_round(round % 2 == 0);
    }
    assert_eq!(stats.transmitted, 5);
    assert_eq!(stats.received, 3);
}

#[test]
fn sequence_wraps_at_65536() {
    let mut stats = RunStatistics {
        sequence: 0xFFFF,
        transmitted: 0xFFFF,
        received: 0,
    };
    stats.record_round(false);
    assert_eq!(stats.sequence, 0);
    assert_eq!(stats.transmitted, 0x10000);
}

#[test]
fn sleep_is_interval_minus_cost() {
    assert_eq!(sleep_budget_micros(1_000_000, 300_000), 700_000);
}

#[test]
fn slow_round_earns_no_sleep() {
    assert_eq!(sleep_budget_micros(1_000_000, 1_000_000), 0);
    assert_eq!(sleep_budget_micros(1_000_000, 2_500_000), 0);
}

#[test]
fn bounded_run_stops_after_count_rounds() {
    let count: u16 = 3;
    let mut stats = RunStatistics::new();
    let mut rounds_sent: u32 = 0;
    while !stats.should_stop(count, false) {
        stats.record_round(true);
        rounds_sent += 1;
    }
    assert_eq!(rounds_sent, 3);
    assert_eq!(stats.transmitted, 3);
}

#[test]
fn cancellation_stops_at_once() {
    let stats = RunStatistics::new();
    assert!(stats.should_stop(0, true));
    assert!(stats.should_stop(9, true));
}

#[test]
fn count_zero_never_stops_by_count() {
    let stats = RunStatistics {
        sequence: 0,
        transmitted: 0x2_0000,
        received: 0,
    };
    assert!(!stats.should_stop(0, false));
}

#[test]
fn loss_share_is_integer_truncated() {
    assert_eq!(loss_share(3, 1), 0);
    assert_eq!(loss_share(4, 0), 1);
    assert_eq!(loss_share(5, 5), 0);
}

#[test]
fn summary_carries_the_counters() {
    let mut stats = RunStatistics::new();
    stats.record_round(true);
    stats.record_round(false);
    stats.record_round(true);
    let summary = stats.summarize(1234);
    assert_eq!(summary.transmitted, 3);
    assert_eq!(summary.received, 2);
    assert_eq!(summary.loss, 0);
    assert_eq!(summary.elapsed_millis, 1234);
}
