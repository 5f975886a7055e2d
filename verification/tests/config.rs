use rping::interval_micros_from_secs;
use rping::Config;
use rping::IpAddress;

#[test]
fn new_keeps_every_setting() {
    let destination = IpAddress::V4 { a: 127, b: 0, c: 0, d: 1 };
    let config = Config::new(destination, 3, 1_000_000, false, 56, 52, 3, false)
        .expect("assembly always succeeds");
    assert_eq!(config.destination, destination);
    assert_eq!(config.count, 3);
    assert_eq!(config.interval_micros, 1_000_000);
    assert!(!config.quiet);
    assert_eq!(config.packet_size, 56);
    assert_eq!(config.ttl, 52);
    assert_eq!(config.timeout_secs, 3);
    assert!(!config.broadcast);
}

#[test]
fn interval_seconds_become_micros() {
    assert_eq!(interval_micros_from_secs(1), 1_000_000);
    assert_eq!(interval_micros_from_secs(3), 3_000_000);
    // an interval beyond the counter saturates instead of wrapping
    assert_eq!(interval_micros_from_secs(u64::MAX), u64::MAX);
}

#[test]
fn v6_destination_is_not_v4() {
    let destination = IpAddress::V6 { hi: 0, lo: 1 };
    assert!(!destination.is_v4());
    let v4 = IpAddress::V4 { a: 255, b: 255, c: 255, d: 255 };
    assert!(v4.is_v4());
}
