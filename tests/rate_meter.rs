use arm::rate::{Rate, RateMeter};

#[test]
fn rate_meter() {
    let mut meter = RateMeter::seconds(0);
    assert_eq!(meter.tick(1, 10), None);
    assert_eq!(meter.tick(2, 20), None);
    assert_eq!(meter.tick(3, 30), None);
    let rate = meter.tick(0, 1_000_000_000);
    assert!(rate
        .and_then(|r| r.millihertz())
        .map(|mhz| (mhz as f64 / 1000.0 - 6.0).abs() <= 1e-3)
        .unwrap_or(false));
}

#[test]
fn rate_meter_restarts_period() {
    let mut meter = RateMeter::new(100, 1000);
    assert_eq!(meter.tick(4, 1050), None);
    assert_eq!(meter.tick(1, 1100), Some(Rate { count: 5, elapsed_ns: 100 }));
    assert_eq!(meter.count, 0);
    assert_eq!(meter.start_ns, 1100);
    assert_eq!(meter.tick(2, 1150), None);
    assert_eq!(meter.count, 2);
}

#[test]
fn rate_meter_clock_going_back_counts_as_no_time() {
    let mut meter = RateMeter::new(10, 500);
    assert_eq!(meter.tick(1, 400), None);
    assert_eq!(meter.count, 1);
}

#[test]
fn rate_meter_count_saturates() {
    let mut meter = RateMeter::new(1_000, 0);
    assert_eq!(meter.tick(usize::MAX, 1), None);
    assert_eq!(meter.tick(5, 2), None);
    assert_eq!(meter.count, usize::MAX);
}

#[test]
fn millihertz_values() {
    assert_eq!(Rate { count: 3, elapsed_ns: 2_000_000_000 }.millihertz(), Some(1500));
    assert_eq!(Rate { count: 1, elapsed_ns: 3_000_000_000 }.millihertz(), Some(333));
    assert_eq!(Rate { count: 7, elapsed_ns: 0 }.millihertz(), None);
}
