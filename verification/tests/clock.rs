use pollnet::{Clock, SimClock, millis_from_ticks};

#[test]
fn one_second_of_ticks_is_one_thousand_millis() {
    assert_eq!(millis_from_ticks(16_000_000, 16_000_000), 1000);
}

#[test]
fn millis_truncate() {
    assert_eq!(millis_from_ticks(1, 16_000_000), 0);
    assert_eq!(millis_from_ticks(24_000_000, 16_000_000), 1500);
    assert_eq!(millis_from_ticks(15_999, 16_000), 999);
}

#[test]
fn millis_zero_ticks() {
    assert_eq!(millis_from_ticks(0, 16_000_000), 0);
}

#[test]
fn sim_clock_is_monotonic() {
    let mut c = SimClock::new(5, 10);
    let a = c.now_ms();
    let b = c.now_ms();
    let d = c.now_ms();
    assert_eq!(a, 15);
    assert_eq!(b, 25);
    assert_eq!(d, 35);
}

#[test]
fn sim_clock_saturates_at_the_top() {
    let mut c = SimClock::new(u64::MAX - 3, 10);
    assert_eq!(c.now_ms(), u64::MAX);
    assert_eq!(c.now_ms(), u64::MAX);
}
