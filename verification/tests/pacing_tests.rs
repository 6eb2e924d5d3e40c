use wam_message_gatling::pacing::{delay_for, MILLIS_PER_SECOND};
use wam_message_gatling::GatlingCore;

#[test]
fn test_delay_is_zero_without_a_rate() {
    assert_eq!(delay_for(0), 0);
}

#[test]
fn test_delay_for_four_per_second() {
    assert_eq!(delay_for(4), 250);
}

#[test]
fn test_delay_truncates_for_three_per_second() {
    assert_eq!(delay_for(3), 333);
}

#[test]
fn test_delay_edges() {
    assert_eq!(MILLIS_PER_SECOND, 1000);
    assert_eq!(delay_for(1), 1000);
    assert_eq!(delay_for(2), 500);
    assert_eq!(delay_for(6), 166);
    assert_eq!(delay_for(7), 142);
    assert_eq!(delay_for(999), 1);
    assert_eq!(delay_for(1000), 1);
    assert_eq!(delay_for(1001), 0);
    assert_eq!(delay_for(u32::MAX), 0);
}

#[test]
fn test_delay_is_the_truncated_floating_quotient() {
    let mut rate: u32 = 1;
    loop {
        let expected = (1000.0 / rate as f64) as u64;
        assert_eq!(delay_for(rate), expected, "rate {}", rate);
        match rate.checked_mul(3) {
            Some(next) => rate = next - 1,
            None => break,
        }
    }
    for rate in 1..=2100u32 {
        assert_eq!(delay_for(rate), (1000.0 / rate as f64) as u64, "rate {}", rate);
    }
    assert_eq!(delay_for(u32::MAX), (1000.0 / u32::MAX as f64) as u64);
}

#[test]
fn test_delay_fits_in_one_second() {
    for rate in 1..=1500u64 {
        let delay = delay_for(rate as u32);
        assert!(delay * rate <= 1000);
        assert!((delay + 1) * rate > 1000);
    }
}

#[test]
fn test_core_get_delay_ms() {
    assert_eq!(GatlingCore::new(10, 0, String::new()).get_delay_ms(), 0);
    assert_eq!(GatlingCore::new(10, 4, String::new()).get_delay_ms(), 250);
    assert_eq!(GatlingCore::new(10, 3, String::new()).get_delay_ms(), 333);
}
