use merkle_distributor::vesting::{get_percentage, get_time_scaled_percentage};
use merkle_distributor::PERCENT_100;

#[test]
fn percentage_of_zero_is_zero() {
    assert_eq!(get_percentage(0, 0), 0);
    assert_eq!(get_percentage(1, 0), 0);
    assert_eq!(get_percentage(1000, 0), 0);
    assert_eq!(get_percentage(u64::MAX, 0), 0);
}

#[test]
fn percentage_of_hundred_is_identity() {
    assert_eq!(get_percentage(0, PERCENT_100), 0);
    assert_eq!(get_percentage(1, PERCENT_100), 1);
    assert_eq!(get_percentage(1000, PERCENT_100), 1000);
    assert_eq!(get_percentage(u64::MAX, PERCENT_100), u64::MAX);
}

#[test]
fn percentage_rounds_down() {
    // 3 * 50% = 1.5, floor 1
    assert_eq!(get_percentage(3, 50_000_000), 1);
    // 999 * 0.000001% rounds to 0
    assert_eq!(get_percentage(999, 1), 0);
}

#[test]
fn percentage_example() {
    assert_eq!(get_percentage(1000, 80_000_000), 800);
}

#[test]
fn time_scaled_starts_at_base() {
    assert_eq!(get_time_scaled_percentage(0, 0, 1000), 0);
    assert_eq!(get_time_scaled_percentage(60_000_000, 0, 1000), 60_000_000);
    assert_eq!(get_time_scaled_percentage(PERCENT_100, 0, 7), PERCENT_100);
}

#[test]
fn time_scaled_ends_at_hundred() {
    assert_eq!(get_time_scaled_percentage(0, 1000, 1000), PERCENT_100);
    assert_eq!(get_time_scaled_percentage(60_000_000, 1000, 1000), PERCENT_100);
    assert_eq!(get_time_scaled_percentage(PERCENT_100, 7, 7), PERCENT_100);
}

#[test]
fn time_scaled_example() {
    // 60% base over 1000 seconds: halfway gives 60% + 40% * 500/1000 = 80%
    assert_eq!(get_time_scaled_percentage(60_000_000, 500, 1000), 80_000_000);
}
