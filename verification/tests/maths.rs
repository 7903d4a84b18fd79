use pool_indexer::maths::{actual_period, calculate_period};

#[test]
fn period_is_one_at_genesis() {
    assert_eq!(calculate_period(1000, 1000, 100), 1);
    assert_eq!(actual_period(1000, 1000, 100), 1);
}

#[test]
fn period_counts_started_periods() {
    // ledgers 1001..=1100 are in period 1, 1101..=1200 in period 2
    assert_eq!(calculate_period(1001, 1000, 100), 1);
    assert_eq!(calculate_period(1100, 1000, 100), 1);
    assert_eq!(calculate_period(1101, 1000, 100), 2);
    assert_eq!(calculate_period(1200, 1000, 100), 2);
    assert_eq!(calculate_period(1201, 1000, 100), 3);
    assert_eq!(actual_period(5_000_250, 5_000_000, 50), 5);
    assert_eq!(actual_period(5_000_251, 5_000_000, 50), 6);
}

#[test]
fn period_one_just_before_genesis() {
    // within one period before genesis the count rounds to zero: period 1
    assert_eq!(calculate_period(901, 1000, 100), 1);
    assert_eq!(calculate_period(999, 1000, 100), 1);
    // a whole period or more before genesis gives a non-positive period
    assert_eq!(calculate_period(900, 1000, 100), -1);
    assert_eq!(calculate_period(-20, 5, 10), -2);
}

#[test]
fn period_with_negative_length_rounds_toward_zero() {
    assert_eq!(calculate_period(100, 0, -10), -10);
    assert_eq!(calculate_period(0, 100, -30), 3);
    assert_eq!(calculate_period(0, 5, -10), 1);
}

#[test]
fn period_is_monotonic_on_concrete_ledgers() {
    let mut last = calculate_period(0, 50, 7);
    for ledger in 1..400 {
        let p = calculate_period(ledger, 50, 7);
        assert!(p >= last);
        last = p;
    }
}

#[test]
fn period_count_truncates_to_i32() {
    // a count beyond i32 wraps as the cast does
    let count: i128 = (i32::MAX as i128) + 1;
    assert_eq!(calculate_period(count, 0, 1), i32::MIN);
}
