use pp_fee_updater::percent::scale_by_percent;
use pp_fee_updater::thresholds::drift_percent;

#[test]
fn percent_of_small_amounts_is_exact() {
    assert_eq!(scale_by_percent(1000, 105), Some(1050));
    assert_eq!(scale_by_percent(1000, 85), Some(850));
    assert_eq!(scale_by_percent(1100, 110), Some(1210));
    assert_eq!(scale_by_percent(820, 110), Some(902));
    assert_eq!(scale_by_percent(0, 110), Some(0));
    assert_eq!(scale_by_percent(12345, 0), Some(0));
}

#[test]
fn percent_rounds_down() {
    assert_eq!(scale_by_percent(1, 99), Some(0));
    assert_eq!(scale_by_percent(3, 50), Some(1));
    assert_eq!(scale_by_percent(199, 1), Some(1));
    assert_eq!(scale_by_percent(999, 105), Some(1048));
}

#[test]
fn percent_keeps_amounts_that_a_plain_product_would_lose() {
    // The product value * pct leaves 128 bits, the result does not.
    assert_eq!(scale_by_percent(u128::MAX, 100), Some(u128::MAX));
    assert_eq!(scale_by_percent(u128::MAX, 50), Some(u128::MAX / 2));
    assert_eq!(scale_by_percent(u128::MAX, 1), Some(u128::MAX / 100));
    assert_eq!(scale_by_percent(100, u128::MAX), Some(u128::MAX));
    let big: u128 = 1 << 127;
    assert_eq!(scale_by_percent(big, 150), Some(big + big / 2));
}

#[test]
fn percent_reports_results_beyond_128_bits() {
    assert_eq!(scale_by_percent(u128::MAX, 101), None);
    assert_eq!(scale_by_percent(u128::MAX, 110), None);
    assert_eq!(scale_by_percent(101, u128::MAX), None);
    assert_eq!(scale_by_percent(u128::MAX, u128::MAX), None);
}

#[test]
fn percent_agrees_with_wide_arithmetic_on_a_grid() {
    let values: [u128; 6] = [0, 1, 99, 100, 101, 1_000_000_007];
    let pcts: [u128; 7] = [0, 1, 85, 99, 100, 105, 110];
    for value in values {
        for pct in pcts {
            assert_eq!(scale_by_percent(value, pct), Some(value * pct / 100));
        }
    }
}

#[test]
fn drift_is_signed_and_rounds_towards_zero() {
    assert_eq!(drift_percent(1100, 1000), Some(10));
    assert_eq!(drift_percent(950, 1000), Some(-5));
    assert_eq!(drift_percent(820, 1000), Some(-18));
    assert_eq!(drift_percent(1000, 1000), Some(0));
    assert_eq!(drift_percent(1009, 1000), Some(0));
    assert_eq!(drift_percent(991, 1000), Some(0));
    assert_eq!(drift_percent(945, 1000), Some(-5));
    assert_eq!(drift_percent(0, 1000), Some(-100));
}

#[test]
fn drift_against_a_zero_contract_price_is_zero() {
    assert_eq!(drift_percent(0, 0), Some(0));
    assert_eq!(drift_percent(1234, 0), Some(0));
    assert_eq!(drift_percent(u128::MAX, 0), Some(0));
}

#[test]
fn drift_that_cannot_be_computed_is_none() {
    assert_eq!(drift_percent(u128::MAX, 1), None);
    assert_eq!(drift_percent(u128::MAX / 50, 1), None);
    assert_eq!(drift_percent(u128::MAX / 100, 1), None);
    let largest: u128 = (i128::MAX / 100) as u128;
    assert_eq!(drift_percent(largest, 1), Some(((largest - 1) * 100) as i128));
    assert_eq!(drift_percent(largest + 2, 1), None);
}
