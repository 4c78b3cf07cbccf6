use pp_fee_updater::tracker::{PendingTracker, PendingUpdate};
use pp_fee_updater::u256::U256;
use pp_fee_updater::updater::{
    check_fee_update, check_if_update_completed, check_transaction_status, update_fee,
    StatusEvidence, TransactionStatus, UpdaterError,
};

fn word(value: u128) -> U256 {
    U256::from_u128(value)
}

#[test]
fn scenario_a_network_above_band() {
    let result = check_fee_update(word(1100), word(1000), 105, 85, 110, 110);
    assert_eq!(result, Ok((true, word(1210))));
}

#[test]
fn scenario_b_network_below_band() {
    let result = check_fee_update(word(820), word(1000), 105, 85, 110, 110);
    assert_eq!(result, Ok((true, word(902))));
}

#[test]
fn scenario_c_network_inside_band() {
    let result = check_fee_update(word(950), word(1000), 105, 85, 110, 110);
    assert_eq!(result, Ok((false, U256::zero())));
}

#[test]
fn fee_update_refuses_a_contract_price_beyond_128_bits() {
    let result = check_fee_update(word(1100), U256 { high: 1, low: 0 }, 105, 85, 110, 110);
    assert_eq!(
        result,
        Err(UpdaterError::Conversion("Contract gas price too large for u128".to_string()))
    );
}

#[test]
fn fee_update_refuses_a_network_price_beyond_128_bits() {
    let result = check_fee_update(U256 { high: 3, low: 9 }, word(1000), 105, 85, 110, 110);
    assert_eq!(
        result,
        Err(UpdaterError::Conversion("Current gas price too large for u128".to_string()))
    );
}

#[test]
fn fee_update_looks_at_the_contract_price_first() {
    let result =
        check_fee_update(U256 { high: 3, low: 9 }, U256 { high: 1, low: 0 }, 105, 85, 110, 110);
    assert_eq!(
        result,
        Err(UpdaterError::Conversion("Contract gas price too large for u128".to_string()))
    );
}

#[test]
fn fee_update_refuses_a_new_price_beyond_128_bits() {
    let result = check_fee_update(word(u128::MAX), word(1000), 105, 85, 110, 110);
    assert_eq!(
        result,
        Err(UpdaterError::Conversion("New gas price too large for u128".to_string()))
    );
}

#[test]
fn fee_update_with_the_largest_price_that_is_left_alone() {
    let result = check_fee_update(word(u128::MAX), word(u128::MAX), 105, 85, 110, 110);
    assert_eq!(result, Ok((false, U256::zero())));
}

#[test]
fn update_is_completed_when_the_prices_are_equal() {
    assert!(check_if_update_completed(word(1210), word(1210)));
    assert!(!check_if_update_completed(word(1210), word(1211)));
    assert!(!check_if_update_completed(U256 { high: 1, low: 1210 }, word(1210)));
    assert!(check_if_update_completed(U256 { high: 1, low: 5 }, U256 { high: 1, low: 5 }));
}

#[test]
fn status_without_receipt_is_pending() {
    assert_eq!(
        check_transaction_status(StatusEvidence::NoReceipt, word(1210)),
        Ok(TransactionStatus::Pending)
    );
}

#[test]
fn status_with_receipt_and_expected_price_is_confirmed() {
    assert_eq!(
        check_transaction_status(StatusEvidence::Included(Ok(word(1210))), word(1210)),
        Ok(TransactionStatus::Confirmed)
    );
}

#[test]
fn status_with_receipt_and_other_price_is_failed() {
    assert_eq!(
        check_transaction_status(StatusEvidence::Included(Ok(word(1000))), word(1210)),
        Ok(TransactionStatus::Failed)
    );
}

#[test]
fn status_with_receipt_and_unreadable_contract_is_failed() {
    assert_eq!(
        check_transaction_status(
            StatusEvidence::Included(Err("connection reset".to_string())),
            word(1210)
        ),
        Ok(TransactionStatus::Failed)
    );
}

#[test]
fn status_after_a_failed_lookup_is_a_provider_error() {
    assert_eq!(
        check_transaction_status(StatusEvidence::ReceiptError("timeout".to_string()), word(1210)),
        Err(UpdaterError::Provider("timeout".to_string()))
    );
}

#[test]
fn update_fee_tracks_a_submitted_transaction() {
    let mut tracker = PendingTracker::new();
    let result = update_fee(word(1210), Ok(word(0xabc)), &mut tracker);
    assert_eq!(result, Ok(()));
    assert_eq!(
        tracker.peek(),
        Some(PendingUpdate { gas_price: word(1210), tx_hash: word(0xabc) })
    );
}

#[test]
fn update_fee_leaves_the_tracker_alone_on_failure() {
    let mut tracker = PendingTracker::new();
    let result = update_fee(word(1210), Err("nonce too low".to_string()), &mut tracker);
    assert_eq!(result, Err(UpdaterError::Account("nonce too low".to_string())));
    assert_eq!(tracker.peek(), None);

    let earlier = PendingUpdate { gas_price: word(5), tx_hash: word(6) };
    tracker.set(earlier);
    let result = update_fee(word(1210), Err("rejected".to_string()), &mut tracker);
    assert_eq!(result, Err(UpdaterError::Account("rejected".to_string())));
    assert_eq!(tracker.peek(), Some(earlier));
}

#[test]
fn tracker_holds_at_most_one_update() {
    let mut tracker = PendingTracker::new();
    assert_eq!(tracker.peek(), None);
    let first = PendingUpdate { gas_price: word(1), tx_hash: word(2) };
    let second = PendingUpdate { gas_price: word(3), tx_hash: word(4) };
    tracker.set(first);
    assert_eq!(tracker.peek(), Some(first));
    assert_eq!(tracker.peek(), Some(first));
    tracker.set(second);
    assert_eq!(tracker.peek(), Some(second));
    tracker.clear();
    assert_eq!(tracker.peek(), None);
    tracker.clear();
    assert_eq!(tracker.peek(), None);
}
