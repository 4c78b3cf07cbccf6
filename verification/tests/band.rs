use pp_fee_updater::thresholds::{Direction, GasPriceSnapshot, ThresholdConfig};

fn policy() -> ThresholdConfig {
    ThresholdConfig {
        upward_threshold_pct: 105,
        downward_threshold_pct: 85,
        upward_buffer_pct: 110,
        downward_buffer_pct: 110,
    }
}

#[test]
fn scenario_rising_price_is_followed() {
    let snapshot = policy().evaluate(1100, 1000).unwrap();
    assert!(snapshot.should_update);
    assert_eq!(snapshot.direction, Direction::Upward);
    assert_eq!(snapshot.new_price, 1210);
    assert_eq!(snapshot.network_price, 1100);
    assert_eq!(snapshot.contract_price, 1000);
}

#[test]
fn scenario_falling_price_is_followed() {
    let snapshot = policy().evaluate(820, 1000).unwrap();
    assert!(snapshot.should_update);
    assert_eq!(snapshot.direction, Direction::Downward);
    assert_eq!(snapshot.new_price, 902);
}

#[test]
fn scenario_price_inside_band_is_left_alone() {
    let snapshot = policy().evaluate(950, 1000).unwrap();
    assert!(!snapshot.should_update);
    assert_eq!(snapshot.direction, Direction::Hold);
    assert_eq!(snapshot.new_price, 0);
}

#[test]
fn band_edges_belong_to_the_band() {
    assert_eq!(policy().compare(1050, 1000), Direction::Hold);
    assert_eq!(policy().compare(1051, 1000), Direction::Upward);
    assert_eq!(policy().compare(850, 1000), Direction::Hold);
    assert_eq!(policy().compare(849, 1000), Direction::Downward);
    assert_eq!(policy().compare(1000, 1000), Direction::Hold);
}

#[test]
fn band_edges_are_rounded_down() {
    // 105 % of 999 is 1048.95: the edge is 1048.
    assert_eq!(policy().compare(1048, 999), Direction::Hold);
    assert_eq!(policy().compare(1049, 999), Direction::Upward);
    // 85 % of 999 is 849.15: the edge is 849.
    assert_eq!(policy().compare(849, 999), Direction::Hold);
    assert_eq!(policy().compare(848, 999), Direction::Downward);
}

#[test]
fn band_around_a_zero_contract_price() {
    assert_eq!(policy().compare(0, 0), Direction::Hold);
    assert_eq!(policy().compare(1, 0), Direction::Upward);
    let snapshot = policy().evaluate(10, 0).unwrap();
    assert!(snapshot.should_update);
    assert_eq!(snapshot.new_price, 11);
}

#[test]
fn band_with_huge_prices_is_compared_without_loss() {
    let huge: u128 = u128::MAX - 10;
    // 105 % of the contract's price does not fit in 128 bits: nothing is above it.
    assert_eq!(policy().compare(u128::MAX, huge), Direction::Hold);
    assert_eq!(policy().compare(huge / 2, huge), Direction::Downward);
    let edge: u128 = u128::MAX / 100 * 85 + (u128::MAX % 100) * 85 / 100;
    assert_eq!(policy().compare(edge + 5, u128::MAX), Direction::Hold);
    assert_eq!(policy().compare(edge - 5, u128::MAX), Direction::Downward);
}

#[test]
fn upper_edge_is_looked_at_first() {
    let inverted = ThresholdConfig {
        upward_threshold_pct: 50,
        downward_threshold_pct: 150,
        upward_buffer_pct: 110,
        downward_buffer_pct: 90,
    };
    // 100 is above 50 and below 150: it counts as above.
    let snapshot = inverted.evaluate(100, 100).unwrap();
    assert_eq!(snapshot.direction, Direction::Upward);
    assert_eq!(snapshot.new_price, 110);
    let snapshot = inverted.evaluate(40, 100).unwrap();
    assert_eq!(snapshot.direction, Direction::Downward);
    assert_eq!(snapshot.new_price, 36);
}

#[test]
fn new_price_beyond_128_bits_is_refused() {
    assert_eq!(policy().evaluate(u128::MAX, 1), None);
    assert_eq!(policy().evaluate(u128::MAX / 110 * 100 + 200, 1), None);
    let fits: u128 = u128::MAX / 110 * 100;
    assert_eq!(
        policy().evaluate(fits, 1),
        Some(GasPriceSnapshot {
            network_price: fits,
            contract_price: 1,
            should_update: true,
            direction: Direction::Upward,
            new_price: fits / 100 * 110,
        })
    );
}

#[test]
fn above_band_gives_upward_with_buffered_price_on_a_grid() {
    let contract: u128 = 2000;
    for network in 2101..2200u128 {
        let snapshot = policy().evaluate(network, contract).unwrap();
        assert_eq!(snapshot.direction, Direction::Upward);
        assert_eq!(snapshot.new_price, network * 110 / 100);
        assert!(snapshot.should_update);
    }
}

#[test]
fn below_band_gives_downward_with_buffered_price_on_a_grid() {
    let contract: u128 = 2000;
    for network in 1600..1700u128 {
        let snapshot = policy().evaluate(network, contract).unwrap();
        assert_eq!(snapshot.direction, Direction::Downward);
        assert_eq!(snapshot.new_price, network * 110 / 100);
        assert!(snapshot.should_update);
    }
}

#[test]
fn inside_band_gives_no_update_on_a_grid() {
    let contract: u128 = 2000;
    for network in 1700..=2100u128 {
        let snapshot = policy().evaluate(network, contract).unwrap();
        assert_eq!(snapshot.direction, Direction::Hold);
        assert!(!snapshot.should_update);
        assert_eq!(snapshot.new_price, 0);
    }
}

#[test]
fn edges_in_order_are_recognised() {
    assert!(policy().has_ordered_edges());
    let level = ThresholdConfig {
        upward_threshold_pct: 100,
        downward_threshold_pct: 100,
        upward_buffer_pct: 100,
        downward_buffer_pct: 100,
    };
    assert!(level.has_ordered_edges());
    let inverted = ThresholdConfig {
        upward_threshold_pct: 50,
        downward_threshold_pct: 150,
        upward_buffer_pct: 110,
        downward_buffer_pct: 90,
    };
    assert!(!inverted.has_ordered_edges());
}
