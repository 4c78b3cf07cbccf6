//! The band around the contract's price, and what leaving it calls for.
//!
//! The contract's cached price is left alone while the network's price
//! stays inside a band given by two percentages of the cached price. The
//! band is meant to be lopsided: an upper edge close to 100 percent, so that
//! rising prices are followed quickly, and a lower edge well below it, so
//! that falling prices are followed slowly. Outside the band the new price
//! is the network's price scaled by a buffer percentage.

use crate::percent::{lemma_percent_monotonic, percent_of, scale_by_percent};
use vstd::prelude::*;

verus! {

/// Which way the contract's price has to move.
#[derive(Clone, Copy, Debug, PartialEq, Eq, Structural)]
pub enum Direction {
    /// The network's price is above the band.
    Upward,
    /// The network's price is below the band.
    Downward,
    /// The network's price is inside the band: nothing to do.
    Hold,
}

/// The four percentages that steer the agent, fixed when it starts.
#[derive(Clone, Copy, Debug, PartialEq, Eq, Structural)]
pub struct ThresholdConfig {
    /// Upper edge of the band, in percent of the contract's price.
    pub upward_threshold_pct: u128,
    /// Lower edge of the band, in percent of the contract's price.
    pub downward_threshold_pct: u128,
    /// Percent of the network's price to set when moving up.
    pub upward_buffer_pct: u128,
    /// Percent of the network's price to set when moving down.
    pub downward_buffer_pct: u128,
}

/// One comparison of the network's price with the contract's.
#[derive(Clone, Copy, Debug, PartialEq, Eq, Structural)]
pub struct GasPriceSnapshot {
    /// Gas price of the latest block.
    pub network_price: u128,
    /// Gas price cached in the contract.
    pub contract_price: u128,
    /// Whether the contract's price has to change.
    pub should_update: bool,
    /// Which way it has to change.
    pub direction: Direction,
    /// The price to set, zero when nothing has to change.
    pub new_price: u128,
}

impl ThresholdConfig {
    /// Upper edge of the band around `contract_price`.
    pub open spec fn upward_bound(&self, contract_price: nat) -> nat {
        percent_of(contract_price, self.upward_threshold_pct as nat)
    }

    /// Lower edge of the band around `contract_price`.
    pub open spec fn downward_bound(&self, contract_price: nat) -> nat {
        percent_of(contract_price, self.downward_threshold_pct as nat)
    }

    /// Where `network_price` lies with respect to the band. The upper edge
    /// is looked at first.
    pub open spec fn direction(&self, network_price: nat, contract_price: nat) -> Direction {
        if network_price > self.upward_bound(contract_price) {
            Direction::Upward
        } else if network_price < self.downward_bound(contract_price) {
            Direction::Downward
        } else {
            Direction::Hold
        }
    }

    /// The price to set for a move in `direction`, as an unbounded number.
    pub open spec fn buffered_price(&self, network_price: nat, direction: Direction) -> nat {
        match direction {
            Direction::Upward => percent_of(network_price, self.upward_buffer_pct as nat),
            Direction::Downward => percent_of(network_price, self.downward_buffer_pct as nat),
            Direction::Hold => 0,
        }
    }

    /// The price to set for this pair of prices, as an unbounded number.
    pub open spec fn new_price(&self, network_price: nat, contract_price: nat) -> nat {
        self.buffered_price(network_price, self.direction(network_price, contract_price))
    }

    /// The comparison of this pair of prices; `None` when the price to set
    /// does not fit in 128 bits.
    pub open spec fn snapshot(&self, network_price: u128, contract_price: u128) -> Option<
        GasPriceSnapshot,
    > {
        let direction = self.direction(network_price as nat, contract_price as nat);
        let new_price = self.new_price(network_price as nat, contract_price as nat);
        if new_price <= u128::MAX {
            Some(
                GasPriceSnapshot {
                    network_price,
                    contract_price,
                    should_update: direction != Direction::Hold,
                    direction,
                    new_price: new_price as u128,
                },
            )
        } else {
            None
        }
    }

    /// Whether the lower edge's percentage does not exceed the upper edge's,
    /// so that no price is below the one and above the other.
    pub open spec fn edges_ordered(&self) -> bool {
        self.downward_threshold_pct <= self.upward_threshold_pct
    }

    /// Says whether the two edges are in order.
    pub fn has_ordered_edges(&self) -> (r: bool)
        ensures
            r == self.edges_ordered(),
    {
        self.downward_threshold_pct <= self.upward_threshold_pct
    }

    /// Says on which side of the band `network_price` lies. The edges are
    /// computed without loss, whatever the size of the prices and the
    /// percentages.
    pub fn compare(&self, network_price: u128, contract_price: u128) -> (d: Direction)
        ensures
            d == self.direction(network_price as nat, contract_price as nat),
    {
        let above: bool = match scale_by_percent(contract_price, self.upward_threshold_pct) {
            Some(bound) => network_price > bound,
            None => false,
        };
        if above {
            return Direction::Upward;
        }
        let below: bool = match scale_by_percent(contract_price, self.downward_threshold_pct) {
            Some(bound) => network_price < bound,
            None => true,
        };
        if below {
            Direction::Downward
        } else {
            Direction::Hold
        }
    }

    /// Compares the two prices and computes the price to set. Returns `None`
    /// exactly when that price does not fit in 128 bits.
    pub fn evaluate(&self, network_price: u128, contract_price: u128) -> (r: Option<
        GasPriceSnapshot,
    >)
        ensures
            r == self.snapshot(network_price, contract_price),
    {
        let direction: Direction = self.compare(network_price, contract_price);
        let scaled: Option<u128> = match direction {
            Direction::Upward => scale_by_percent(network_price, self.upward_buffer_pct),
            Direction::Downward => scale_by_percent(network_price, self.downward_buffer_pct),
            Direction::Hold => Some(0),
        };
        match scaled {
            Some(new_price) => Some(
                GasPriceSnapshot {
                    network_price,
                    contract_price,
                    should_update: direction != Direction::Hold,
                    direction,
                    new_price,
                },
            ),
            None => None,
        }
    }
}

/// How far the network's price is from the contract's, in percent of the
/// contract's price, rounded towards zero; positive when the network's price
/// is the higher one. Against a contract price of zero there is no ratio,
/// and the drift counts as zero.
pub open spec fn drift(network_price: nat, contract_price: nat) -> int {
    if contract_price == 0 {
        0
    } else if network_price >= contract_price {
        (network_price - contract_price) * 100 / (contract_price as int)
    } else {
        -((contract_price - network_price) * 100 / (contract_price as int))
    }
}

/// The distance between the two prices, times one hundred: what has to fit
/// in 128 bits for the drift to be computed.
pub open spec fn scaled_gap(network_price: nat, contract_price: nat) -> nat {
    if network_price >= contract_price {
        ((network_price - contract_price) * 100) as nat
    } else {
        ((contract_price - network_price) * 100) as nat
    }
}

/// Computes the drift for a report. It has no part in the comparison. The
/// result is `None` when one hundred times the distance between the prices
/// needs more than 128 bits, or the drift itself more than an `i128` holds.
pub fn drift_percent(network_price: u128, contract_price: u128) -> (r: Option<i128>)
    ensures
        r == (if contract_price == 0 {
            Some(0i128)
        } else if scaled_gap(network_price as nat, contract_price as nat) > u128::MAX || drift(
            network_price as nat,
            contract_price as nat,
        ) > i128::MAX {
            None
        } else {
            Some(drift(network_price as nat, contract_price as nat) as i128)
        }),
{
    if contract_price == 0 {
        return Some(0);
    }
    let rising: bool = network_price >= contract_price;
    let gap: u128 = if rising {
        network_price - contract_price
    } else {
        contract_price - network_price
    };
    match gap.checked_mul(100) {
        Some(scaled) => {
            let ratio: u128 = scaled / contract_price;
            proof {
                if !rising {
                    assert(gap * 100 / (contract_price as int) <= 100) by (nonlinear_arith)
                        requires
                            0 <= gap <= contract_price,
                            contract_price > 0,
                    ;
                }
            }
            if ratio > i128::MAX as u128 {
                None
            } else if rising {
                Some(ratio as i128)
            } else {
                Some(-(ratio as i128))
            }
        },
        None => None,
    }
}

/// A network price above the upper edge moves the contract's price up, to
/// the network's price scaled by the upward buffer. This holds for every
/// contract price, zero included.
pub proof fn lemma_above_band_moves_up(
    thresholds: ThresholdConfig,
    network_price: nat,
    contract_price: nat,
)
    requires
        network_price > percent_of(contract_price, thresholds.upward_threshold_pct as nat),
    ensures
        thresholds.direction(network_price, contract_price) == Direction::Upward,
        thresholds.new_price(network_price, contract_price) == percent_of(
            network_price,
            thresholds.upward_buffer_pct as nat,
        ),
{
}

/// A network price below the lower edge, and not above the upper one, moves
/// the contract's price down, to the network's price scaled by the downward
/// buffer.
pub proof fn lemma_below_band_moves_down(
    thresholds: ThresholdConfig,
    network_price: nat,
    contract_price: nat,
)
    requires
        network_price < percent_of(contract_price, thresholds.downward_threshold_pct as nat),
        network_price <= percent_of(contract_price, thresholds.upward_threshold_pct as nat),
    ensures
        thresholds.direction(network_price, contract_price) == Direction::Downward,
        thresholds.new_price(network_price, contract_price) == percent_of(
            network_price,
            thresholds.downward_buffer_pct as nat,
        ),
{
}

/// Where the lower edge's percentage does not exceed the upper edge's, a
/// network price below the lower edge is never above the upper one, so it
/// always moves the contract's price down.
pub proof fn lemma_ordered_edges_move_down(
    thresholds: ThresholdConfig,
    network_price: nat,
    contract_price: nat,
)
    requires
        thresholds.edges_ordered(),
        network_price < percent_of(contract_price, thresholds.downward_threshold_pct as nat),
    ensures
        thresholds.direction(network_price, contract_price) == Direction::Downward,
        thresholds.new_price(network_price, contract_price) == percent_of(
            network_price,
            thresholds.downward_buffer_pct as nat,
        ),
{
    lemma_percent_monotonic(
        contract_price,
        thresholds.downward_threshold_pct as nat,
        contract_price,
        thresholds.upward_threshold_pct as nat,
    );
}

/// A network price between the two edges, the edges included, changes
/// nothing: no direction, no price to set, and a comparison that always
/// succeeds.
pub proof fn lemma_inside_band_holds(
    thresholds: ThresholdConfig,
    network_price: u128,
    contract_price: u128,
)
    requires
        percent_of(contract_price as nat, thresholds.downward_threshold_pct as nat)
            <= network_price,
        network_price <= percent_of(
            contract_price as nat,
            thresholds.upward_threshold_pct as nat,
        ),
    ensures
        thresholds.direction(network_price as nat, contract_price as nat) == Direction::Hold,
        thresholds.new_price(network_price as nat, contract_price as nat) == 0,
        thresholds.snapshot(network_price, contract_price) matches Some(snapshot)
            && !snapshot.should_update && snapshot.new_price == 0,
{
}

/// The same with the edges taken as exact fractions: a network price that
/// is at least the lower percentage of the contract's price and at most the
/// upper one, neither rounded, changes nothing.
pub proof fn lemma_inside_exact_band_holds(
    thresholds: ThresholdConfig,
    network_price: u128,
    contract_price: u128,
)
    requires
        contract_price * thresholds.downward_threshold_pct <= 100 * network_price,
        100 * network_price <= contract_price * thresholds.upward_threshold_pct,
    ensures
        thresholds.direction(network_price as nat, contract_price as nat) == Direction::Hold,
        thresholds.snapshot(network_price, contract_price) matches Some(snapshot)
            && !snapshot.should_update && snapshot.new_price == 0,
{
    lemma_inside_band_holds(thresholds, network_price, contract_price);
}

/// The comparison says that the price has to change exactly when the
/// network's price lies outside the band.
pub proof fn lemma_update_iff_outside_band(
    thresholds: ThresholdConfig,
    network_price: u128,
    contract_price: u128,
)
    requires
        thresholds.snapshot(network_price, contract_price) is Some,
    ensures
        thresholds.snapshot(network_price, contract_price).unwrap().should_update <==> (
        network_price > thresholds.upward_bound(contract_price as nat) || network_price
            < thresholds.downward_bound(contract_price as nat)),
{
}

} // verus!
