//! What the agent concludes from what it has read off the chain.
//!
//! Nothing here talks to a node. Each function takes what a read or a
//! submission gave and says what follows from it.

use crate::percent::percent_of;
use crate::thresholds::{Direction, GasPriceSnapshot, ThresholdConfig};
use crate::tracker::{PendingTracker, PendingUpdate};
use crate::u256::U256;
use vstd::prelude::*;

verus! {

/// Why a cycle did not come to a decision.
#[derive(Debug, PartialEq, Eq)]
pub enum UpdaterError {
    /// The node could not answer a read; the text is the node client's.
    Provider(String),
    /// The transaction could not be signed or was not taken by the node.
    Account(String),
    /// A number from the chain, or one computed from it, needs more than 128
    /// bits.
    Conversion(String),
    /// The latest block carries no usable gas price.
    InvalidGasPrice(String),
    /// A transaction was included and reverted.
    TransactionFailed,
}

/// An `UpdaterError` with its texts as sequences of characters.
pub enum UpdaterErrorView {
    Provider(Seq<char>),
    Account(Seq<char>),
    Conversion(Seq<char>),
    InvalidGasPrice(Seq<char>),
    TransactionFailed,
}

impl View for UpdaterError {
    type V = UpdaterErrorView;

    open spec fn view(&self) -> UpdaterErrorView {
        match self {
            UpdaterError::Provider(text) => UpdaterErrorView::Provider(text@),
            UpdaterError::Account(text) => UpdaterErrorView::Account(text@),
            UpdaterError::Conversion(text) => UpdaterErrorView::Conversion(text@),
            UpdaterError::InvalidGasPrice(text) => UpdaterErrorView::InvalidGasPrice(text@),
            UpdaterError::TransactionFailed => UpdaterErrorView::TransactionFailed,
        }
    }
}

/// What has become of a submitted transaction.
#[derive(Debug, Clone, Copy, PartialEq, Eq, Structural)]
pub enum TransactionStatus {
    /// It is in a block and the contract holds the price it set.
    Confirmed,
    /// It is in a block and the contract holds another price.
    Failed,
    /// It is not in a block yet.
    Pending,
}

/// What is known of a tracked transaction after asking the node.
#[derive(Debug, PartialEq, Eq)]
pub enum StatusEvidence {
    /// The node has no receipt for it.
    NoReceipt,
    /// The node could not be asked for the receipt.
    ReceiptError(String),
    /// The node has a receipt, and this is what reading the contract's price
    /// gave afterwards.
    Included(Result<U256, String>),
}

/// Text of the error for a contract price beyond 128 bits.
pub open spec fn contract_price_too_large() -> Seq<char> {
    "Contract gas price too large for u128"@
}

/// Text of the error for a network price beyond 128 bits.
pub open spec fn network_price_too_large() -> Seq<char> {
    "Current gas price too large for u128"@
}

/// Text of the error for a price to set beyond 128 bits.
pub open spec fn new_price_too_large() -> Seq<char> {
    "New gas price too large for u128"@
}

/// What `check_fee_update` returns, over the numbers that the words stand
/// for.
pub open spec fn fee_update_outcome(
    current_gas_price: nat,
    gas_price_on_contract: nat,
    thresholds: ThresholdConfig,
) -> Result<(bool, nat), UpdaterErrorView> {
    if gas_price_on_contract > u128::MAX {
        Err(UpdaterErrorView::Conversion(contract_price_too_large()))
    } else if current_gas_price > u128::MAX {
        Err(UpdaterErrorView::Conversion(network_price_too_large()))
    } else if thresholds.new_price(current_gas_price, gas_price_on_contract) > u128::MAX {
        Err(UpdaterErrorView::Conversion(new_price_too_large()))
    } else {
        Ok(
            (
                thresholds.direction(current_gas_price, gas_price_on_contract) != Direction::Hold,
                thresholds.new_price(current_gas_price, gas_price_on_contract),
            ),
        )
    }
}

/// For prices within 128 bits and a network price above the band, the
/// outcome is an update to the network's price scaled by the upward buffer,
/// unless that price needs more than 128 bits.
pub proof fn lemma_fee_update_above_band(
    current_gas_price: nat,
    gas_price_on_contract: nat,
    thresholds: ThresholdConfig,
)
    requires
        current_gas_price <= u128::MAX,
        gas_price_on_contract <= u128::MAX,
        current_gas_price > percent_of(
            gas_price_on_contract,
            thresholds.upward_threshold_pct as nat,
        ),
    ensures
        fee_update_outcome(current_gas_price, gas_price_on_contract, thresholds) == (if percent_of(
            current_gas_price,
            thresholds.upward_buffer_pct as nat,
        ) <= u128::MAX {
            Ok((true, percent_of(current_gas_price, thresholds.upward_buffer_pct as nat)))
        } else {
            Err(UpdaterErrorView::Conversion(new_price_too_large()))
        }),
{
}

/// For prices within 128 bits and a network price below the band, and not
/// above its upper edge, the outcome is an update to the network's price
/// scaled by the downward buffer, unless that price needs more than 128
/// bits.
pub proof fn lemma_fee_update_below_band(
    current_gas_price: nat,
    gas_price_on_contract: nat,
    thresholds: ThresholdConfig,
)
    requires
        current_gas_price <= u128::MAX,
        gas_price_on_contract <= u128::MAX,
        current_gas_price < percent_of(
            gas_price_on_contract,
            thresholds.downward_threshold_pct as nat,
        ),
        current_gas_price <= percent_of(
            gas_price_on_contract,
            thresholds.upward_threshold_pct as nat,
        ),
    ensures
        fee_update_outcome(current_gas_price, gas_price_on_contract, thresholds) == (if percent_of(
            current_gas_price,
            thresholds.downward_buffer_pct as nat,
        ) <= u128::MAX {
            Ok((true, percent_of(current_gas_price, thresholds.downward_buffer_pct as nat)))
        } else {
            Err(UpdaterErrorView::Conversion(new_price_too_large()))
        }),
{
}

/// For prices within 128 bits and a network price inside the band, the
/// edges included, the outcome is no update and a price of zero.
pub proof fn lemma_fee_update_inside_band(
    current_gas_price: nat,
    gas_price_on_contract: nat,
    thresholds: ThresholdConfig,
)
    requires
        current_gas_price <= u128::MAX,
        gas_price_on_contract <= u128::MAX,
        percent_of(gas_price_on_contract, thresholds.downward_threshold_pct as nat)
            <= current_gas_price,
        current_gas_price <= percent_of(
            gas_price_on_contract,
            thresholds.upward_threshold_pct as nat,
        ),
    ensures
        fee_update_outcome(current_gas_price, gas_price_on_contract, thresholds) == Ok::<
            (bool, nat),
            UpdaterErrorView,
        >((false, 0nat)),
{
}

/// Decides from the two prices whether the contract's price has to change,
/// and to what.
///
/// `current_gas_price` is the gas price of the latest block and
/// `gas_price_on_contract` the price cached in the contract, both as the
/// chain hands them out. The result is `(false, 0)` while the network's
/// price is inside the band, and `(true, new_price)` outside it. A price
/// that needs more than 128 bits is an error, never cut down: the
/// contract's price is looked at first, then the network's, then the price
/// to set.
pub fn check_fee_update(
    current_gas_price: U256,
    gas_price_on_contract: U256,
    upward_threshold_const: u128,
    downward_threshold_const: u128,
    upward_buffer_const: u128,
    downward_buffer_const: u128,
) -> (r: Result<(bool, U256), UpdaterError>)
    ensures
        match fee_update_outcome(
            current_gas_price@,
            gas_price_on_contract@,
            ThresholdConfig {
                upward_threshold_pct: upward_threshold_const,
                downward_threshold_pct: downward_threshold_const,
                upward_buffer_pct: upward_buffer_const,
                downward_buffer_pct: downward_buffer_const,
            },
        ) {
            Ok((should_update, new_price)) => r matches Ok((flag, price)) && flag == should_update
                && price@ == new_price,
            Err(error) => r matches Err(e) && e@ == error,
        },
{
    let thresholds = ThresholdConfig {
        upward_threshold_pct: upward_threshold_const,
        downward_threshold_pct: downward_threshold_const,
        upward_buffer_pct: upward_buffer_const,
        downward_buffer_pct: downward_buffer_const,
    };
    let contract_price: u128 = match gas_price_on_contract.to_u128() {
        Some(price) => price,
        None => {
            return Err(
                UpdaterError::Conversion("Contract gas price too large for u128".to_owned()),
            );
        },
    };
    let network_price: u128 = match current_gas_price.to_u128() {
        Some(price) => price,
        None => {
            return Err(
                UpdaterError::Conversion("Current gas price too large for u128".to_owned()),
            );
        },
    };
    let snapshot: GasPriceSnapshot = match thresholds.evaluate(network_price, contract_price) {
        Some(snapshot) => snapshot,
        None => {
            return Err(UpdaterError::Conversion("New gas price too large for u128".to_owned()));
        },
    };
    Ok((snapshot.should_update, U256::from_u128(snapshot.new_price)))
}

/// Whether the contract holds the price that a submitted transaction was
/// meant to set.
pub fn check_if_update_completed(current_contract_price: U256, expected_gas_price: U256) -> (is_match:
    bool)
    ensures
        is_match == (current_contract_price@ == expected_gas_price@),
{
    current_contract_price == expected_gas_price
}

/// What `check_transaction_status` returns.
pub open spec fn transaction_status(
    evidence: StatusEvidence,
    expected_gas_price: U256,
) -> Result<TransactionStatus, UpdaterErrorView> {
    match evidence {
        StatusEvidence::NoReceipt => Ok(TransactionStatus::Pending),
        StatusEvidence::ReceiptError(text) => Err(UpdaterErrorView::Provider(text@)),
        StatusEvidence::Included(Ok(price)) => if price@ == expected_gas_price@ {
            Ok(TransactionStatus::Confirmed)
        } else {
            Ok(TransactionStatus::Failed)
        },
        StatusEvidence::Included(Err(_)) => Ok(TransactionStatus::Failed),
    }
}

/// Says what has become of a submitted transaction.
///
/// Without a receipt it is still pending. With a receipt it is confirmed if
/// the contract now holds `expected_gas_price`, and failed if it holds
/// another price or could not be read. A receipt lookup that itself failed
/// is an error.
pub fn check_transaction_status(evidence: StatusEvidence, expected_gas_price: U256) -> (r: Result<
    TransactionStatus,
    UpdaterError,
>)
    ensures
        match transaction_status(evidence, expected_gas_price) {
            Ok(status) => r == Ok::<TransactionStatus, UpdaterError>(status),
            Err(error) => r matches Err(e) && e@ == error,
        },
{
    match evidence {
        StatusEvidence::NoReceipt => Ok(TransactionStatus::Pending),
        StatusEvidence::ReceiptError(text) => Err(UpdaterError::Provider(text)),
        StatusEvidence::Included(Ok(price)) => {
            if check_if_update_completed(price, expected_gas_price) {
                Ok(TransactionStatus::Confirmed)
            } else {
                Ok(TransactionStatus::Failed)
            }
        },
        StatusEvidence::Included(Err(_)) => Ok(TransactionStatus::Failed),
    }
}

/// Records what came of submitting the transaction that sets `gas_price`.
///
/// `submission` is the transaction's hash, or the text of the failure. On
/// success the tracker holds the new pending update. On failure nothing was
/// submitted, the tracker is left as it was, and the failure is returned.
pub fn update_fee(
    gas_price: U256,
    submission: Result<U256, String>,
    pending_update: &mut PendingTracker,
) -> (r: Result<(), UpdaterError>)
    ensures
        match submission {
            Ok(tx_hash) => r is Ok && final(pending_update)@ == Some(
                PendingUpdate { gas_price, tx_hash },
            ),
            Err(text) => r matches Err(e) && e@ == UpdaterErrorView::Account(text@)
                && final(pending_update)@ == old(pending_update)@,
        },
{
    match submission {
        Ok(tx_hash) => {
            pending_update.set(PendingUpdate { gas_price, tx_hash });
            Ok(())
        },
        Err(text) => Err(UpdaterError::Account(text)),
    }
}

} // verus!
