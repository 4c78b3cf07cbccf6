//! One reconciliation cycle, cut at every point where the chain has to be
//! asked.
//!
//! A new block starts a cycle. The engine then says what it needs next: a
//! receipt, the latest block, the contract's price, or the submission of a
//! new price. The program around it does that and hands back what it got,
//! until the engine says that the cycle is finished. The engine never waits
//! and never talks to a node; it only decides.
//!
//! A cycle runs in this order. If an update is tracked, its receipt is
//! looked up first. While there is none, the cycle ends at once: nothing is
//! compared and nothing is submitted. If there is one, the contract's price
//! is read and the tracker is cleared, whatever the price. If the lookup
//! itself fails, the tracker is cleared too, so that one bad answer cannot
//! block the agent for good. Then the two prices are read and compared, and
//! a new price is submitted if the network has left the band.

use crate::percent::percent_of;
use crate::thresholds::ThresholdConfig;
use crate::tracker::{PendingTracker, PendingUpdate};
use crate::u256::U256;
use crate::updater::{
    check_fee_update, check_transaction_status, fee_update_outcome, transaction_status, update_fee,
    StatusEvidence, TransactionStatus, UpdaterError, UpdaterErrorView,
};
use vstd::prelude::*;

verus! {

/// What looking up a transaction's receipt gave.
#[derive(Debug, PartialEq, Eq)]
pub enum ReceiptLookup {
    /// The transaction is in a block.
    Found,
    /// The node knows no receipt for it.
    NotFound,
    /// The node could not be asked; the text is the node client's.
    Failed(String),
}

/// What reading the latest block gave.
#[derive(Debug, PartialEq, Eq)]
pub enum BlockRead {
    /// A block that is part of the chain, with its gas price.
    Confirmed(U256),
    /// A block that is still being built: it carries no price to go by.
    Pending,
    /// The node could not be asked; the text is the node client's.
    Failed(String),
}

/// What the program around the engine reports to it.
#[derive(Debug, PartialEq, Eq)]
pub enum Event {
    /// The subscription announced a new block.
    NewBlock,
    /// Answer to `Action::LookupReceipt`.
    Receipt(ReceiptLookup),
    /// Answer to `Action::ReadLatestBlock`.
    LatestBlock(BlockRead),
    /// Answer to `Action::ReadContractPrice`: the price, or the text of the
    /// node client's failure.
    ContractPrice(Result<U256, String>),
    /// Answer to `Action::Submit`: the transaction's hash, or the text of
    /// the failure.
    Submitted(Result<U256, String>),
}

/// Where a cycle stands: what the engine is waiting for.
#[derive(Debug, Clone, Copy, PartialEq, Eq, Structural)]
pub enum Phase {
    /// No cycle is running.
    Idle,
    /// Waiting for the receipt of the tracked transaction.
    CheckingReceipt,
    /// Waiting for the contract's price, to see what the tracked
    /// transaction did.
    ConfirmingUpdate,
    /// Waiting for the latest block.
    ReadingNetworkPrice,
    /// Waiting for the contract's price, to compare it with the network's.
    ReadingContractPrice { network_price: U256 },
    /// Waiting for the outcome of a submission.
    Submitting { new_price: U256 },
}

/// How a cycle ended when it did not fail.
#[derive(Debug, Clone, Copy, PartialEq, Eq, Structural)]
pub enum Decision {
    /// The network's price is inside the band.
    NoUpdateNeeded,
    /// A transaction that sets this price was submitted and is now tracked.
    UpdateSubmitted(U256),
    /// The tracked transaction is not in a block yet; nothing else was done.
    PendingStillOutstanding,
}

/// What the engine asks the program around it to do next.
#[derive(Debug, PartialEq, Eq)]
pub enum Action {
    /// Look up the receipt of this transaction.
    LookupReceipt { tx_hash: U256 },
    /// Read the latest block.
    ReadLatestBlock,
    /// Read the price cached in the contract.
    ReadContractPrice,
    /// Sign and send a transaction that sets this price.
    Submit { new_price: U256 },
    /// The cycle is over, with this result.
    Finish(Result<Decision, UpdaterError>),
    /// The event answers nothing that the engine asked for. Nothing changed.
    Ignore,
}

/// An `Action` with its texts as sequences of characters.
pub enum ActionView {
    LookupReceipt { tx_hash: U256 },
    ReadLatestBlock,
    ReadContractPrice,
    Submit { new_price: U256 },
    Finish(Result<Decision, UpdaterErrorView>),
    Ignore,
}

impl View for Action {
    type V = ActionView;

    open spec fn view(&self) -> ActionView {
        match self {
            Action::LookupReceipt { tx_hash } => ActionView::LookupReceipt { tx_hash: *tx_hash },
            Action::ReadLatestBlock => ActionView::ReadLatestBlock,
            Action::ReadContractPrice => ActionView::ReadContractPrice,
            Action::Submit { new_price } => ActionView::Submit { new_price: *new_price },
            Action::Finish(Ok(decision)) => ActionView::Finish(Ok(*decision)),
            Action::Finish(Err(error)) => ActionView::Finish(Err(error@)),
            Action::Ignore => ActionView::Ignore,
        }
    }
}

/// One step of the engine: the phase it is in afterwards, what it asks for,
/// and, when the step settled what had become of the tracked transaction,
/// what it found.
#[derive(Debug, PartialEq, Eq)]
pub struct Step {
    pub next: Phase,
    pub action: Action,
    pub status: Option<Result<TransactionStatus, UpdaterError>>,
}

/// A status, or the error in its place, with the error's text as a sequence
/// of characters.
pub open spec fn status_view(status: Result<TransactionStatus, UpdaterError>) -> Result<
    TransactionStatus,
    UpdaterErrorView,
> {
    match status {
        Ok(found) => Ok(found),
        Err(error) => Err(error@),
    }
}

/// A `Step` with its texts as sequences of characters.
pub struct StepView {
    pub next: Phase,
    pub action: ActionView,
    pub status: Option<Result<TransactionStatus, UpdaterErrorView>>,
}

impl View for Step {
    type V = StepView;

    open spec fn view(&self) -> StepView {
        StepView {
            next: self.next,
            action: self.action@,
            status: match self.status {
                Some(status) => Some(status_view(status)),
                None => None,
            },
        }
    }
}

/// A step together with what the tracker holds after it.
pub struct Outcome {
    pub step: StepView,
    pub pending: Option<PendingUpdate>,
}

/// Text of the error for a latest block that is still being built.
pub open spec fn pending_block_text() -> Seq<char> {
    "Cannot get gas price from pending block"@
}

/// A step that leaves everything as it is.
pub open spec fn ignored(phase: Phase, pending: Option<PendingUpdate>) -> Outcome {
    Outcome { step: StepView { next: phase, action: ActionView::Ignore, status: None }, pending }
}

/// A step that ends the cycle.
pub open spec fn finished(
    result: Result<Decision, UpdaterErrorView>,
    status: Option<Result<TransactionStatus, UpdaterErrorView>>,
    pending: Option<PendingUpdate>,
) -> Outcome {
    Outcome {
        step: StepView { next: Phase::Idle, action: ActionView::Finish(result), status },
        pending,
    }
}

/// A step that goes on to the price comparison, with the tracker empty.
pub open spec fn compare_next(status: Option<Result<TransactionStatus, UpdaterErrorView>>) -> Outcome {
    Outcome {
        step: StepView {
            next: Phase::ReadingNetworkPrice,
            action: ActionView::ReadLatestBlock,
            status,
        },
        pending: None,
    }
}

/// What follows once the status of the tracked transaction is known: a
/// transaction that is still pending ends the cycle and stays tracked, any
/// other finding clears the tracker and goes on to the price comparison.
pub open spec fn settled(
    status: Result<TransactionStatus, UpdaterErrorView>,
    pending: Option<PendingUpdate>,
) -> Outcome {
    if status == Ok::<TransactionStatus, UpdaterErrorView>(TransactionStatus::Pending) {
        finished(Ok(Decision::PendingStillOutstanding), Some(status), pending)
    } else {
        compare_next(Some(status))
    }
}

/// What follows from the two prices when no update is tracked.
pub open spec fn compared(
    network_price: U256,
    contract_price: U256,
    thresholds: ThresholdConfig,
) -> Outcome {
    match fee_update_outcome(network_price@, contract_price@, thresholds) {
        Err(error) => finished(Err(error), None, None),
        Ok((should_update, new_price)) => if should_update {
            let price = U256::spec_from_u128(new_price as u128);
            Outcome {
                step: StepView {
                    next: Phase::Submitting { new_price: price },
                    action: ActionView::Submit { new_price: price },
                    status: None,
                },
                pending: None,
            }
        } else {
            finished(Ok(Decision::NoUpdateNeeded), None, None)
        },
    }
}

/// The engine's rule: what a step does in `phase` on `event`, with `pending`
/// in the tracker.
pub open spec fn transition(
    phase: Phase,
    event: Event,
    pending: Option<PendingUpdate>,
    thresholds: ThresholdConfig,
) -> Outcome {
    match (phase, event) {
        (Phase::Idle, Event::NewBlock) => match pending {
            Some(update) => Outcome {
                step: StepView {
                    next: Phase::CheckingReceipt,
                    action: ActionView::LookupReceipt { tx_hash: update.tx_hash },
                    status: None,
                },
                pending,
            },
            None => compare_next(None),
        },
        (Phase::CheckingReceipt, Event::Receipt(lookup)) => match pending {
            Some(update) => match lookup {
                ReceiptLookup::Found => Outcome {
                    step: StepView {
                        next: Phase::ConfirmingUpdate,
                        action: ActionView::ReadContractPrice,
                        status: None,
                    },
                    pending,
                },
                ReceiptLookup::NotFound => settled(
                    transaction_status(StatusEvidence::NoReceipt, update.gas_price),
                    pending,
                ),
                ReceiptLookup::Failed(text) => settled(
                    transaction_status(StatusEvidence::ReceiptError(text), update.gas_price),
                    pending,
                ),
            },
            None => compare_next(None),
        },
        (Phase::ConfirmingUpdate, Event::ContractPrice(read)) => match pending {
            Some(update) => settled(
                transaction_status(StatusEvidence::Included(read), update.gas_price),
                pending,
            ),
            None => compare_next(None),
        },
        (Phase::ReadingNetworkPrice, Event::LatestBlock(block)) => match block {
            BlockRead::Confirmed(network_price) => Outcome {
                step: StepView {
                    next: Phase::ReadingContractPrice { network_price },
                    action: ActionView::ReadContractPrice,
                    status: None,
                },
                pending,
            },
            BlockRead::Pending => finished(
                Err(UpdaterErrorView::InvalidGasPrice(pending_block_text())),
                None,
                pending,
            ),
            BlockRead::Failed(text) => finished(
                Err(UpdaterErrorView::Provider(text@)),
                None,
                pending,
            ),
        },
        (Phase::ReadingContractPrice { network_price }, Event::ContractPrice(read)) => match read {
            Ok(contract_price) => if pending is Some {
                finished(Ok(Decision::PendingStillOutstanding), None, pending)
            } else {
                compared(network_price, contract_price, thresholds)
            },
            Err(text) => finished(Err(UpdaterErrorView::Provider(text@)), None, pending),
        },
        (Phase::Submitting { new_price }, Event::Submitted(submission)) => match submission {
            Ok(tx_hash) => finished(
                Ok(Decision::UpdateSubmitted(new_price)),
                None,
                Some(PendingUpdate { gas_price: new_price, tx_hash }),
            ),
            Err(text) => finished(Err(UpdaterErrorView::Account(text@)), None, pending),
        },
        _ => ignored(phase, pending),
    }
}

/// Clears the tracker unless the transaction is still pending, and says how
/// the cycle goes on.
fn settle(status: Result<TransactionStatus, UpdaterError>, tracker: &mut PendingTracker) -> (r:
    Step)
    ensures
        r@ == settled(status_view(status), old(tracker)@).step,
        final(tracker)@ == settled(status_view(status), old(tracker)@).pending,
{
    match status {
        Ok(TransactionStatus::Pending) => Step {
            next: Phase::Idle,
            action: Action::Finish(Ok(Decision::PendingStillOutstanding)),
            status: Some(Ok(TransactionStatus::Pending)),
        },
        other => {
            tracker.clear();
            Step {
                next: Phase::ReadingNetworkPrice,
                action: Action::ReadLatestBlock,
                status: Some(other),
            }
        },
    }
}

/// A step that ends the cycle with `result`.
fn finish(result: Result<Decision, UpdaterError>) -> (r: Step)
    ensures
        r.next == Phase::Idle,
        r.action == Action::Finish(result),
        r.status is None,
{
    Step { next: Phase::Idle, action: Action::Finish(result), status: None }
}

/// A step that goes on to the price comparison.
fn read_latest_block() -> (r: Step)
    ensures
        r@ == compare_next(None).step,
{
    Step { next: Phase::ReadingNetworkPrice, action: Action::ReadLatestBlock, status: None }
}

/// Takes one step of the cycle.
///
/// `phase` is the phase that the last step returned, `Phase::Idle` before
/// the first. `event` is what happened since: a new block, or the answer to
/// what the last step asked for. The result says what to do next and in
/// which phase the engine then is. An event that does not answer the
/// phase's question is ignored and changes nothing.
///
/// A submission is only ever asked for while the tracker is empty, and the
/// tracker is only filled by a submission that succeeded.
pub fn step(
    phase: Phase,
    event: Event,
    tracker: &mut PendingTracker,
    thresholds: &ThresholdConfig,
) -> (r: Step)
    ensures
        r@ == transition(phase, event, old(tracker)@, *thresholds).step,
        final(tracker)@ == transition(phase, event, old(tracker)@, *thresholds).pending,
{
    match (phase, event) {
        (Phase::Idle, Event::NewBlock) => match tracker.peek() {
            Some(update) => Step {
                next: Phase::CheckingReceipt,
                action: Action::LookupReceipt { tx_hash: update.tx_hash },
                status: None,
            },
            None => read_latest_block(),
        },
        (Phase::CheckingReceipt, Event::Receipt(lookup)) => match tracker.peek() {
            Some(update) => match lookup {
                ReceiptLookup::Found => Step {
                    next: Phase::ConfirmingUpdate,
                    action: Action::ReadContractPrice,
                    status: None,
                },
                ReceiptLookup::NotFound => {
                    let status = check_transaction_status(
                        StatusEvidence::NoReceipt,
                        update.gas_price,
                    );
                    settle(status, tracker)
                },
                ReceiptLookup::Failed(text) => {
                    let status = check_transaction_status(
                        StatusEvidence::ReceiptError(text),
                        update.gas_price,
                    );
                    settle(status, tracker)
                },
            },
            None => read_latest_block(),
        },
        (Phase::ConfirmingUpdate, Event::ContractPrice(read)) => match tracker.peek() {
            Some(update) => {
                let status = check_transaction_status(
                    StatusEvidence::Included(read),
                    update.gas_price,
                );
                settle(status, tracker)
            },
            None => read_latest_block(),
        },
        (Phase::ReadingNetworkPrice, Event::LatestBlock(block)) => match block {
            BlockRead::Confirmed(network_price) => Step {
                next: Phase::ReadingContractPrice { network_price },
                action: Action::ReadContractPrice,
                status: None,
            },
            BlockRead::Pending => finish(
                Err(
                    UpdaterError::InvalidGasPrice(
                        "Cannot get gas price from pending block".to_owned(),
                    ),
                ),
            ),
            BlockRead::Failed(text) => finish(Err(UpdaterError::Provider(text))),
        },
        (Phase::ReadingContractPrice { network_price }, Event::ContractPrice(read)) => match read {
            Ok(contract_price) => {
                if tracker.peek().is_some() {
                    finish(Ok(Decision::PendingStillOutstanding))
                } else {
                    match check_fee_update(
                        network_price,
                        contract_price,
                        thresholds.upward_threshold_pct,
                        thresholds.downward_threshold_pct,
                        thresholds.upward_buffer_pct,
                        thresholds.downward_buffer_pct,
                    ) {
                        Ok((true, new_price)) => Step {
                            next: Phase::Submitting { new_price },
                            action: Action::Submit { new_price },
                            status: None,
                        },
                        Ok((false, _)) => finish(Ok(Decision::NoUpdateNeeded)),
                        Err(error) => finish(Err(error)),
                    }
                }
            },
            Err(text) => finish(Err(UpdaterError::Provider(text))),
        },
        (Phase::Submitting { new_price }, Event::Submitted(submission)) => {
            match update_fee(new_price, submission, tracker) {
                Ok(()) => finish(Ok(Decision::UpdateSubmitted(new_price))),
                Err(error) => finish(Err(error)),
            }
        },
        (phase, _) => Step { next: phase, action: Action::Ignore, status: None },
    }
}

/// At most one update is in flight: a step asks for a submission only while
/// the tracker is empty, whatever the prices are, and leaves it empty.
pub proof fn lemma_submission_needs_empty_tracker(
    phase: Phase,
    event: Event,
    pending: Option<PendingUpdate>,
    thresholds: ThresholdConfig,
)
    requires
        transition(phase, event, pending, thresholds).step.action is Submit,
    ensures
        pending is None,
        transition(phase, event, pending, thresholds).pending is None,
        phase is ReadingContractPrice,
        transition(phase, event, pending, thresholds).step.next is Submitting,
{
}

/// A tracked update stays tracked until it resolves. A step takes it out of
/// the tracker only when its receipt could not be looked up, or when the
/// contract's price was read after its receipt was found. The one other
/// change is the recording of a submission that succeeded.
pub proof fn lemma_tracked_until_resolved(
    phase: Phase,
    event: Event,
    update: PendingUpdate,
    thresholds: ThresholdConfig,
)
    ensures
        ({
            let after = transition(phase, event, Some(update), thresholds).pending;
            ||| after == Some(update)
            ||| after is None && phase is CheckingReceipt && event matches Event::Receipt(
                ReceiptLookup::Failed(_),
            )
            ||| after is None && phase is ConfirmingUpdate && event is ContractPrice
            ||| after is Some && phase is Submitting && event matches Event::Submitted(Ok(_))
        }),
{
}

/// The tracker is filled by nothing but a submission that succeeded, and
/// then holds the submitted price with the transaction's hash.
pub proof fn lemma_tracker_filled_by_submission(
    phase: Phase,
    event: Event,
    pending: Option<PendingUpdate>,
    thresholds: ThresholdConfig,
)
    requires
        transition(phase, event, pending, thresholds).pending is Some,
        transition(phase, event, pending, thresholds).pending != pending,
    ensures
        phase matches Phase::Submitting { new_price } && event matches Event::Submitted(
            Ok(tx_hash),
        ) && transition(phase, event, pending, thresholds).pending == Some(
            PendingUpdate { gas_price: new_price, tx_hash },
        ),
{
}

/// While the tracked transaction has no receipt, the cycle ends at once: the
/// update stays tracked, no price is read or compared, nothing is submitted.
pub proof fn lemma_outstanding_update_ends_cycle(
    update: PendingUpdate,
    thresholds: ThresholdConfig,
)
    ensures
        transition(
            Phase::CheckingReceipt,
            Event::Receipt(ReceiptLookup::NotFound),
            Some(update),
            thresholds,
        ) == finished(
            Ok(Decision::PendingStillOutstanding),
            Some(Ok(TransactionStatus::Pending)),
            Some(update),
        ),
{
}

/// Once the contract holds the price that the tracked transaction set, the
/// update is confirmed: the tracker is cleared and the cycle goes on to a
/// fresh comparison of the prices.
pub proof fn lemma_confirmation_clears_tracker(
    update: PendingUpdate,
    contract_price: U256,
    thresholds: ThresholdConfig,
)
    requires
        contract_price@ == update.gas_price@,
    ensures
        transition(
            Phase::ConfirmingUpdate,
            Event::ContractPrice(Ok(contract_price)),
            Some(update),
            thresholds,
        ) == compare_next(Some(Ok(TransactionStatus::Confirmed))),
{
}

/// Once the tracked transaction has a receipt, reading the contract's price
/// clears the tracker whatever came of the read, and the cycle goes on to
/// the comparison.
pub proof fn lemma_included_update_is_cleared(
    update: PendingUpdate,
    read: Result<U256, String>,
    thresholds: ThresholdConfig,
)
    ensures
        transition(Phase::ConfirmingUpdate, Event::ContractPrice(read), Some(update), thresholds)
            == compare_next(
            Some(
                Ok(
                    if read matches Ok(price) && price@ == update.gas_price@ {
                        TransactionStatus::Confirmed
                    } else {
                        TransactionStatus::Failed
                    },
                ),
            ),
        ),
{
}

/// A receipt lookup that failed clears the tracker, so that the agent is not
/// stuck on it, and the cycle goes on to the comparison.
pub proof fn lemma_failed_lookup_clears_tracker(
    update: PendingUpdate,
    text: String,
    thresholds: ThresholdConfig,
)
    ensures
        transition(
            Phase::CheckingReceipt,
            Event::Receipt(ReceiptLookup::Failed(text)),
            Some(update),
            thresholds,
        ) == compare_next(Some(Err(UpdaterErrorView::Provider(text@)))),
{
}

/// With the network's price inside the band the cycle ends without an
/// update: nothing is submitted and the tracker stays empty.
pub proof fn lemma_inside_band_submits_nothing(
    network_price: U256,
    contract_price: U256,
    thresholds: ThresholdConfig,
)
    requires
        network_price@ <= u128::MAX,
        contract_price@ <= u128::MAX,
        thresholds.downward_bound(contract_price@) <= network_price@,
        network_price@ <= thresholds.upward_bound(contract_price@),
    ensures
        transition(
            Phase::ReadingContractPrice { network_price },
            Event::ContractPrice(Ok(contract_price)),
            None,
            thresholds,
        ) == finished(Ok(Decision::NoUpdateNeeded), None, None),
{
}

/// With the network's price above the band and nothing tracked, the engine
/// asks for the submission of the network's price scaled by the upward
/// buffer.
pub proof fn lemma_above_band_submits(
    network_price: U256,
    contract_price: U256,
    thresholds: ThresholdConfig,
)
    requires
        network_price@ <= u128::MAX,
        contract_price@ <= u128::MAX,
        network_price@ > thresholds.upward_bound(contract_price@),
        percent_of(network_price@, thresholds.upward_buffer_pct as nat) <= u128::MAX,
    ensures
        transition(
            Phase::ReadingContractPrice { network_price },
            Event::ContractPrice(Ok(contract_price)),
            None,
            thresholds,
        ).step.action matches ActionView::Submit { new_price } && new_price@ == percent_of(
            network_price@,
            thresholds.upward_buffer_pct as nat,
        ),
{
}

/// With the network's price below the band, and not above its upper edge,
/// and nothing tracked, the engine asks for the submission of the network's
/// price scaled by the downward buffer.
pub proof fn lemma_below_band_submits(
    network_price: U256,
    contract_price: U256,
    thresholds: ThresholdConfig,
)
    requires
        network_price@ <= u128::MAX,
        contract_price@ <= u128::MAX,
        network_price@ < thresholds.downward_bound(contract_price@),
        network_price@ <= thresholds.upward_bound(contract_price@),
        percent_of(network_price@, thresholds.downward_buffer_pct as nat) <= u128::MAX,
    ensures
        transition(
            Phase::ReadingContractPrice { network_price },
            Event::ContractPrice(Ok(contract_price)),
            None,
            thresholds,
        ).step.action matches ActionView::Submit { new_price } && new_price@ == percent_of(
            network_price@,
            thresholds.downward_buffer_pct as nat,
        ),
{
}

/// A block that is announced while a cycle runs starts no second cycle: the
/// event is ignored and the cycle goes on where it stood.
pub proof fn lemma_cycles_do_not_overlap(
    phase: Phase,
    pending: Option<PendingUpdate>,
    thresholds: ThresholdConfig,
)
    requires
        phase != Phase::Idle,
    ensures
        transition(phase, Event::NewBlock, pending, thresholds) == ignored(phase, pending),
{
}

/// A new block starts a cycle with the receipt lookup if an update is
/// tracked, and with the reading of the latest block if none is.
pub proof fn lemma_cycle_starts_with_the_tracked_update(
    pending: Option<PendingUpdate>,
    thresholds: ThresholdConfig,
)
    ensures
        transition(Phase::Idle, Event::NewBlock, pending, thresholds).step.action == (match pending {
            Some(update) => ActionView::LookupReceipt { tx_hash: update.tx_hash },
            None => ActionView::ReadLatestBlock,
        }),
        transition(Phase::Idle, Event::NewBlock, pending, thresholds).pending == pending,
{
}

/// How far a cycle has come: every phase has its place in the order in which
/// a cycle passes through them.
pub open spec fn progress(phase: Phase) -> nat {
    match phase {
        Phase::Idle => 0,
        Phase::CheckingReceipt => 1,
        Phase::ConfirmingUpdate => 2,
        Phase::ReadingNetworkPrice => 3,
        Phase::ReadingContractPrice { .. } => 4,
        Phase::Submitting { .. } => 5,
    }
}

/// A cycle never goes back: a step is ignored and changes nothing, or ends
/// the cycle, or takes it to a later phase. So a cycle ends after six
/// answers at most.
pub proof fn lemma_cycle_moves_forward(
    phase: Phase,
    event: Event,
    pending: Option<PendingUpdate>,
    thresholds: ThresholdConfig,
)
    ensures
        ({
            let outcome = transition(phase, event, pending, thresholds);
            ||| outcome == ignored(phase, pending)
            ||| outcome.step.action is Finish && outcome.step.next == Phase::Idle
            ||| progress(outcome.step.next) > progress(phase)
        }),
{
}

/// What one step adds to a count: one if it asks for a submission.
pub open spec fn submits(outcome: Outcome) -> nat {
    if outcome.step.action is Submit {
        1
    } else {
        0
    }
}

/// How many submissions the engine asks for while it is fed `events`, up to
/// the end of the cycle that it is in.
pub open spec fn submissions_in_cycle(
    phase: Phase,
    pending: Option<PendingUpdate>,
    events: Seq<Event>,
    thresholds: ThresholdConfig,
) -> nat
    decreases events.len(),
{
    if events.len() == 0 {
        0
    } else {
        let outcome = transition(phase, events[0], pending, thresholds);
        if outcome.step.action is Finish {
            0
        } else {
            submits(outcome) + submissions_in_cycle(
                outcome.step.next,
                outcome.pending,
                events.skip(1),
                thresholds,
            )
        }
    }
}

/// A cycle asks for at most one submission, whatever it is fed, and for none
/// once it waits for a submission's outcome.
pub proof fn lemma_one_submission_per_cycle(
    phase: Phase,
    pending: Option<PendingUpdate>,
    events: Seq<Event>,
    thresholds: ThresholdConfig,
)
    ensures
        submissions_in_cycle(phase, pending, events, thresholds) <= 1,
        phase is Submitting ==> submissions_in_cycle(phase, pending, events, thresholds) == 0,
    decreases events.len(),
{
    if events.len() > 0 {
        let outcome = transition(phase, events[0], pending, thresholds);
        lemma_one_submission_per_cycle(
            outcome.step.next,
            outcome.pending,
            events.skip(1),
            thresholds,
        );
    }
}

/// How many times the tracker is cleared while the engine is fed `events`,
/// up to the end of the cycle that it is in.
pub open spec fn clears_in_cycle(
    phase: Phase,
    pending: Option<PendingUpdate>,
    events: Seq<Event>,
    thresholds: ThresholdConfig,
) -> nat
    decreases events.len(),
{
    if events.len() == 0 {
        0
    } else {
        let outcome = transition(phase, events[0], pending, thresholds);
        let here: nat = if pending is Some && outcome.pending is None {
            1
        } else {
            0
        };
        if outcome.step.action is Finish {
            here
        } else {
            here + clears_in_cycle(
                outcome.step.next,
                outcome.pending,
                events.skip(1),
                thresholds,
            )
        }
    }
}

/// A cycle clears the tracker at most once, and never when it is empty.
pub proof fn lemma_one_clear_per_cycle(
    phase: Phase,
    pending: Option<PendingUpdate>,
    events: Seq<Event>,
    thresholds: ThresholdConfig,
)
    ensures
        clears_in_cycle(phase, pending, events, thresholds) <= 1,
        pending is None ==> clears_in_cycle(phase, pending, events, thresholds) == 0,
    decreases events.len(),
{
    if events.len() > 0 {
        let outcome = transition(phase, events[0], pending, thresholds);
        lemma_one_clear_per_cycle(outcome.step.next, outcome.pending, events.skip(1), thresholds);
    }
}

/// A cycle that clears the tracker after a confirmation asks for a
/// submission only afterwards, from the fresh comparison, and for one at
/// most: after the step that confirms, the rest of the cycle clears nothing
/// more.
pub proof fn lemma_confirmation_is_counted_once(
    update: PendingUpdate,
    contract_price: U256,
    rest: Seq<Event>,
    thresholds: ThresholdConfig,
)
    requires
        contract_price@ == update.gas_price@,
    ensures
        clears_in_cycle(
            Phase::ConfirmingUpdate,
            Some(update),
            seq![Event::ContractPrice(Ok(contract_price))] + rest,
            thresholds,
        ) == 1,
        submissions_in_cycle(
            Phase::ConfirmingUpdate,
            Some(update),
            seq![Event::ContractPrice(Ok(contract_price))] + rest,
            thresholds,
        ) <= 1,
{
    let events = seq![Event::ContractPrice(Ok(contract_price))] + rest;
    assert(events[0] == Event::ContractPrice(Ok(contract_price)));
    assert(events.skip(1) =~= rest);
    lemma_confirmation_clears_tracker(update, contract_price, thresholds);
    lemma_one_clear_per_cycle(Phase::ReadingNetworkPrice, None, rest, thresholds);
    lemma_one_submission_per_cycle(Phase::ConfirmingUpdate, Some(update), events, thresholds);
}

} // verus!
