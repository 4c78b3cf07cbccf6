//! What the block subscription delivers, and what the agent does with it.
//!
//! The node answers a subscription with JSON-RPC frames: one that confirms
//! the subscription, then one for every new block. Each new block runs
//! exactly one reconciliation cycle. A ping is answered, so that the
//! connection stays open. A close, or a failure of the transport, ends the
//! run. Everything else is passed over: a frame that cannot be read is never
//! a reason to stop.

use crate::json::{get, is_text, json_parsed, member, parse, JsonModel};
use vstd::prelude::*;

verus! {

/// What a text frame of the subscription says.
#[derive(Debug, Clone, Copy, PartialEq, Eq, Structural)]
pub enum Notification {
    /// A new block was announced.
    NewHead,
    /// The node has accepted the subscription.
    SubscriptionConfirmed,
    /// The node reports an error.
    RpcError,
    /// Nothing that concerns the agent, or nothing that can be read.
    Unrelated,
}

/// What the subscription delivered.
#[derive(Debug, PartialEq, Eq)]
pub enum Incoming {
    /// A text frame.
    Text(String),
    /// A ping with its payload.
    Ping(Vec<u8>),
    /// The node closed the connection.
    Close,
    /// Any other frame.
    Other,
    /// The transport failed; the text says how.
    Failure(String),
}

/// What the loop does about what was delivered.
#[derive(Debug, PartialEq, Eq)]
pub enum LoopAction {
    /// Run one reconciliation cycle.
    Reconcile,
    /// Answer with a pong that carries this payload.
    Pong(Vec<u8>),
    /// Report that the subscription stands.
    SubscriptionConfirmed,
    /// Report the error that the node sent.
    RpcError,
    /// Do nothing.
    Skip,
    /// End the run: the connection is closed.
    Closed,
    /// End the run: the transport failed, with this text.
    Failed(String),
}

/// A `LoopAction` with its payloads as sequences.
pub enum LoopActionView {
    Reconcile,
    Pong(Seq<u8>),
    SubscriptionConfirmed,
    RpcError,
    Skip,
    Closed,
    Failed(Seq<char>),
}

impl View for LoopAction {
    type V = LoopActionView;

    open spec fn view(&self) -> LoopActionView {
        match self {
            LoopAction::Reconcile => LoopActionView::Reconcile,
            LoopAction::Pong(payload) => LoopActionView::Pong(payload@),
            LoopAction::SubscriptionConfirmed => LoopActionView::SubscriptionConfirmed,
            LoopAction::RpcError => LoopActionView::RpcError,
            LoopAction::Skip => LoopActionView::Skip,
            LoopAction::Closed => LoopActionView::Closed,
            LoopAction::Failed(text) => LoopActionView::Failed(text@),
        }
    }
}

/// Method name of the frames that announce a block.
pub open spec fn new_heads_method() -> Seq<char> {
    "starknet_subscriptionNewHeads"@
}

/// What a frame says, from what was found in it. `method` is `None` for a
/// frame without a method, and otherwise says whether the method is the one
/// that announces blocks. A frame with a method is a block's announcement,
/// if it has parameters too, or nothing; only a frame without one can
/// confirm the subscription or report an error, in this order.
pub open spec fn notification_from(
    method: Option<bool>,
    has_params: bool,
    has_result: bool,
    has_error: bool,
) -> Notification {
    match method {
        Some(announces_block) => if announces_block && has_params {
            Notification::NewHead
        } else {
            Notification::Unrelated
        },
        None => if has_result {
            Notification::SubscriptionConfirmed
        } else if has_error {
            Notification::RpcError
        } else {
            Notification::Unrelated
        },
    }
}

/// What a document says; a text that is no JSON says nothing.
pub open spec fn notification_of(document: Option<JsonModel>) -> Notification {
    match document {
        Some(frame) => notification_from(
            match member(frame, "method"@) {
                Some(method) => Some(method == JsonModel::Text(new_heads_method())),
                None => None,
            },
            member(frame, "params"@) is Some,
            member(frame, "result"@) is Some,
            member(frame, "error"@) is Some,
        ),
        None => Notification::Unrelated,
    }
}

/// Says what a frame is, from what was found in it.
pub fn route(method: Option<bool>, has_params: bool, has_result: bool, has_error: bool) -> (r:
    Notification)
    ensures
        r == notification_from(method, has_params, has_result, has_error),
{
    match method {
        Some(announces_block) => {
            if announces_block && has_params {
                Notification::NewHead
            } else {
                Notification::Unrelated
            }
        },
        None => {
            if has_result {
                Notification::SubscriptionConfirmed
            } else if has_error {
                Notification::RpcError
            } else {
                Notification::Unrelated
            }
        },
    }
}

/// Reads a text frame and says what it is. A text that is no JSON is
/// unrelated.
pub fn classify(text: &str) -> (r: Notification)
    ensures
        r == notification_of(json_parsed(text@)),
{
    match parse(text) {
        Some(frame) => {
            let method: Option<bool> = match get(&frame, "method") {
                Some(method) => Some(is_text(method, "starknet_subscriptionNewHeads")),
                None => None,
            };
            let has_params: bool = get(&frame, "params").is_some();
            let has_result: bool = get(&frame, "result").is_some();
            let has_error: bool = get(&frame, "error").is_some();
            route(method, has_params, has_result, has_error)
        },
        None => Notification::Unrelated,
    }
}

/// What the loop does about a text frame that says `notification`.
pub open spec fn action_for(notification: Notification) -> LoopActionView {
    match notification {
        Notification::NewHead => LoopActionView::Reconcile,
        Notification::SubscriptionConfirmed => LoopActionView::SubscriptionConfirmed,
        Notification::RpcError => LoopActionView::RpcError,
        Notification::Unrelated => LoopActionView::Skip,
    }
}

/// The loop's rule: what it does about `message`.
pub open spec fn loop_action(message: Incoming) -> LoopActionView {
    match message {
        Incoming::Text(text) => action_for(notification_of(json_parsed(text@))),
        Incoming::Ping(payload) => LoopActionView::Pong(payload@),
        Incoming::Close => LoopActionView::Closed,
        Incoming::Other => LoopActionView::Skip,
        Incoming::Failure(text) => LoopActionView::Failed(text@),
    }
}

/// Says what the loop does about a text frame that says `notification`.
pub fn react(notification: Notification) -> (r: LoopAction)
    ensures
        r@ == action_for(notification),
{
    match notification {
        Notification::NewHead => LoopAction::Reconcile,
        Notification::SubscriptionConfirmed => LoopAction::SubscriptionConfirmed,
        Notification::RpcError => LoopAction::RpcError,
        Notification::Unrelated => LoopAction::Skip,
    }
}

/// Says what the loop does about `message`: a cycle for every announced
/// block and for nothing else, a pong with the ping's payload for every
/// ping, the end of the run for a close or a failure.
pub fn on_message(message: Incoming) -> (r: LoopAction)
    ensures
        r@ == loop_action(message),
{
    match message {
        Incoming::Text(text) => react(classify(text.as_str())),
        Incoming::Ping(payload) => LoopAction::Pong(payload),
        Incoming::Close => LoopAction::Closed,
        Incoming::Other => LoopAction::Skip,
        Incoming::Failure(text) => LoopAction::Failed(text),
    }
}

/// A cycle is run for the announcements of blocks and for nothing else.
pub proof fn lemma_cycle_only_for_new_heads(message: Incoming)
    ensures
        loop_action(message) is Reconcile <==> (message matches Incoming::Text(text)
            && notification_of(json_parsed(text@)) == Notification::NewHead),
{
}

/// A text that cannot be read never ends the run and never starts a cycle.
pub proof fn lemma_unreadable_text_is_skipped(text: String)
    requires
        json_parsed(text@) is None,
    ensures
        loop_action(Incoming::Text(text)) == LoopActionView::Skip,
{
}

} // verus!
