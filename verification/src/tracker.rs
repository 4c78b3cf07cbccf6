//! The one update that may be in flight.

use crate::u256::U256;
use vstd::prelude::*;

verus! {

/// An update that was submitted and is neither confirmed nor given up.
#[derive(Debug, Clone, Copy, PartialEq, Eq, Structural)]
pub struct PendingUpdate {
    /// The price that the transaction sets.
    pub gas_price: U256,
    /// The transaction that sets it.
    pub tx_hash: U256,
}

/// Remembers at most one pending update. It lives in memory only: a restart
/// forgets it.
#[derive(Debug, Clone, Copy, PartialEq, Eq)]
pub struct PendingTracker {
    slot: Option<PendingUpdate>,
}

impl View for PendingTracker {
    type V = Option<PendingUpdate>;

    closed spec fn view(&self) -> Option<PendingUpdate> {
        self.slot
    }
}

impl PendingTracker {
    /// A tracker that holds nothing.
    pub fn new() -> (r: Self)
        ensures
            r@ is None,
    {
        PendingTracker { slot: None }
    }

    /// The tracked update, if there is one. Nothing changes.
    pub fn peek(&self) -> (r: Option<PendingUpdate>)
        ensures
            r == self@,
    {
        self.slot
    }

    /// Forgets the tracked update.
    pub fn clear(&mut self)
        ensures
            final(self)@ is None,
    {
        self.slot = None;
    }

    /// Tracks `update` in place of whatever was tracked before.
    pub fn set(&mut self, update: PendingUpdate)
        ensures
            final(self)@ == Some(update),
    {
        self.slot = Some(update);
    }
}

} // verus!
