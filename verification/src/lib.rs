//! Decision core of a fee-maintenance agent for a privacy pool contract.
//!
//! The agent watches a chain for new blocks, compares the network's gas
//! price with the price cached in the contract and, when the two have
//! drifted apart, submits a transaction that sets a new price. This crate
//! holds the part that decides: the percentage arithmetic, the threshold
//! comparison, the tracking of the one update that may be in flight, and the
//! routing of what the block subscription delivers. Every network call is
//! left to the program around it, which performs what the engine asks for
//! and hands back what it got.

pub mod calls;
pub mod engine;
pub mod json;
pub mod percent;
pub mod subscription;
pub mod thresholds;
pub mod tracker;
pub mod u256;
pub mod updater;
