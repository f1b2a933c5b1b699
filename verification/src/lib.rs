//! Verified core logic of a suite of Soroban prediction-market contracts.
//!
//! Every contract's ledger storage is modelled as a plain state value, and each
//! contract entry point is a verified function from that state (and the
//! inputs the host supplies, such as the ledger time) to the next state, its
//! result and the events it emits.
use vstd::prelude::*;

pub mod call_registry;
pub mod charity;
pub mod dutch_auction;
pub mod gas_station;
pub mod governance;
pub mod index_fund;
pub mod lending_pool;
pub mod oracle_marketplace;
pub mod oracle_relay;
pub mod outcome_manager;
pub mod parlay;
pub mod arith;
pub mod crypto;
pub mod factory;
pub mod lists;
pub mod orderbook;
pub mod prediction_market;

verus! {

/// Identity of an on-chain account or contract as the verified logic sees it:
/// a number, compared, ordered and used as a key.
pub type AccountId = u64;

} // verus!
