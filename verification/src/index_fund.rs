//! Types and errors of the index-fund contract.
use vstd::prelude::*;
use crate::AccountId;

verus! {

/// Errors of the index-fund contract, in the order of their error codes (from 1).
#[derive(Clone, Copy, Debug, PartialEq, Eq, Structural)]
pub enum IndexFundError {
    AlreadyInitialized,
    NotInitialized,
    Unauthorized,
    InsufficientLiquidity,
    InvalidAmount,
    RebalanceTooFrequent,
    MarketNotFound,
    NavCalculationError,
    ZeroSupply,
    FeeTooHigh,
    IndexFull,
    MarketNotResolved,
    TransferFailed,
}

/// A single market held by the index fund.
#[derive(Clone, Copy, Debug, PartialEq, Eq, Structural)]
pub struct IndexConstituent {
    pub call_id: u64,
    pub weight_bps: u32,
    pub stake_amount: i128,
    pub outcome: u32,
    pub market_address: AccountId,
}

/// Performance snapshot of the index fund.
#[derive(Clone, Copy, Debug, PartialEq, Eq, Structural)]
pub struct IndexPerformance {
    pub nav: i128,
    pub total_aum: i128,
    pub total_index_supply: i128,
    pub total_markets: u32,
}

/// Read-only snapshot of a market's state.
#[derive(Clone, Copy, Debug, PartialEq, Eq, Structural)]
pub struct MarketSnapshot {
    pub call_id: u64,
    pub pool_size: i128,
    pub majority_outcome: u32,
    pub is_resolved: bool,
}

} // verus!
