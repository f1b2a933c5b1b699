//! Types and errors of the lending-pool contract.
use vstd::prelude::*;
use crate::AccountId;

verus! {

/// Errors of the lending-pool contract, in the order of their error codes (from 1).
#[derive(Clone, Copy, Debug, PartialEq, Eq, Structural)]
pub enum LendingPoolError {
    AlreadyInitialized,
    NotInitialized,
    InvalidAmount,
    BelowMinDeposit,
    PoolFull,
    InsufficientShares,
    ZeroSupply,
    InsufficientLiquidity,
    Overflow,
    PoolTooSmall,
    EmptyInput,
    AllocationNotFound,
    AlreadyHarvested,
    MarketNotResolved,
    MarketCallFailed,
    Unauthorized,
    InvalidBps,
    InvalidConfig,
}

/// Pool-wide configuration.
#[derive(Clone, Copy, Debug, PartialEq, Eq, Structural)]
pub struct PoolConfig {
    pub admin: AccountId,
    /// Recipient of the protocol's cut of realized profits.
    pub treasury: AccountId,
    /// Token in which deposits, allocations and yield are denominated.
    pub stake_token: AccountId,
    /// Factory used to resolve a call id to its market.
    pub prediction_market_factory: AccountId,
    /// Outcome manager used to claim settled winnings.
    pub outcome_manager: AccountId,
    /// Smallest single deposit accepted.
    pub min_deposit: i128,
    /// Hard cap on total value locked.
    pub max_pool_size: i128,
    /// Minimum total value locked before capital is allocated.
    pub min_allocation_pool_size: i128,
    /// Per-market allocation cap, in basis points of TVL.
    pub max_allocation_bps_per_market: u32,
    /// Protocol's cut of realized profit, in basis points.
    pub protocol_fee_bps: u32,
    /// Minimum edge required before allocating to a market, in basis points.
    pub edge_threshold_bps: u32,
}

/// An open stake the pool holds in a prediction market.
#[derive(Clone, Copy, Debug, PartialEq, Eq, Structural)]
pub struct Allocation {
    pub call_id: u64,
    pub market_address: AccountId,
    /// The outcome position (1 or 2) the pool staked on.
    pub position: u32,
    /// Principal staked.
    pub amount: i128,
    /// Whether the allocation's resolution has been processed.
    pub settled: bool,
    /// Whether the pool's position matched the resolved outcome.
    pub won: bool,
    /// Gross tokens recovered from the claim.
    pub payout: i128,
    pub created_at: u64,
}

/// One realized profit-or-loss data point.
#[derive(Clone, Copy, Debug, PartialEq, Eq, Structural)]
pub struct YieldEvent {
    pub timestamp: u64,
    /// Net yield of the settled allocation, after the protocol fee.
    pub net_yield: i128,
}

/// Read-only performance snapshot of the pool.
#[derive(Clone, Copy, Debug, PartialEq, Eq, Structural)]
pub struct PoolStats {
    /// Lifetime sum of all deposits.
    pub total_deposited: i128,
    /// Liquid balance plus capital locked in open allocations.
    pub total_value_locked: i128,
    /// Lifetime net yield credited to the pool.
    pub total_yield_earned: i128,
    /// Annualized rolling 7-day yield, in basis points.
    pub current_apy_bps: i128,
    pub total_lp_shares: i128,
    /// Token balance held directly by the pool.
    pub liquid_balance: i128,
    /// Principal staked in unsettled markets.
    pub total_allocated_locked: i128,
    pub open_market_count: u32,
    pub min_deposit: i128,
    pub max_pool_size: i128,
    pub protocol_fee_bps: u32,
    pub max_allocation_bps_per_market: u32,
}

/// Caller-supplied per-market input to a capital allocation.
#[derive(Clone, Copy, Debug, PartialEq, Eq, Structural)]
pub struct MarketAllocationInput {
    pub call_id: u64,
    /// Estimated probability (0..=10_000) that outcome position 1 wins.
    pub oracle_probability_bps: u32,
}

/// Outcome of considering a single market during a capital allocation.
#[derive(Clone, Copy, Debug, PartialEq, Eq, Structural)]
pub enum AllocationOutcome {
    /// The pool staked the amount on the position.
    Allocated(i128, u32),
    /// The edge was below the threshold.
    SkippedEdgeTooSmall,
    /// The pool already has an open allocation for this call.
    SkippedAlreadyOpen,
    /// The market has more than two outcomes.
    SkippedNotBinary,
    /// The market is closed, resolved or otherwise unavailable.
    SkippedMarketUnavailable,
    /// The market's stake token is not the pool's.
    SkippedTokenMismatch,
    /// The oracle probability was outside `0..=10_000`.
    SkippedInvalidOracleProbability,
    /// The amount was zero or the pool ran out of liquid capital.
    SkippedInsufficientLiquidity,
    /// The market rejected the stake.
    SkippedStakeRejected,
}

/// Events the lending pool publishes.
#[derive(Clone, Copy, Debug, PartialEq, Eq, Structural)]
pub enum LendingPoolEvent {
    Deposited { user: AccountId, amount: i128, lp_shares_minted: i128 },
    Withdrawn { user: AccountId, lp_shares_burned: i128, amount_out: i128 },
    CapitalAllocated { call_id: u64, market_address: AccountId, position: u32, amount: i128 },
    YieldHarvested { call_id: u64, won: bool, gross_change: i128, protocol_fee: i128, net_yield: i128 },
}

/// Publish a deposit.
pub fn emit_deposited(events: &mut Vec<LendingPoolEvent>, user: AccountId, amount: i128, lp_shares_minted: i128)
    ensures
        final(events)@ == old(events)@.push(LendingPoolEvent::Deposited { user, amount, lp_shares_minted }),
{
    events.push(LendingPoolEvent::Deposited { user, amount, lp_shares_minted });
}

/// Publish a withdrawal.
pub fn emit_withdrawn(events: &mut Vec<LendingPoolEvent>, user: AccountId, lp_shares_burned: i128, amount_out: i128)
    ensures
        final(events)@ == old(events)@.push(LendingPoolEvent::Withdrawn { user, lp_shares_burned, amount_out }),
{
    events.push(LendingPoolEvent::Withdrawn { user, lp_shares_burned, amount_out });
}

/// Publish a capital allocation to a market.
pub fn emit_capital_allocated(
    events: &mut Vec<LendingPoolEvent>,
    call_id: u64,
    market_address: AccountId,
    position: u32,
    amount: i128,
)
    ensures
        final(events)@ == old(events)@.push(
            LendingPoolEvent::CapitalAllocated { call_id, market_address, position, amount },
        ),
{
    events.push(LendingPoolEvent::CapitalAllocated { call_id, market_address, position, amount });
}

/// Publish a harvested yield.
pub fn emit_yield_harvested(
    events: &mut Vec<LendingPoolEvent>,
    call_id: u64,
    won: bool,
    gross_change: i128,
    protocol_fee: i128,
    net_yield: i128,
)
    ensures
        final(events)@ == old(events)@.push(
            LendingPoolEvent::YieldHarvested { call_id, won, gross_change, protocol_fee, net_yield },
        ),
{
    events.push(LendingPoolEvent::YieldHarvested { call_id, won, gross_change, protocol_fee, net_yield });
}

} // verus!
