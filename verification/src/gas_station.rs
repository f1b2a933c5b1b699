//! Types and errors of the gas-station (transaction sponsorship) contract.
use vstd::prelude::*;
use crate::AccountId;

verus! {

/// Errors of the gas-station contract, in the order of their error codes (from 1).
#[derive(Clone, Copy, Debug, PartialEq, Eq, Structural)]
pub enum GasStationError {
    /// A function requiring initialization was called before `initialize`.
    NotInitialized,
    /// `initialize` was called on an already-initialized contract.
    AlreadyInitialized,
    /// The caller-supplied admin address does not match the stored admin.
    Unauthorized,
    /// `winning_cut_bps` exceeds 10 000 (100%).
    InvalidWinningCutBps,
    /// `max_gas_xlm` is not positive, or would make the effective stake negative.
    InvalidGasAmount,
    /// The user has no active sponsorship.
    UserNotSponsored,
    /// This call already had its sponsored payout processed.
    CallAlreadyProcessed,
    /// The staker's winning stake is 0 or negative.
    InvalidWinningStake,
    /// An arithmetic operation overflowed.
    Overflow,
    /// A refill was requested with a non-positive amount.
    InvalidRefillAmount,
}

/// A user's active gas-sponsorship agreement with the gas station.
#[derive(Clone, Copy, Debug, PartialEq, Eq, Structural)]
pub struct SponsorshipInfo {
    /// Upper bound on the gas cost the gas station covers for this user.
    pub max_gas_xlm: i128,
    /// Basis points of the sponsored payout the gas station keeps on a win.
    pub winning_cut_bps: u32,
    /// Ledger timestamp at which the sponsorship was registered.
    pub sponsored_at: u64,
    /// Whether the sponsorship is active.
    pub active: bool,
}

/// Running totals of the sponsorship program.
#[derive(Clone, Copy, Debug, PartialEq, Eq, Structural)]
pub struct GasStationMetrics {
    /// Count of sponsorship registrations.
    pub total_transactions_sponsored: u64,
    /// Cumulative estimated gas committed across all sponsorships.
    pub total_xlm_spent: i128,
    /// Cumulative winning cuts collected.
    pub total_winnings_collected: i128,
    /// `total_winnings_collected - total_xlm_spent`.
    pub net_profit_loss: i128,
}

impl GasStationMetrics {
    /// Metrics of a program that has sponsored nothing yet: every total is zero.
    pub fn zero() -> (m: Self)
        ensures
            m.total_transactions_sponsored == 0,
            m.total_xlm_spent == 0,
            m.total_winnings_collected == 0,
            m.net_profit_loss == 0,
    {
        GasStationMetrics {
            total_transactions_sponsored: 0,
            total_xlm_spent: 0,
            total_winnings_collected: 0,
            net_profit_loss: 0,
        }
    }
}

/// Events the gas station publishes.
#[derive(Clone, Copy, Debug, PartialEq, Eq, Structural)]
pub enum GasStationEvent {
    Initialized { admin: AccountId, xlm_token: AccountId },
    AdminChanged { new_admin: AccountId },
    SponsorshipRegistered { user: AccountId, max_gas_xlm: i128, winning_cut_bps: u32 },
    SponsorshipRevoked { user: AccountId },
    SponsoredPayoutClaimed { call_id: u64, user: AccountId, gross_payout: i128, cut: i128, user_amount: i128 },
    PoolRefilled { amount: i128, new_balance: i128 },
}

/// Publish the initialization of the gas station.
pub fn emit_gas_station_initialized(events: &mut Vec<GasStationEvent>, admin: AccountId, xlm_token: AccountId)
    ensures
        final(events)@ == old(events)@.push(GasStationEvent::Initialized { admin, xlm_token }),
{
    events.push(GasStationEvent::Initialized { admin, xlm_token });
}

/// Publish a change of admin.
pub fn emit_admin_changed(events: &mut Vec<GasStationEvent>, new_admin: AccountId)
    ensures
        final(events)@ == old(events)@.push(GasStationEvent::AdminChanged { new_admin }),
{
    events.push(GasStationEvent::AdminChanged { new_admin });
}

/// Publish a new sponsorship.
pub fn emit_sponsorship_registered(
    events: &mut Vec<GasStationEvent>,
    user: AccountId,
    max_gas_xlm: i128,
    winning_cut_bps: u32,
)
    ensures
        final(events)@ == old(events)@.push(
            GasStationEvent::SponsorshipRegistered { user, max_gas_xlm, winning_cut_bps },
        ),
{
    events.push(GasStationEvent::SponsorshipRegistered { user, max_gas_xlm, winning_cut_bps });
}

/// Publish the revocation of a sponsorship.
pub fn emit_sponsorship_revoked(events: &mut Vec<GasStationEvent>, user: AccountId)
    ensures
        final(events)@ == old(events)@.push(GasStationEvent::SponsorshipRevoked { user }),
{
    events.push(GasStationEvent::SponsorshipRevoked { user });
}

/// Publish a processed sponsored payout.
pub fn emit_sponsored_payout_claimed(
    events: &mut Vec<GasStationEvent>,
    call_id: u64,
    user: AccountId,
    gross_payout: i128,
    cut: i128,
    user_amount: i128,
)
    ensures
        final(events)@ == old(events)@.push(
            GasStationEvent::SponsoredPayoutClaimed { call_id, user, gross_payout, cut, user_amount },
        ),
{
    events.push(GasStationEvent::SponsoredPayoutClaimed { call_id, user, gross_payout, cut, user_amount });
}

/// Publish a refill of the gas pool.
pub fn emit_pool_refilled(events: &mut Vec<GasStationEvent>, amount: i128, new_balance: i128)
    ensures
        final(events)@ == old(events)@.push(GasStationEvent::PoolRefilled { amount, new_balance }),
{
    events.push(GasStationEvent::PoolRefilled { amount, new_balance });
}

} // verus!
