//! Types and errors of the oracle-marketplace contract.
use vstd::prelude::*;
use crate::AccountId;

verus! {

/// Errors of the oracle-marketplace contract, in the order of their error codes (from 1).
#[derive(Clone, Copy, Debug, PartialEq, Eq, Structural)]
pub enum OracleMarketplaceError {
    AlreadyInitialized,
    NotInitialized,
    Unauthorized,
    OracleAlreadyRegistered,
    OracleNotFound,
    OracleNotActive,
    InsufficientStake,
    CooldownActive,
    InvalidFee,
    CallNotFound,
    OracleNotSelectedForCall,
    AlreadyRated,
    InvalidRating,
}

/// A registered oracle provider.
pub struct OracleProvider {
    /// The provider's ed25519 public key (32 bytes).
    pub pubkey: Vec<u8>,
    pub address: AccountId,
    pub fee_bps: u32,
    pub min_stake: i128,
    pub staked_amount: i128,
    pub total_resolved: u64,
    pub total_disputes: u64,
    pub is_active: bool,
    pub registered_at: u64,
    pub deregister_after: Option<u64>,
}

/// A user's rating of an oracle.
pub struct OracleRating {
    /// The rated oracle's public key (32 bytes).
    pub oracle: Vec<u8>,
    pub user: AccountId,
    pub satisfied: bool,
    pub timestamp: u64,
}

/// Marketplace configuration.
#[derive(Clone, Copy, Debug, PartialEq, Eq, Structural)]
pub struct MarketplaceConfig {
    pub admin: AccountId,
    pub cooldown_secs: u64,
    pub default_fee_bps: u32,
}

/// Events the oracle marketplace publishes.
pub enum OracleMarketplaceEvent {
    OracleRegistered { provider: AccountId, pubkey: Vec<u8>, fee_bps: u32 },
    OracleDeregistered { provider: AccountId, pubkey: Vec<u8> },
    OracleSelected { call_id: u64, provider: Vec<u8> },
    OracleRated { provider: Vec<u8>, user: AccountId, satisfied: bool },
}

/// Publish the registration of an oracle.
pub fn emit_oracle_registered(events: &mut Vec<OracleMarketplaceEvent>, provider: AccountId, pubkey: Vec<u8>, fee_bps: u32)
    ensures
        final(events)@.len() == old(events)@.len() + 1,
        final(events)@.subrange(0, old(events)@.len() as int) == old(events)@,
        final(events)@.last() == (OracleMarketplaceEvent::OracleRegistered { provider, pubkey, fee_bps }),
{
    events.push(OracleMarketplaceEvent::OracleRegistered { provider, pubkey, fee_bps });
    proof {
        assert(final(events)@.subrange(0, old(events)@.len() as int) =~= old(events)@);
    }
}

/// Publish the deregistration of an oracle.
pub fn emit_oracle_deregistered(events: &mut Vec<OracleMarketplaceEvent>, provider: AccountId, pubkey: Vec<u8>)
    ensures
        final(events)@.len() == old(events)@.len() + 1,
        final(events)@.subrange(0, old(events)@.len() as int) == old(events)@,
        final(events)@.last() == (OracleMarketplaceEvent::OracleDeregistered { provider, pubkey }),
{
    events.push(OracleMarketplaceEvent::OracleDeregistered { provider, pubkey });
    proof {
        assert(final(events)@.subrange(0, old(events)@.len() as int) =~= old(events)@);
    }
}

/// Publish the selection of an oracle for a call.
pub fn emit_oracle_selected(events: &mut Vec<OracleMarketplaceEvent>, call_id: u64, provider: Vec<u8>)
    ensures
        final(events)@.len() == old(events)@.len() + 1,
        final(events)@.subrange(0, old(events)@.len() as int) == old(events)@,
        final(events)@.last() == (OracleMarketplaceEvent::OracleSelected { call_id, provider }),
{
    events.push(OracleMarketplaceEvent::OracleSelected { call_id, provider });
    proof {
        assert(final(events)@.subrange(0, old(events)@.len() as int) =~= old(events)@);
    }
}

/// Publish a user's rating of an oracle.
pub fn emit_oracle_rated(events: &mut Vec<OracleMarketplaceEvent>, provider: Vec<u8>, user: AccountId, satisfied: bool)
    ensures
        final(events)@.len() == old(events)@.len() + 1,
        final(events)@.subrange(0, old(events)@.len() as int) == old(events)@,
        final(events)@.last() == (OracleMarketplaceEvent::OracleRated { provider, user, satisfied }),
{
    events.push(OracleMarketplaceEvent::OracleRated { provider, user, satisfied });
    proof {
        assert(final(events)@.subrange(0, old(events)@.len() as int) =~= old(events)@);
    }
}

} // verus!
