//! Types of the charity-market contract.
use vstd::prelude::*;
use std::collections::BTreeMap;
use crate::AccountId;

verus! {

/// Errors of the charity-market contract, in the order of their error codes (from 1).
#[derive(Clone, Copy, Debug, PartialEq, Eq, Structural)]
pub enum CharityError {
    NotInitialized,
    AlreadyInitialized,
    Unauthorized,
    InvalidCharity,
    AlreadyResolved,
    CharitySplitExceedsMax,
    CallNotFound,
    InvalidOutcome,
    InvalidStakeAmount,
    InvalidCallId,
    ZeroPool,
}

/// Creation parameters of a charity call.
#[derive(Clone, Copy, Debug, PartialEq, Eq, Structural)]
pub struct CharityCallInit {
    pub stake_amount: i128,
    pub outcome_count: u32,
    pub creator_outcome: u32,
    pub end_ts: u64,
}

/// A charity call: a market whose losing pool is partly donated.
pub struct CharityCall {
    pub id: u64,
    pub creator: AccountId,
    pub stake_token: AccountId,
    pub stake_amount: i128,
    pub outcome_count: u32,
    pub creator_outcome: u32,
    pub charity_address: AccountId,
    pub charity_split_bps: u32,
    pub total_donated: i128,
    pub outcome_manager: AccountId,
    pub resolved: bool,
    pub final_outcome: u32,
    pub created_at: u64,
    /// Total stake per outcome.
    pub outcome_stakes: BTreeMap<u32, i128>,
    /// Stake per (outcome, staker).
    pub user_stakes: BTreeMap<(u32, AccountId), i128>,
}

} // verus!
