//! Types, errors and stored state of the Dutch-auction settlement contract.
use vstd::prelude::*;
use std::collections::BTreeMap;
use crate::AccountId;

verus! {

broadcast use vstd::std_specs::btree::group_btree_axioms, vstd::laws_cmp::group_laws_cmp;

/// Errors of the Dutch-auction contract, in the order of their error codes (from 1).
#[derive(Clone, Copy, Debug, PartialEq, Eq, Structural)]
pub enum DutchAuctionError {
    AlreadyInitialized,
    NotInitialized,
    AuctionNotStarted,
    AuctionAlreadySettled,
    CallNotEligible,
    OracleDeadlineNotMet,
    Unauthorized,
    InvalidParams,
    Overflow,
    InvalidPrice,
    UnknownConditionType,
}

/// The state of one call's settlement auction.
#[derive(Clone, Copy, Debug, PartialEq, Eq, Structural)]
pub struct AuctionInfo {
    pub call_id: u64,
    pub condition_type: u32,
    pub start_price: i128,
    pub start_ts: u64,
    pub settled: bool,
}

/// Auction configuration.
#[derive(Clone, Copy, Debug, PartialEq, Eq, Structural)]
pub struct DutchAuctionConfig {
    pub admin: AccountId,
    pub outcome_manager: AccountId,
    pub auction_duration_secs: u64,
    pub oracle_deadline_secs: u64,
    pub settler_reward_bps: u32,
}

/// Events the auction contract publishes.
#[derive(Clone, Copy, Debug, PartialEq, Eq, Structural)]
pub enum DutchAuctionEvent {
    Started { call_id: u64, start_price: i128, condition_type: u32, start_ts: u64 },
    Settled { call_id: u64, price: i128, settler: AccountId, reward: i128 },
    ParamsChanged { auction_duration_secs: u64, oracle_deadline_secs: u64, settler_reward_bps: u32 },
}

/// The stored state of the auction contract, plus its published events.
pub struct DutchAuctionStore {
    pub config: Option<DutchAuctionConfig>,
    pub auctions: BTreeMap<u64, AuctionInfo>,
    pub events: Vec<DutchAuctionEvent>,
}

impl DutchAuctionStore {
    /// A fresh store.
    pub fn new() -> (s: Self)
        ensures
            s.config is None,
            s.auctions@ == Map::<u64, AuctionInfo>::empty(),
            s.events@.len() == 0,
    {
        DutchAuctionStore { config: None, auctions: BTreeMap::new(), events: Vec::new() }
    }

    /// Store the configuration.
    pub fn set_config(&mut self, config: DutchAuctionConfig)
        ensures
            *final(self) == (DutchAuctionStore { config: Some(config), ..*old(self) }),
    {
        self.config = Some(config);
    }

    /// The stored configuration, if any.
    pub fn get_config(&self) -> (r: Option<DutchAuctionConfig>)
        ensures
            r == self.config,
    {
        self.config
    }

    /// Store the auction of `call_id`.
    pub fn set_auction_info(&mut self, call_id: u64, info: AuctionInfo)
        ensures
            final(self).auctions@ == old(self).auctions@.insert(call_id, info),
            *final(self) == (DutchAuctionStore { auctions: final(self).auctions, ..*old(self) }),
    {
        self.auctions.insert(call_id, info);
    }

    /// The auction of `call_id`, if any.
    pub fn get_auction_info(&self, call_id: u64) -> (r: Option<AuctionInfo>)
        ensures
            r == (if self.auctions@.contains_key(call_id) {
                Some(self.auctions@[call_id])
            } else {
                None
            }),
    {
        match self.auctions.get(&call_id) {
            Some(a) => Some(*a),
            None => None,
        }
    }

    /// Publish the start of an auction.
    pub fn emit_dutch_auction_started(&mut self, call_id: u64, start_price: i128, condition_type: u32, start_ts: u64)
        ensures
            final(self).events@ == old(self).events@.push(
                DutchAuctionEvent::Started { call_id, start_price, condition_type, start_ts },
            ),
            *final(self) == (DutchAuctionStore { events: final(self).events, ..*old(self) }),
    {
        self.events.push(DutchAuctionEvent::Started { call_id, start_price, condition_type, start_ts });
    }

    /// Publish the settlement of an auction.
    pub fn emit_dutch_auction_settled(&mut self, call_id: u64, price: i128, settler: AccountId, reward: i128)
        ensures
            final(self).events@ == old(self).events@.push(
                DutchAuctionEvent::Settled { call_id, price, settler, reward },
            ),
            *final(self) == (DutchAuctionStore { events: final(self).events, ..*old(self) }),
    {
        self.events.push(DutchAuctionEvent::Settled { call_id, price, settler, reward });
    }

    /// Publish a change of the auction parameters.
    pub fn emit_auth_params_changed(&mut self, auction_duration_secs: u64, oracle_deadline_secs: u64, settler_reward_bps: u32)
        ensures
            final(self).events@ == old(self).events@.push(
                DutchAuctionEvent::ParamsChanged { auction_duration_secs, oracle_deadline_secs, settler_reward_bps },
            ),
            *final(self) == (DutchAuctionStore { events: final(self).events, ..*old(self) }),
    {
        self.events.push(DutchAuctionEvent::ParamsChanged { auction_duration_secs, oracle_deadline_secs, settler_reward_bps });
    }
}

} // verus!
