//! Types, events and stored state of the parlay-betting contract.
use vstd::prelude::*;
use std::collections::BTreeMap;
use crate::AccountId;
use crate::lists::{list_at, push_to_list};

verus! {

broadcast use vstd::std_specs::btree::group_btree_axioms, vstd::laws_cmp::group_laws_cmp;

/// Errors of the parlay contract, in the order of their error codes (from 1).
#[derive(Clone, Copy, Debug, PartialEq, Eq, Structural)]
pub enum ParlayError {
    AlreadyInitialized,
    NotInitialized,
    InvalidLegCount,
    InvalidStakeAmount,
    InvalidOutcome,
    ParlayNotFound,
    ParlayNotActive,
    LegNotResolved,
    MarketCallFailed,
    ContractPaused,
}

/// One leg of a parlay: a prediction on a single deployed market.
#[derive(Clone, Copy, Debug, PartialEq, Eq, Structural)]
pub struct ParlayLeg {
    pub call_id: u64,
    pub market_address: AccountId,
    pub outcome: u32,
}

/// Lifecycle of a parlay.
#[derive(Clone, Copy, Debug, PartialEq, Eq, Structural)]
pub enum ParlayStatus {
    Active,
    Won,
    Lost,
    Voided,
}

/// A parlay: a chain of legs ridden with one escrowed stake.
pub struct Parlay {
    pub id: u64,
    pub user: AccountId,
    pub legs: Vec<ParlayLeg>,
    pub active_leg_index: u32,
    pub total_escrowed: i128,
    pub status: ParlayStatus,
    pub stake_token: AccountId,
}

/// Parlay configuration.
#[derive(Clone, Copy, Debug, PartialEq, Eq, Structural)]
pub struct ParlayConfig {
    pub admin: AccountId,
    pub outcome_manager: AccountId,
}

/// Aggregate bookkeeping for one call that parlays staked on.
#[derive(Clone, Copy, Debug, PartialEq, Eq, Structural)]
pub struct LegAggregate {
    /// Sum of every parlay's stake placed on this call.
    pub total_staked: i128,
    /// The aggregate payout, once claimed from the outcome manager.
    pub claimed_payout: Option<i128>,
}

/// Events the parlay contract publishes.
pub enum ParlayEvent {
    Created { parlay_id: u64, user: AccountId, initial_stake: i128, leg_count: u32 },
    LegResolved { parlay_id: u64, leg_index: u32, won: bool },
    Completed { parlay_id: u64, total_payout: i128 },
    Voided { parlay_id: u64, reason: String },
}

/// The stored state of the parlay contract, plus its published events.
pub struct ParlayStore {
    pub config: Option<ParlayConfig>,
    /// Last parlay id handed out (0 before the first).
    pub parlay_counter: u64,
    pub parlays: BTreeMap<u64, Parlay>,
    pub user_parlays: BTreeMap<AccountId, Vec<u64>>,
    pub leg_aggregates: BTreeMap<u64, LegAggregate>,
    pub events: Vec<ParlayEvent>,
}

/// Two parlays hold the same data.
pub open spec fn same_parlay(a: Parlay, b: Parlay) -> bool {
    &&& a.id == b.id
    &&& a.user == b.user
    &&& a.legs@ == b.legs@
    &&& a.active_leg_index == b.active_leg_index
    &&& a.total_escrowed == b.total_escrowed
    &&& a.status == b.status
    &&& a.stake_token == b.stake_token
}

/// The aggregate of a call that nothing was staked on yet.
pub open spec fn empty_aggregate() -> LegAggregate {
    LegAggregate { total_staked: 0, claimed_payout: None }
}

impl ParlayStore {
    /// A fresh store: nothing configured or stored.
    pub fn new() -> (s: Self)
        ensures
            s.config is None,
            s.parlay_counter == 0,
            s.parlays@ == Map::<u64, Parlay>::empty(),
            s.user_parlays@ == Map::<AccountId, Vec<u64>>::empty(),
            s.leg_aggregates@ == Map::<u64, LegAggregate>::empty(),
            s.events@.len() == 0,
    {
        ParlayStore {
            config: None,
            parlay_counter: 0,
            parlays: BTreeMap::new(),
            user_parlays: BTreeMap::new(),
            leg_aggregates: BTreeMap::new(),
            events: Vec::new(),
        }
    }

    /// Store the configuration.
    pub fn set_config(&mut self, config: ParlayConfig)
        ensures
            *final(self) == (ParlayStore { config: Some(config), ..*old(self) }),
    {
        self.config = Some(config);
    }

    /// The stored configuration, if any.
    pub fn get_config(&self) -> (r: Option<ParlayConfig>)
        ensures
            r == self.config,
    {
        self.config
    }

    /// Hand out the next parlay id.
    pub fn next_parlay_id(&mut self) -> (id: u64)
        requires
            old(self).parlay_counter < u64::MAX,
        ensures
            id == old(self).parlay_counter + 1,
            *final(self) == (ParlayStore { parlay_counter: id, ..*old(self) }),
    {
        self.parlay_counter = self.parlay_counter + 1;
        self.parlay_counter
    }

    /// Store `parlay` under its own id.
    pub fn set_parlay(&mut self, parlay: Parlay)
        ensures
            final(self).parlays@ == old(self).parlays@.insert(parlay.id, parlay),
            *final(self) == (ParlayStore { parlays: final(self).parlays, ..*old(self) }),
    {
        self.parlays.insert(parlay.id, parlay);
    }

    /// A copy of parlay `parlay_id`, if stored.
    pub fn get_parlay(&self, parlay_id: u64) -> (r: Option<Parlay>)
        ensures
            !self.parlays@.contains_key(parlay_id) ==> r is None,
            self.parlays@.contains_key(parlay_id) ==> r is Some && same_parlay(
                r->0,
                self.parlays@[parlay_id],
            ),
    {
        match self.parlays.get(&parlay_id) {
            None => None,
            Some(p) => {
                let legs = p.legs.clone();
                proof {
                    assert(legs@ =~= p.legs@);
                }
                Some(
                    Parlay {
                        id: p.id,
                        user: p.user,
                        legs,
                        active_leg_index: p.active_leg_index,
                        total_escrowed: p.total_escrowed,
                        status: p.status,
                        stake_token: p.stake_token,
                    },
                )
            },
        }
    }

    /// Append `parlay_id` to `user`'s parlays.
    pub fn append_user_parlay(&mut self, user: AccountId, parlay_id: u64)
        ensures
            list_at(final(self).user_parlays@, user) == list_at(old(self).user_parlays@, user).push(
                parlay_id,
            ),
            final(self).user_parlays@.remove(user) == old(self).user_parlays@.remove(user),
            final(self).user_parlays@.contains_key(user),
            *final(self) == (ParlayStore { user_parlays: final(self).user_parlays, ..*old(self) }),
    {
        push_to_list(&mut self.user_parlays, user, parlay_id);
    }

    /// The ids of `user`'s parlays, in creation order.
    pub fn get_user_parlays(&self, user: AccountId) -> (r: Vec<u64>)
        ensures
            r@ == list_at(self.user_parlays@, user),
    {
        match self.user_parlays.get(&user) {
            Some(l) => l.clone(),
            None => Vec::new(),
        }
    }

    /// The aggregate of `call_id` (nothing staked, nothing claimed when none).
    pub fn get_leg_aggregate(&self, call_id: u64) -> (r: LegAggregate)
        ensures
            r == (if self.leg_aggregates@.contains_key(call_id) {
                self.leg_aggregates@[call_id]
            } else {
                empty_aggregate()
            }),
    {
        match self.leg_aggregates.get(&call_id) {
            Some(a) => *a,
            None => LegAggregate { total_staked: 0, claimed_payout: None },
        }
    }

    /// Store the aggregate of `call_id`.
    pub fn set_leg_aggregate(&mut self, call_id: u64, aggregate: LegAggregate)
        ensures
            final(self).leg_aggregates@ == old(self).leg_aggregates@.insert(call_id, aggregate),
            *final(self) == (ParlayStore { leg_aggregates: final(self).leg_aggregates, ..*old(self) }),
    {
        self.leg_aggregates.insert(call_id, aggregate);
    }

    /// Publish the creation of a parlay.
    pub fn emit_parlay_created(&mut self, parlay_id: u64, user: AccountId, initial_stake: i128, leg_count: u32)
        ensures
            final(self).events@ == old(self).events@.push(
                ParlayEvent::Created { parlay_id, user, initial_stake, leg_count },
            ),
            *final(self) == (ParlayStore { events: final(self).events, ..*old(self) }),
    {
        self.events.push(ParlayEvent::Created { parlay_id, user, initial_stake, leg_count });
    }

    /// Publish the resolution of one leg.
    pub fn emit_parlay_leg_resolved(&mut self, parlay_id: u64, leg_index: u32, won: bool)
        ensures
            final(self).events@ == old(self).events@.push(
                ParlayEvent::LegResolved { parlay_id, leg_index, won },
            ),
            *final(self) == (ParlayStore { events: final(self).events, ..*old(self) }),
    {
        self.events.push(ParlayEvent::LegResolved { parlay_id, leg_index, won });
    }

    /// Publish the completion of a parlay and its payout.
    pub fn emit_parlay_completed(&mut self, parlay_id: u64, total_payout: i128)
        ensures
            final(self).events@ == old(self).events@.push(
                ParlayEvent::Completed { parlay_id, total_payout },
            ),
            *final(self) == (ParlayStore { events: final(self).events, ..*old(self) }),
    {
        self.events.push(ParlayEvent::Completed { parlay_id, total_payout });
    }

    /// Publish that a parlay was voided, with the reason.
    pub fn emit_parlay_voided(&mut self, parlay_id: u64, reason: String)
        ensures
            final(self).events@.len() == old(self).events@.len() + 1,
            final(self).events@.subrange(0, old(self).events@.len() as int) == old(self).events@,
            final(self).events@.last() matches ParlayEvent::Voided { parlay_id: p, reason: r }
                && p == parlay_id && r@ == reason@,
            *final(self) == (ParlayStore { events: final(self).events, ..*old(self) }),
    {
        self.events.push(ParlayEvent::Voided { parlay_id, reason });
        proof {
            assert(self.events@.subrange(0, old(self).events@.len() as int) =~= old(self).events@);
        }
    }
}

} // verus!
