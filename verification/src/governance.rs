//! Reputation-weighted governance: proposals to invoke a function of a
//! target contract, voted on with power derived from a user's resolved calls
//! and stake, and executed once the voting period is over if quorum and the
//! pass threshold are met.
use vstd::prelude::*;
use std::collections::BTreeMap;
use crate::AccountId;
use crate::arith::{fits_i128, lemma_trunc_div_close, trunc_div};
use crate::lists::list_at;

verus! {

broadcast use vstd::std_specs::btree::group_btree_axioms, vstd::laws_cmp::group_laws_cmp;

/// Voting power granted per unit of reputation.
pub const VOTING_POWER_DENOM: i128 = 1_000_000;

/// The total voting power that could be cast, against which quorum is measured.
pub const POSSIBLE_VOTING_POWER: i128 = 100_000_000_000;

/// Errors of the governance contract, in the order of their error codes (from 1).
#[derive(Clone, Copy, Debug, PartialEq, Eq, Structural)]
pub enum GovernanceError {
    AlreadyInitialized,
    NotInitialized,
    Unauthorized,
    ProposalNotFound,
    AlreadyVoted,
    ProposalInactive,
    VotingPeriodEnded,
    InsufficientReputation,
    AlreadyExecuted,
    ProposalNotPassed,
    QuorumNotMet,
    AlreadyDelegated,
    SelfDelegation,
}

/// Governance parameters.
#[derive(Clone, Copy, Debug, PartialEq, Eq, Structural)]
pub struct GovernanceConfig {
    pub admin: AccountId,
    pub proposal_threshold_calls: u32,
    pub threshold_accuracy_bps: u32,
    pub voting_period_ledgers: u32,
    pub quorum_bps: u32,
    pub pass_threshold_bps: u32,
}

/// A proposal to invoke `function_name` on `target_contract`.
pub struct Proposal {
    pub id: u64,
    pub proposer: AccountId,
    pub target_contract: AccountId,
    pub function_name: String,
    pub for_votes: i128,
    pub against_votes: i128,
    pub created_ledger: u32,
    pub executed: bool,
}

/// A recorded vote.
#[derive(Clone, Copy, Debug, PartialEq, Eq, Structural)]
pub struct Vote {
    pub voter: AccountId,
    pub support: bool,
    pub power: i128,
}

/// Events the governance contract publishes.
pub enum GovernanceEvent {
    ProposalCreated { id: u64, proposer: AccountId, target: AccountId, function_name: String },
    VoteCast { proposal_id: u64, voter: AccountId, support: bool, power: i128 },
    ProposalExecuted { id: u64 },
    DelegationChanged { delegator: AccountId, delegate: AccountId },
}

/// A contract invocation the host is asked to make on governance's behalf.
pub struct Invocation {
    pub target: AccountId,
    pub function_name: String,
}

/// The stored state of the governance contract, plus its published events
/// and the invocations it requested.
pub struct Governance {
    pub config: Option<GovernanceConfig>,
    /// Last proposal id handed out (0 before the first).
    pub proposal_counter: u64,
    pub proposals: BTreeMap<u64, Proposal>,
    pub votes: BTreeMap<u64, Vec<Vote>>,
    /// Every proposal id, appended each time a proposal is stored.
    pub proposal_ids: Vec<u64>,
    pub delegations: BTreeMap<AccountId, AccountId>,
    /// Each user's (resolved calls, total staked).
    pub reputations: BTreeMap<AccountId, (u32, i128)>,
    pub events: Vec<GovernanceEvent>,
    pub invocations: Vec<Invocation>,
}

/// Two proposals hold the same data.
pub open spec fn same_proposal(a: Proposal, b: Proposal) -> bool {
    &&& a.id == b.id
    &&& a.proposer == b.proposer
    &&& a.target_contract == b.target_contract
    &&& a.function_name@ == b.function_name@
    &&& a.for_votes == b.for_votes
    &&& a.against_votes == b.against_votes
    &&& a.created_ledger == b.created_ledger
    &&& a.executed == b.executed
}

/// A copy of `p`.
pub fn copy_proposal(p: &Proposal) -> (r: Proposal)
    ensures
        same_proposal(r, *p),
{
    Proposal {
        id: p.id,
        proposer: p.proposer,
        target_contract: p.target_contract,
        function_name: p.function_name.clone(),
        for_votes: p.for_votes,
        against_votes: p.against_votes,
        created_ledger: p.created_ledger,
        executed: p.executed,
    }
}

/// Voting power of a reputation: `resolved * 1_000_000 + staked / 1_000_000`
/// (the division rounding toward zero).
pub open spec fn voting_power(rep: (u32, i128)) -> int {
    rep.0 * VOTING_POWER_DENOM + trunc_div(rep.1 as int, 1_000_000)
}

/// The last ledger at which a proposal can still be voted on.
pub open spec fn voting_end(p: Proposal, c: GovernanceConfig) -> int {
    p.created_ledger + c.voting_period_ledgers
}

/// Quorum: the share `quorum_bps` of the possible voting power.
pub open spec fn quorum(c: GovernanceConfig) -> int {
    POSSIBLE_VOTING_POWER * c.quorum_bps / 10000
}

/// The pass threshold on a proposal's total votes.
pub open spec fn pass_threshold(total: int, c: GovernanceConfig) -> int {
    trunc_div(total * c.pass_threshold_bps, 10000)
}

/// Position of `voter`'s vote in `votes`, if any (the first one).
pub open spec fn vote_index(votes: Seq<Vote>, voter: AccountId) -> Option<int> {
    if exists|i: int| 0 <= i < votes.len() && votes[i].voter == voter {
        Some(choose|i: int| 0 <= i < votes.len() && votes[i].voter == voter && forall|j: int| 0 <= j < i ==> votes[j].voter != voter)
    } else {
        None
    }
}

/// The total voting power that could be cast.
pub fn get_possible_voting_power() -> (r: i128)
    ensures
        r == POSSIBLE_VOTING_POWER,
{
    POSSIBLE_VOTING_POWER
}

/// The ids among `ids` of proposals open at `ledger`, in order.
pub open spec fn active_ids(proposals: Map<u64, Proposal>, ids: Seq<u64>, c: GovernanceConfig, ledger: u32) -> Seq<u64>
    decreases ids.len(),
{
    if ids.len() == 0 {
        Seq::empty()
    } else {
        let prev = active_ids(proposals, ids.drop_last(), c, ledger);
        let id = ids.last();
        if proposals.contains_key(id) && !proposals[id].executed && ledger <= voting_end(proposals[id], c) {
            prev.push(id)
        } else {
            prev
        }
    }
}


/// Sum of the voting power of `votes`.
pub open spec fn cast_power(votes: Seq<Vote>) -> int
    decreases votes.len(),
{
    if votes.len() == 0 {
        0
    } else {
        cast_power(votes.drop_last()) + votes.last().power
    }
}

/// No voter appears twice in `votes`.
pub open spec fn one_vote_each(votes: Seq<Vote>) -> bool {
    forall|i: int, j: int| 0 <= i < j < votes.len() ==> votes[i].voter != votes[j].voter
}

proof fn lemma_cast_power_push(votes: Seq<Vote>, v: Vote)
    ensures
        cast_power(votes.push(v)) == cast_power(votes) + v.power,
{
    assert(votes.push(v).drop_last() =~= votes);
}

proof fn lemma_cast_power_update(votes: Seq<Vote>, i: int, v: Vote)
    requires
        0 <= i < votes.len(),
        v.power == votes[i].power,
    ensures
        cast_power(votes.update(i, v)) == cast_power(votes),
    decreases votes.len(),
{
    if i < votes.len() - 1 {
        assert(votes.update(i, v).drop_last() =~= votes.drop_last().update(i, v));
        lemma_cast_power_update(votes.drop_last(), i, v);
    } else {
        assert(votes.update(i, v).drop_last() =~= votes.drop_last());
    }
}

/// A proposal clears the pass threshold only with a supermajority: its
/// votes for make up more than `pass_threshold_bps` of all votes cast. With
/// no negative votes the two are the same.
pub proof fn lemma_pass_threshold_is_supermajority(for_votes: int, against_votes: int, c: GovernanceConfig)
    ensures
        for_votes > pass_threshold(for_votes + against_votes, c) ==> for_votes * 10000 > (for_votes
            + against_votes) * c.pass_threshold_bps,
        for_votes >= 0 && against_votes >= 0 && for_votes * 10000 > (for_votes + against_votes)
            * c.pass_threshold_bps ==> for_votes > pass_threshold(for_votes + against_votes, c),
{
    let x = (for_votes + against_votes) * c.pass_threshold_bps;
    let t = pass_threshold(for_votes + against_votes, c);
    lemma_trunc_div_close(x, 10000);
    if x >= 0 {
        vstd::arithmetic::div_mod::lemma_fundamental_div_mod(x, 10000);
        assert(0 <= x % 10000 < 10000);
        assert(10000 * t <= x);
    }
    if for_votes > t {
        assert(for_votes * 10000 >= (t + 1) * 10000) by (nonlinear_arith)
            requires
                for_votes >= t + 1,
        ;
    }
    if for_votes >= 0 && against_votes >= 0 && for_votes * 10000 > x {
        assert(x >= 0) by (nonlinear_arith)
            requires
                for_votes >= 0,
                against_votes >= 0,
                x == (for_votes + against_votes) * c.pass_threshold_bps,
                c.pass_threshold_bps >= 0,
        ;
        if for_votes <= t {
            assert(for_votes * 10000 <= t * 10000) by (nonlinear_arith)
                requires
                    for_votes <= t,
            ;
        }
    }
}

impl Governance {
    /// The reputation stored for `user`, `(0, 0)` when none.
    pub open spec fn reputation_of(self, user: AccountId) -> (u32, i128) {
        if self.reputations@.contains_key(user) {
            self.reputations@[user]
        } else {
            (0, 0)
        }
    }

    /// Whose vote `voter` casts: their delegate's if they have one.
    pub open spec fn effective_voter(self, voter: AccountId) -> AccountId {
        if self.delegations@.contains_key(voter) {
            self.delegations@[voter]
        } else {
            voter
        }
    }

    /// The votes recorded on proposal `id`.
    pub open spec fn votes_on(self, id: u64) -> Seq<Vote> {
        list_at(self.votes@, id)
    }

    /// The tallies of proposal `id` count every recorded vote exactly once:
    /// no voter is recorded twice, and the votes for and against add up to
    /// the voting power recorded. Voting keeps this.
    pub open spec fn tally_consistent(self, id: u64) -> bool {
        &&& one_vote_each(self.votes_on(id))
        &&& self.proposals@.contains_key(id) ==> self.proposals@[id].for_votes
            + self.proposals@[id].against_votes == cast_power(self.votes_on(id))
    }

    /// A fresh, unconfigured governance contract.
    pub fn new() -> (g: Self)
        ensures
            g.config is None,
            g.proposal_counter == 0,
            g.proposals@ == Map::<u64, Proposal>::empty(),
            g.votes@ == Map::<u64, Vec<Vote>>::empty(),
            g.proposal_ids@ == Seq::<u64>::empty(),
            g.delegations@ == Map::<AccountId, AccountId>::empty(),
            g.reputations@ == Map::<AccountId, (u32, i128)>::empty(),
            g.events@.len() == 0,
            g.invocations@.len() == 0,
    {
        Governance {
            config: None,
            proposal_counter: 0,
            proposals: BTreeMap::new(),
            votes: BTreeMap::new(),
            proposal_ids: Vec::new(),
            delegations: BTreeMap::new(),
            reputations: BTreeMap::new(),
            events: Vec::new(),
            invocations: Vec::new(),
        }
    }

    /// Store the governance parameters; fails if already configured.
    pub fn initialize(
        &mut self,
        admin: AccountId,
        proposal_threshold_calls: u32,
        threshold_accuracy_bps: u32,
        voting_period_ledgers: u32,
        quorum_bps: u32,
        pass_threshold_bps: u32,
    ) -> (r: Result<(), GovernanceError>)
        ensures
            old(self).config is Some ==> r == Err::<(), GovernanceError>(GovernanceError::AlreadyInitialized)
                && *final(self) == *old(self),
            old(self).config is None ==> r is Ok && *final(self) == (Governance {
                config: Some(
                    GovernanceConfig {
                        admin,
                        proposal_threshold_calls,
                        threshold_accuracy_bps,
                        voting_period_ledgers,
                        quorum_bps,
                        pass_threshold_bps,
                    },
                ),
                ..*old(self)
            }),
    {
        if self.config.is_some() {
            return Err(GovernanceError::AlreadyInitialized);
        }
        self.config = Some(
            GovernanceConfig {
                admin,
                proposal_threshold_calls,
                threshold_accuracy_bps,
                voting_period_ledgers,
                quorum_bps,
                pass_threshold_bps,
            },
        );
        Ok(())
    }

    /// The reputation stored for `user`, `(0, 0)` when none.
    pub fn get_user_reputation(&self, user: AccountId) -> (r: (u32, i128))
        ensures
            r == self.reputation_of(user),
    {
        match self.reputations.get(&user) {
            Some(r) => *r,
            None => (0, 0),
        }
    }

    /// Store `user`'s reputation.
    pub fn set_user_reputation(&mut self, user: AccountId, resolved_calls: u32, total_staked: i128)
        ensures
            *final(self) == (Governance {
                reputations: final(self).reputations,
                ..*old(self)
            }),
            final(self).reputations@ == old(self).reputations@.insert(user, (resolved_calls, total_staked)),
    {
        self.reputations.insert(user, (resolved_calls, total_staked));
    }

    /// Hand out the next proposal id.
    pub fn next_proposal_id(&mut self) -> (id: u64)
        requires
            old(self).proposal_counter < u64::MAX,
        ensures
            id == old(self).proposal_counter + 1,
            *final(self) == (Governance { proposal_counter: id, ..*old(self) }),
    {
        self.proposal_counter = self.proposal_counter + 1;
        self.proposal_counter
    }

    /// Store `proposal` under `id`, and append `id` to the proposal ids.
    pub fn set_proposal(&mut self, id: u64, proposal: Proposal)
        ensures
            final(self).proposals@ == old(self).proposals@.insert(id, proposal),
            final(self).proposal_ids@ == old(self).proposal_ids@.push(id),
            *final(self) == (Governance {
                proposals: final(self).proposals,
                proposal_ids: final(self).proposal_ids,
                ..*old(self)
            }),
    {
        self.proposals.insert(id, proposal);
        self.proposal_ids.push(id);
    }

    /// The votes recorded on proposal `id`.
    pub fn get_votes(&self, id: u64) -> (r: Vec<Vote>)
        ensures
            r@ == self.votes_on(id),
    {
        match self.votes.get(&id) {
            Some(v) => {
                let r = v.clone();
                proof {
                    assert(r@ =~= v@);
                }
                r
            },
            None => Vec::new(),
        }
    }

    /// Store the votes of proposal `id`.
    pub fn set_votes(&mut self, id: u64, votes: Vec<Vote>)
        ensures
            final(self).votes@ == old(self).votes@.insert(id, votes),
            *final(self) == (Governance { votes: final(self).votes, ..*old(self) }),
    {
        self.votes.insert(id, votes);
    }

    /// The delegate `address` votes through, if any.
    pub fn get_delegate(&self, address: AccountId) -> (r: Option<AccountId>)
        ensures
            r == (if self.delegations@.contains_key(address) {
                Some(self.delegations@[address])
            } else {
                None
            }),
    {
        match self.delegations.get(&address) {
            Some(d) => Some(*d),
            None => None,
        }
    }

    /// Record that `delegator` votes through `delegate`.
    pub fn set_delegate(&mut self, delegator: AccountId, delegate: AccountId)
        ensures
            final(self).delegations@ == old(self).delegations@.insert(delegator, delegate),
            *final(self) == (Governance { delegations: final(self).delegations, ..*old(self) }),
    {
        self.delegations.insert(delegator, delegate);
    }

    /// Let `delegate` cast `delegator`'s votes; nobody delegates to themself.
    pub fn delegate_votes(&mut self, delegator: AccountId, delegate: AccountId) -> (r: Result<
        (),
        GovernanceError,
    >)
        ensures
            delegator == delegate ==> r == Err::<(), GovernanceError>(GovernanceError::SelfDelegation)
                && *final(self) == *old(self),
            delegator != delegate ==> {
                &&& r is Ok
                &&& final(self).delegations@ == old(self).delegations@.insert(delegator, delegate)
                &&& final(self).events@ == old(self).events@.push(
                    GovernanceEvent::DelegationChanged { delegator, delegate },
                )
                &&& *final(self) == (Governance {
                    delegations: final(self).delegations,
                    events: final(self).events,
                    ..*old(self)
                })
            },
    {
        if delegator == delegate {
            return Err(GovernanceError::SelfDelegation);
        }
        self.set_delegate(delegator, delegate);
        self.events.push(GovernanceEvent::DelegationChanged { delegator, delegate });
        Ok(())
    }

    /// The proposal stored under `id`, if any.
    pub fn get_proposal(&self, id: u64) -> (r: Option<Proposal>)
        ensures
            r is Some <==> self.proposals@.contains_key(id),
            r is Some ==> same_proposal(r->0, self.proposals@[id]),
    {
        match self.proposals.get(&id) {
            Some(p) => Some(copy_proposal(p)),
            None => None,
        }
    }

    /// Every stored proposal id, one entry per time a proposal was stored.
    pub fn get_proposal_ids(&self) -> (r: Vec<u64>)
        ensures
            r@ == self.proposal_ids@,
    {
        self.proposal_ids.clone()
    }

    /// A copy of proposal `proposal_id`.
    pub fn get_proposal_view(&self, proposal_id: u64) -> (r: Result<Proposal, GovernanceError>)
        ensures
            !self.proposals@.contains_key(proposal_id) ==> r == Err::<Proposal, GovernanceError>(
                GovernanceError::ProposalNotFound,
            ),
            self.proposals@.contains_key(proposal_id) ==> r is Ok && same_proposal(
                r->Ok_0,
                self.proposals@[proposal_id],
            ),
    {
        match self.proposals.get(&proposal_id) {
            Some(p) => Ok(copy_proposal(p)),
            None => Err(GovernanceError::ProposalNotFound),
        }
    }

    /// Set `user`'s reputation (on behalf of `admin`, who must be the
    /// configured admin).
    pub fn set_reputation(
        &mut self,
        admin: AccountId,
        user: AccountId,
        resolved_calls: u32,
        total_staked: i128,
    ) -> (r: Result<(), GovernanceError>)
        ensures
            old(self).config is None ==> r == Err::<(), GovernanceError>(GovernanceError::NotInitialized)
                && *final(self) == *old(self),
            old(self).config is Some && old(self).config->0.admin != admin ==> r == Err::<
                (),
                GovernanceError,
            >(GovernanceError::Unauthorized) && *final(self) == *old(self),
            old(self).config is Some && old(self).config->0.admin == admin ==> {
                &&& r is Ok
                &&& final(self).reputations@ == old(self).reputations@.insert(user, (resolved_calls, total_staked))
                &&& *final(self) == (Governance { reputations: final(self).reputations, ..*old(self) })
            },
    {
        let config = match self.config {
            Some(c) => c,
            None => return Err(GovernanceError::NotInitialized),
        };
        if admin != config.admin {
            return Err(GovernanceError::Unauthorized);
        }
        self.set_user_reputation(user, resolved_calls, total_staked);
        Ok(())
    }

    /// Vote on proposal `proposal_id` at ledger `ledger`, through the
    /// voter's delegate if they have one. A voter who already voted only
    /// changes the side of their recorded vote (the tallies stay as they
    /// are); a first vote is recorded with the voting power of the effective
    /// voter and added to the tally of its side.
    pub fn vote(&mut self, voter: AccountId, proposal_id: u64, support: bool, ledger: u32) -> (r:
        Result<(), GovernanceError>)
        requires
            old(self).config is Some && old(self).proposals@.contains_key(proposal_id)
                && !old(self).proposals@[proposal_id].executed ==> voting_end(
                old(self).proposals@[proposal_id],
                old(self).config->0,
            ) <= u32::MAX,
        ensures
            old(self).tally_consistent(proposal_id) ==> final(self).tally_consistent(proposal_id),
            r is Ok ==> {
                let p = old(self).proposals@[proposal_id];
                &&& old(self).config is Some
                &&& old(self).proposals@.contains_key(proposal_id)
                &&& !p.executed
                &&& ledger <= p.created_ledger + old(self).config->0.voting_period_ledgers
            },
            old(self).config is None ==> r == Err::<(), GovernanceError>(GovernanceError::NotInitialized)
                && *final(self) == *old(self),
            old(self).config is Some && !old(self).proposals@.contains_key(proposal_id) ==> r == Err::<
                (),
                GovernanceError,
            >(GovernanceError::ProposalNotFound) && *final(self) == *old(self),
            old(self).config is Some && old(self).proposals@.contains_key(proposal_id) ==> {
                let c = old(self).config->0;
                let p = old(self).proposals@[proposal_id];
                let ev = old(self).effective_voter(voter);
                let votes = old(self).votes_on(proposal_id);
                let power = voting_power(old(self).reputation_of(ev));
                &&& p.executed ==> r == Err::<(), GovernanceError>(GovernanceError::AlreadyExecuted)
                    && *final(self) == *old(self)
                &&& !p.executed && ledger > voting_end(p, c) ==> r == Err::<(), GovernanceError>(
                    GovernanceError::VotingPeriodEnded,
                ) && *final(self) == *old(self)
                &&& !p.executed && ledger <= voting_end(p, c) && vote_index(votes, ev) is Some ==> {
                    let i = vote_index(votes, ev)->0;
                    &&& r is Ok
                    &&& final(self).votes@.contains_key(proposal_id)
                    &&& final(self).votes_on(proposal_id) == votes.update(i, Vote { support, ..votes[i] })
                    &&& final(self).votes@.remove(proposal_id) == old(self).votes@.remove(proposal_id)
                    &&& final(self).events@ == old(self).events@.push(
                        GovernanceEvent::VoteCast {
                            proposal_id,
                            voter: ev,
                            support,
                            power: votes[i].power,
                        },
                    )
                    &&& *final(self) == (Governance {
                        votes: final(self).votes,
                        events: final(self).events,
                        ..*old(self)
                    })
                }
                &&& !p.executed && ledger <= voting_end(p, c) && vote_index(votes, ev) is None
                    && !fits_i128(if support { p.for_votes + power } else { p.against_votes + power })
                    ==> r == Err::<(), GovernanceError>(GovernanceError::ProposalInactive) && *final(self)
                    == *old(self)
                &&& !p.executed && ledger <= voting_end(p, c) && vote_index(votes, ev) is None
                    && fits_i128(if support { p.for_votes + power } else { p.against_votes + power })
                    ==> {
                    let np = final(self).proposals@[proposal_id];
                    &&& r is Ok
                    &&& final(self).votes@.contains_key(proposal_id)
                    &&& final(self).votes_on(proposal_id) == votes.push(Vote { voter: ev, support, power: power as i128 })
                    &&& final(self).votes@.remove(proposal_id) == old(self).votes@.remove(proposal_id)
                    &&& final(self).proposals@.contains_key(proposal_id)
                    &&& final(self).proposals@.remove(proposal_id) == old(self).proposals@.remove(proposal_id)
                    &&& same_proposal(np, Proposal {
                        for_votes: if support { (p.for_votes + power) as i128 } else { p.for_votes },
                        against_votes: if support { p.against_votes } else { (p.against_votes + power) as i128 },
                        ..p
                    })
                    &&& final(self).proposal_ids@ == old(self).proposal_ids@.push(proposal_id)
                    &&& final(self).events@ == old(self).events@.push(
                        GovernanceEvent::VoteCast { proposal_id, voter: ev, support, power: power as i128 },
                    )
                    &&& final(self).config == old(self).config
                    &&& final(self).proposal_counter == old(self).proposal_counter
                    &&& final(self).delegations@ == old(self).delegations@
                    &&& final(self).reputations@ == old(self).reputations@
                    &&& final(self).invocations@ == old(self).invocations@
                }
            },
    {
        let config = match self.config {
            Some(c) => c,
            None => return Err(GovernanceError::NotInitialized),
        };
        let (executed, created_ledger, for_votes, against_votes) = match self.proposals.get(&proposal_id) {
            Some(p) => (p.executed, p.created_ledger, p.for_votes, p.against_votes),
            None => return Err(GovernanceError::ProposalNotFound),
        };
        if executed {
            return Err(GovernanceError::AlreadyExecuted);
        }
        if ledger > created_ledger + config.voting_period_ledgers {
            return Err(GovernanceError::VotingPeriodEnded);
        }
        let effective_voter = match self.get_delegate(voter) {
            Some(d) => d,
            None => voter,
        };
        let mut votes = self.get_votes(proposal_id);
        let ghost old_votes = votes@;
        let mut i: usize = 0;
        while i < votes.len()
            invariant
                0 <= i <= votes@.len(),
                votes@ == old_votes,
                old_votes == old(self).votes_on(proposal_id),
                forall|j: int| 0 <= j < i ==> votes@[j].voter != effective_voter,
                *self == *old(self),
                self.config == Some(config),
                self.proposals@.contains_key(proposal_id),
                !self.proposals@[proposal_id].executed,
                ledger <= voting_end(self.proposals@[proposal_id], config),
                effective_voter == old(self).effective_voter(voter),
            decreases votes@.len() - i,
        {
            if votes[i].voter == effective_voter {
                let mut v = votes[i];
                v.support = support;
                let power = v.power;
                votes.set(i, v);
                proof {
                    let k = vote_index(old_votes, effective_voter)->0;
                    assert(old_votes[i as int].voter == effective_voter);
                    assert(vote_index(old_votes, effective_voter) is Some);
                    assert(k == i) by {
                        if k < i {
                        } else if k > i {
                        }
                    }
                }
                self.set_votes(proposal_id, votes);
                proof {
                    lemma_cast_power_update(old_votes, i as int, v);
                    assert(self.votes_on(proposal_id) == old_votes.update(i as int, v));
                    if old(self).tally_consistent(proposal_id) {
                        assert forall|a: int, b: int|
                            0 <= a < b < self.votes_on(proposal_id).len() implies self.votes_on(
                            proposal_id,
                        )[a].voter != self.votes_on(proposal_id)[b].voter by {
                            assert(old_votes[a].voter != old_votes[b].voter);
                        }
                    }
                }
                self.events.push(
                    GovernanceEvent::VoteCast { proposal_id, voter: effective_voter, support, power },
                );
                return Ok(());
            }
            i = i + 1;
        }
        proof {
            assert(vote_index(old_votes, effective_voter) is None);
        }
        let reputation = self.get_user_reputation(effective_voter);
        let power = (reputation.0 as i128) * VOTING_POWER_DENOM + reputation.1 / 1_000_000;
        let (new_for, new_against) = if support {
            match for_votes.checked_add(power) {
                Some(v) => (v, against_votes),
                None => return Err(GovernanceError::ProposalInactive),
            }
        } else {
            match against_votes.checked_add(power) {
                Some(v) => (for_votes, v),
                None => return Err(GovernanceError::ProposalInactive),
            }
        };
        votes.push(Vote { voter: effective_voter, support, power });
        self.set_votes(proposal_id, votes);
        let mut proposal = self.proposals.remove(&proposal_id).unwrap();
        proposal.for_votes = new_for;
        proposal.against_votes = new_against;
        self.set_proposal(proposal_id, proposal);
        proof {
            assert(self.proposals@.remove(proposal_id) =~= old(self).proposals@.remove(proposal_id));
            let nv = Vote { voter: effective_voter, support, power };
            lemma_cast_power_push(old_votes, nv);
            assert(self.votes_on(proposal_id) == old_votes.push(nv));
            if old(self).tally_consistent(proposal_id) {
                assert forall|a: int, b: int|
                    0 <= a < b < self.votes_on(proposal_id).len() implies self.votes_on(
                    proposal_id,
                )[a].voter != self.votes_on(proposal_id)[b].voter by {
                    if b == old_votes.len() {
                        assert(old_votes[a].voter != effective_voter);
                    } else {
                        assert(old_votes[a].voter != old_votes[b].voter);
                    }
                }
            }
        }
        self.events.push(
            GovernanceEvent::VoteCast { proposal_id, voter: effective_voter, support, power },
        );
        Ok(())
    }

    /// Execute proposal `proposal_id` at ledger `ledger`, once its voting
    /// period is over: the votes cast must reach the quorum, and the votes
    /// for must exceed the pass threshold of all votes cast. The proposal is
    /// marked executed and its invocation is requested.
    pub fn execute_proposal(&mut self, caller: AccountId, proposal_id: u64, ledger: u32) -> (r: Result<
        (),
        GovernanceError,
    >)
        requires
            old(self).config is Some && old(self).proposals@.contains_key(proposal_id) ==> {
                let p = old(self).proposals@[proposal_id];
                let c = old(self).config->0;
                &&& !p.executed ==> voting_end(p, c) <= u32::MAX
                &&& !p.executed && ledger > voting_end(p, c) ==> fits_i128(p.for_votes + p.against_votes)
                &&& !p.executed && ledger > voting_end(p, c) && p.for_votes + p.against_votes >= quorum(c)
                    ==> fits_i128((p.for_votes + p.against_votes) * c.pass_threshold_bps)
            },
        ensures
            r is Ok ==> {
                let c = old(self).config->0;
                let p = old(self).proposals@[proposal_id];
                &&& old(self).config is Some
                &&& old(self).proposals@.contains_key(proposal_id)
                &&& !p.executed
                &&& ledger > p.created_ledger + c.voting_period_ledgers
                &&& p.for_votes * 10000 > (p.for_votes + p.against_votes) * c.pass_threshold_bps
                &&& (p.for_votes + p.against_votes) * 10000 + 10000 > POSSIBLE_VOTING_POWER * c.quorum_bps
            },
            old(self).config is None ==> r == Err::<(), GovernanceError>(GovernanceError::NotInitialized)
                && *final(self) == *old(self),
            old(self).config is Some && !old(self).proposals@.contains_key(proposal_id) ==> r == Err::<
                (),
                GovernanceError,
            >(GovernanceError::ProposalNotFound) && *final(self) == *old(self),
            old(self).config is Some && old(self).proposals@.contains_key(proposal_id) ==> {
                let c = old(self).config->0;
                let p = old(self).proposals@[proposal_id];
                let total = p.for_votes + p.against_votes;
                &&& p.executed ==> r == Err::<(), GovernanceError>(GovernanceError::AlreadyExecuted)
                    && *final(self) == *old(self)
                &&& !p.executed && ledger <= voting_end(p, c) ==> r == Err::<(), GovernanceError>(
                    GovernanceError::ProposalInactive,
                ) && *final(self) == *old(self)
                &&& !p.executed && ledger > voting_end(p, c) && total < quorum(c) ==> r == Err::<
                    (),
                    GovernanceError,
                >(GovernanceError::QuorumNotMet) && *final(self) == *old(self)
                &&& !p.executed && ledger > voting_end(p, c) && total >= quorum(c) && p.for_votes
                    <= pass_threshold(total, c) ==> r == Err::<(), GovernanceError>(
                    GovernanceError::ProposalNotPassed,
                ) && *final(self) == *old(self)
                &&& !p.executed && ledger > voting_end(p, c) && total >= quorum(c) && p.for_votes
                    > pass_threshold(total, c) ==> {
                    &&& r is Ok
                    &&& final(self).proposals@.contains_key(proposal_id)
                    &&& same_proposal(final(self).proposals@[proposal_id], Proposal { executed: true, ..p })
                    &&& final(self).proposals@.remove(proposal_id) == old(self).proposals@.remove(proposal_id)
                    &&& final(self).proposal_ids@ == old(self).proposal_ids@.push(proposal_id)
                    &&& final(self).invocations@.len() == old(self).invocations@.len() + 1
                    &&& final(self).invocations@.subrange(0, old(self).invocations@.len() as int) == old(self).invocations@
                    &&& final(self).invocations@.last().target == p.target_contract
                    &&& final(self).invocations@.last().function_name@ == p.function_name@
                    &&& final(self).events@ == old(self).events@.push(
                        GovernanceEvent::ProposalExecuted { id: proposal_id },
                    )
                    &&& final(self).config == old(self).config
                    &&& final(self).proposal_counter == old(self).proposal_counter
                    &&& final(self).votes@ == old(self).votes@
                    &&& final(self).delegations@ == old(self).delegations@
                    &&& final(self).reputations@ == old(self).reputations@
                }
            },
    {
        let config = match self.config {
            Some(c) => c,
            None => return Err(GovernanceError::NotInitialized),
        };
        let (executed, created_ledger, for_votes, against_votes) = match self.proposals.get(&proposal_id) {
            Some(p) => (p.executed, p.created_ledger, p.for_votes, p.against_votes),
            None => return Err(GovernanceError::ProposalNotFound),
        };
        if executed {
            return Err(GovernanceError::AlreadyExecuted);
        }
        if ledger <= created_ledger + config.voting_period_ledgers {
            return Err(GovernanceError::ProposalInactive);
        }
        let total_power = for_votes + against_votes;
        let quorum = (get_possible_voting_power() * (config.quorum_bps as i128)) / 10000;
        if total_power < quorum {
            return Err(GovernanceError::QuorumNotMet);
        }
        proof {
            let x = POSSIBLE_VOTING_POWER * config.quorum_bps;
            vstd::arithmetic::div_mod::lemma_fundamental_div_mod(x, 10000);
            assert(0 <= x % 10000 < 10000);
            assert(quorum as int == x / 10000);
        }
        let pass_threshold = (total_power * (config.pass_threshold_bps as i128)) / 10000;
        if for_votes <= pass_threshold {
            return Err(GovernanceError::ProposalNotPassed);
        }
        proof {
            lemma_pass_threshold_is_supermajority(for_votes as int, against_votes as int, config);
        }
        let mut proposal = self.proposals.remove(&proposal_id).unwrap();
        proposal.executed = true;
        let invocation = Invocation {
            target: proposal.target_contract,
            function_name: proposal.function_name.clone(),
        };
        self.set_proposal(proposal_id, proposal);
        self.invocations.push(invocation);
        self.events.push(GovernanceEvent::ProposalExecuted { id: proposal_id });
        proof {
            assert(self.proposals@.remove(proposal_id) =~= old(self).proposals@.remove(proposal_id));
            assert(self.invocations@.subrange(0, old(self).invocations@.len() as int) =~= old(self).invocations@);
        }
        Ok(())
    }

    /// The proposals still open at ledger `ledger` (not executed, voting
    /// period not over), one entry per occurrence of their id in the
    /// proposal ids; none when unconfigured.
    pub fn get_active_proposals(&self, ledger: u32) -> (r: Vec<Proposal>)
        requires
            self.config is Some ==> forall|id: u64| #[trigger] self.proposals@.contains_key(id)
                && !self.proposals@[id].executed ==> voting_end(self.proposals@[id], self.config->0) <= u32::MAX,
        ensures
            self.config is None ==> r@.len() == 0,
            self.config is Some ==> {
                let ids = active_ids(self.proposals@, self.proposal_ids@, self.config->0, ledger);
                &&& r@.len() == ids.len()
                &&& forall|k: int| 0 <= k < ids.len() ==> same_proposal(#[trigger] r@[k], self.proposals@[ids[k]])
            },
    {
        let config = match self.config {
            Some(c) => c,
            None => return Vec::new(),
        };
        let mut result: Vec<Proposal> = Vec::new();
        let mut i: usize = 0;
        while i < self.proposal_ids.len()
            invariant
                0 <= i <= self.proposal_ids@.len(),
                self.config == Some(config),
                forall|id: u64| #[trigger] self.proposals@.contains_key(id)
                    && !self.proposals@[id].executed ==> voting_end(self.proposals@[id], config) <= u32::MAX,
                result@.len() == active_ids(self.proposals@, self.proposal_ids@.subrange(0, i as int), config, ledger).len(),
                forall|k: int| 0 <= k < result@.len() ==> same_proposal(#[trigger] result@[k], self.proposals@[active_ids(self.proposals@, self.proposal_ids@.subrange(0, i as int), config, ledger)[k]]),
            decreases self.proposal_ids@.len() - i,
        {
            let ghost prev = active_ids(self.proposals@, self.proposal_ids@.subrange(0, i as int), config, ledger);
            proof {
                assert(self.proposal_ids@.subrange(0, i + 1).drop_last() =~= self.proposal_ids@.subrange(0, i as int));
            }
            let id = self.proposal_ids[i];
            match self.proposals.get(&id) {
                Some(p) => {
                    if !p.executed && ledger <= p.created_ledger + config.voting_period_ledgers {
                        result.push(copy_proposal(p));
                    }
                },
                None => {},
            }
            i = i + 1;
        }
        proof {
            assert(self.proposal_ids@.subrange(0, self.proposal_ids@.len() as int) =~= self.proposal_ids@);
        }
        result
    }

    /// The voting power of `user`'s own reputation.
    pub fn get_voting_power(&self, user: AccountId) -> (r: i128)
        ensures
            r == voting_power(self.reputation_of(user)),
    {
        let rep = self.get_user_reputation(user);
        (rep.0 as i128) * VOTING_POWER_DENOM + rep.1 / 1_000_000
    }

    /// Propose invoking `function_name` on `target_contract`, at ledger
    /// `ledger`. The proposer needs a reputation of at least the threshold
    /// number of resolved calls, and at least one. Returns the proposal id.
    pub fn propose_change(
        &mut self,
        proposer: AccountId,
        target_contract: AccountId,
        function_name: String,
        ledger: u32,
    ) -> (r: Result<u64, GovernanceError>)
        requires
            old(self).config is Some && old(self).reputation_of(proposer).0
                >= old(self).config->0.proposal_threshold_calls && old(self).reputation_of(proposer).0 > 0
                ==> old(self).proposal_counter < u64::MAX,
        ensures
            old(self).config is Some && old(self).reputation_of(proposer).0
                >= old(self).config->0.proposal_threshold_calls && old(self).reputation_of(proposer).0 > 0
                ==> r is Ok,
            old(self).config is None ==> r == Err::<u64, GovernanceError>(GovernanceError::NotInitialized)
                && *final(self) == *old(self),
            old(self).config is Some && (old(self).reputation_of(proposer).0
                < old(self).config->0.proposal_threshold_calls || old(self).reputation_of(proposer).0
                == 0) ==> r == Err::<u64, GovernanceError>(GovernanceError::InsufficientReputation)
                && *final(self) == *old(self),
            r is Ok ==> {
                let id = (old(self).proposal_counter + 1) as u64;
                let p = final(self).proposals@[id];
                &&& old(self).config is Some
                &&& old(self).reputation_of(proposer).0 >= old(self).config->0.proposal_threshold_calls
                &&& old(self).reputation_of(proposer).0 > 0
                &&& r->Ok_0 == id
                &&& final(self).proposal_counter == id
                &&& final(self).proposals@.contains_key(id)
                &&& final(self).proposals@.remove(id) == old(self).proposals@.remove(id)
                &&& same_proposal(p, Proposal {
                    id,
                    proposer,
                    target_contract,
                    function_name,
                    for_votes: 0,
                    against_votes: 0,
                    created_ledger: ledger,
                    executed: false,
                })
                &&& final(self).proposal_ids@ == old(self).proposal_ids@.push(id)
                &&& final(self).events@.len() == old(self).events@.len() + 1
                &&& final(self).events@.subrange(0, old(self).events@.len() as int) == old(self).events@
                &&& final(self).events@.last() matches GovernanceEvent::ProposalCreated {
                    id: eid,
                    proposer: ep,
                    target: et,
                    function_name: ef,
                } && eid == id && ep == proposer && et == target_contract && ef@ == function_name@
                &&& final(self).config == old(self).config
                &&& final(self).votes@ == old(self).votes@
                &&& final(self).delegations@ == old(self).delegations@
                &&& final(self).reputations@ == old(self).reputations@
                &&& final(self).invocations@ == old(self).invocations@
            },
            old(self).config is Some && old(self).reputation_of(proposer).0
                >= old(self).config->0.proposal_threshold_calls && old(self).reputation_of(proposer).0
                > 0 ==> r is Ok,
    {
        let config = match self.config {
            Some(c) => c,
            None => return Err(GovernanceError::NotInitialized),
        };
        let reputation = self.get_user_reputation(proposer);
        let accuracy = reputation.0;
        if accuracy < config.proposal_threshold_calls || accuracy == 0 {
            return Err(GovernanceError::InsufficientReputation);
        }
        let id = self.next_proposal_id();
        let event_name = function_name.clone();
        let proposal = Proposal {
            id,
            proposer,
            target_contract,
            function_name,
            for_votes: 0,
            against_votes: 0,
            created_ledger: ledger,
            executed: false,
        };
        self.set_proposal(id, proposal);
        self.events.push(
            GovernanceEvent::ProposalCreated {
                id,
                proposer,
                target: target_contract,
                function_name: event_name,
            },
        );
        proof {
            assert(self.events@.subrange(0, old(self).events@.len() as int) =~= old(self).events@);
        }
        Ok(id)
    }
}

} // verus!
