//! A single prediction market: one call, its stakes per outcome, and its
//! resolution by the outcome manager.
use vstd::prelude::*;
use std::collections::BTreeMap;
use crate::AccountId;
use crate::arith::fits_i128;

verus! {

broadcast use vstd::std_specs::btree::group_btree_axioms, vstd::laws_cmp::group_laws_cmp;

/// Errors of a market, in the order of their error codes (1 to 13, then 15 to 18).
#[derive(Clone, Copy, Debug, PartialEq, Eq, Structural)]
pub enum MarketError {
    AlreadyInitialized,
    NotInitialized,
    InvalidStakeAmount,
    InvalidEndTime,
    CallNotFound,
    CallEnded,
    CallSettled,
    InvalidPosition,
    Unauthorized,
    ContractPaused,
    CallNotEnded,
    InvalidOutcome,
    InvalidOutcomeCount,
    StakingCutoffActive,
    InvalidCallId,
    ReserveDiscrepancy,
    NotEligibleForBonus,
}

/// The price-movement condition that determines the winning outcome.
#[derive(Clone, Copy, Debug, PartialEq, Eq, Structural)]
pub enum ConditionType {
    TargetAbove(i128),
    TargetBelow(i128),
    PercentUp(u32),
    PercentDown(u32),
    Range(i128, i128),
}

/// Arguments supplied when the factory deploys a new market.
pub struct MarketInitArgs {
    pub stake_token: AccountId,
    pub stake_amount: i128,
    pub start_price: i128,
    pub end_ts: u64,
    pub token_address: AccountId,
    pub pair_id: Vec<u8>,
    /// 32-byte hash of the call's off-chain metadata.
    pub metadata_hash: Vec<u8>,
    pub condition: ConditionType,
    pub outcome_count: u32,
}

/// The market's call.
pub struct Call {
    pub id: u64,
    pub creator: AccountId,
    pub stake_token: AccountId,
    pub stake_amount: i128,
    pub end_ts: u64,
    pub token_address: AccountId,
    pub pair_id: Vec<u8>,
    pub metadata_hash: Vec<u8>,
    pub outcome_count: u32,
    /// Total stake per outcome.
    pub outcome_stakes: BTreeMap<u32, i128>,
    /// Stake per outcome and staker.
    pub stakes: BTreeMap<u32, BTreeMap<AccountId, i128>>,
    pub outcome: u32,
    pub start_price: i128,
    pub end_price: i128,
    pub condition: ConditionType,
    pub settled: bool,
    pub voided: bool,
    pub created_at: u64,
    pub cancelled: bool,
    pub metadata_version: u32,
    pub share_tokens: BTreeMap<u32, AccountId>,
}

/// Per-market configuration set at deploy time.
#[derive(Clone, Copy, Debug, PartialEq, Eq, Structural)]
pub struct MarketConfig {
    pub call_id: u64,
    pub creator: AccountId,
    pub outcome_manager: AccountId,
    pub factory: AccountId,
    pub min_stake: i128,
    pub max_stake_per_user: i128,
    pub staking_cutoff_secs: u64,
    pub paused: bool,
}

/// Events a market publishes.
pub enum MarketEvent {
    Initialized { call_id: u64, creator: AccountId, stake_token: AccountId, end_ts: u64 },
    Created {
        call_id: u64,
        creator: AccountId,
        stake_token: AccountId,
        stake_amount: i128,
        start_price: i128,
        end_ts: u64,
        token_address: AccountId,
        pair_id: Vec<u8>,
        metadata_hash: Vec<u8>,
        outcome_count: u32,
    },
    StakeAdded { call_id: u64, staker: AccountId, amount: i128, position: u32 },
    Resolved { call_id: u64, outcome: u32, end_price: i128 },
}

/// A token movement the market asks the stake token to make.
#[derive(Clone, Copy, Debug, PartialEq, Eq, Structural)]
pub enum EscrowTransfer {
    /// `amount` of `token` from `from` into the market's escrow.
    Deposit { token: AccountId, from: AccountId, amount: i128 },
    /// `amount` of `token` out of the market's escrow to `to`.
    Release { token: AccountId, to: AccountId, amount: i128 },
}

/// The stored state of a market, plus its published events and the token
/// transfers it requested.
pub struct PredictionMarket {
    pub config: Option<MarketConfig>,
    pub call: Option<Call>,
    /// Each staker's total stake per position.
    pub user_stakes: BTreeMap<(AccountId, u32), i128>,
    /// Reentrancy guard.
    pub locked: bool,
    pub early_staker_count: u64,
    pub total_early_staker_bonus_paid: i128,
    pub user_stake_timestamps: BTreeMap<(AccountId, u32), u64>,
    pub user_has_withdrawn: BTreeMap<(AccountId, u32), bool>,
    pub events: Vec<MarketEvent>,
    pub transfers: Vec<EscrowTransfer>,
}

/// Two calls hold the same data.
pub open spec fn same_call(a: Call, b: Call) -> bool {
    &&& a.id == b.id
    &&& a.creator == b.creator
    &&& a.stake_token == b.stake_token
    &&& a.stake_amount == b.stake_amount
    &&& a.end_ts == b.end_ts
    &&& a.token_address == b.token_address
    &&& a.pair_id@ == b.pair_id@
    &&& a.metadata_hash@ == b.metadata_hash@
    &&& a.outcome_count == b.outcome_count
    &&& a.outcome_stakes@ == b.outcome_stakes@
    &&& a.stakes@ == b.stakes@
    &&& a.outcome == b.outcome
    &&& a.start_price == b.start_price
    &&& a.end_price == b.end_price
    &&& a.condition == b.condition
    &&& a.settled == b.settled
    &&& a.voided == b.voided
    &&& a.created_at == b.created_at
    &&& a.cancelled == b.cancelled
    &&& a.metadata_version == b.metadata_version
    &&& a.share_tokens@ == b.share_tokens@
}

/// A copy of `c`.
pub fn copy_call(c: &Call) -> (r: Call)
    ensures
        same_call(r, *c),
{
    Call {
        id: c.id,
        creator: c.creator,
        stake_token: c.stake_token,
        stake_amount: c.stake_amount,
        end_ts: c.end_ts,
        token_address: c.token_address,
        pair_id: copy_bytes(&c.pair_id),
        metadata_hash: copy_bytes(&c.metadata_hash),
        outcome_count: c.outcome_count,
        outcome_stakes: c.outcome_stakes.clone(),
        stakes: c.stakes.clone(),
        outcome: c.outcome,
        start_price: c.start_price,
        end_price: c.end_price,
        condition: c.condition,
        settled: c.settled,
        voided: c.voided,
        created_at: c.created_at,
        cancelled: c.cancelled,
        metadata_version: c.metadata_version,
        share_tokens: c.share_tokens.clone(),
    }
}

/// A copy of a byte string.
pub fn copy_bytes(b: &Vec<u8>) -> (r: Vec<u8>)
    ensures
        r@ == b@,
{
    let r = b.clone();
    proof {
        assert(r@ =~= b@);
    }
    r
}

/// The stake `staker` holds on `position` in the call's stake table.
pub open spec fn staked_in_call(call: Call, position: u32, staker: AccountId) -> int {
    if call.stakes@.contains_key(position) && call.stakes@[position]@.contains_key(staker) {
        call.stakes@[position]@[staker] as int
    } else {
        0
    }
}

/// The total stake recorded on `position`.
pub open spec fn outcome_total(call: Call, position: u32) -> int {
    if call.outcome_stakes@.contains_key(position) {
        call.outcome_stakes@[position] as int
    } else {
        0
    }
}

/// The staking cutoff is active at `now`: a positive cutoff that fits
/// before the end, and `now` within it.
pub open spec fn in_staking_cutoff(cfg: MarketConfig, call: Call, now: u64) -> bool {
    cfg.staking_cutoff_secs > 0 && call.end_ts > cfg.staking_cutoff_secs && now >= call.end_ts
        - cfg.staking_cutoff_secs
}

/// The error a stake is refused with before the staker's new total is
/// computed, if any (checked in this order).
pub open spec fn stake_precheck_error(
    m: PredictionMarket,
    call_id: u64,
    amount: i128,
    position: u32,
    now: u64,
) -> Option<MarketError> {
    if m.locked {
        Some(MarketError::Unauthorized)
    } else if m.config is None {
        Some(MarketError::NotInitialized)
    } else if m.config->0.call_id != call_id {
        Some(MarketError::InvalidCallId)
    } else if m.config->0.paused {
        Some(MarketError::ContractPaused)
    } else if amount <= 0 || amount < m.config->0.min_stake {
        Some(MarketError::InvalidStakeAmount)
    } else if m.call is None {
        Some(MarketError::CallNotFound)
    } else if now >= m.call->0.end_ts {
        Some(MarketError::CallEnded)
    } else if in_staking_cutoff(m.config->0, m.call->0, now) {
        Some(MarketError::StakingCutoffActive)
    } else if m.call->0.settled || m.call->0.cancelled || m.call->0.voided {
        Some(MarketError::CallSettled)
    } else if position < 1 || position > m.call->0.outcome_count {
        Some(MarketError::InvalidPosition)
    } else {
        None
    }
}

/// The error a stake is refused with, if any (checked in this order).
pub open spec fn stake_error(
    m: PredictionMarket,
    staker: AccountId,
    call_id: u64,
    amount: i128,
    position: u32,
    now: u64,
) -> Option<MarketError> {
    if stake_precheck_error(m, call_id, amount, position, now) is Some {
        stake_precheck_error(m, call_id, amount, position, now)
    } else if m.config->0.max_stake_per_user > 0 && staked_in_call(m.call->0, position, staker)
        + amount > m.config->0.max_stake_per_user {
        Some(MarketError::InvalidStakeAmount)
    } else {
        None
    }
}

/// The error a market deployment is aborted with, if any (checked in this
/// order).
pub open spec fn constructor_error(m: PredictionMarket, min_stake: i128, args: MarketInitArgs, now: u64) -> Option<
    MarketError,
> {
    if m.config is Some {
        Some(MarketError::AlreadyInitialized)
    } else if args.stake_amount < min_stake || args.stake_amount <= 0 {
        Some(MarketError::InvalidStakeAmount)
    } else if args.start_price <= 0 {
        Some(MarketError::InvalidStakeAmount)
    } else if args.outcome_count < 2 {
        Some(MarketError::InvalidOutcomeCount)
    } else if args.end_ts <= now {
        Some(MarketError::InvalidEndTime)
    } else {
        None
    }
}

/// The error a resolution is refused with, if any (checked in this order).
pub open spec fn resolve_error(m: PredictionMarket, call_id: u64, outcome: u32, now: u64) -> Option<
    MarketError,
> {
    if m.config is None {
        Some(MarketError::NotInitialized)
    } else if m.config->0.call_id != call_id {
        Some(MarketError::InvalidCallId)
    } else if m.locked {
        Some(MarketError::Unauthorized)
    } else if m.call is None {
        Some(MarketError::CallNotFound)
    } else if outcome < 1 || outcome > m.call->0.outcome_count {
        Some(MarketError::InvalidOutcome)
    } else if now < m.call->0.end_ts {
        Some(MarketError::CallNotEnded)
    } else if m.call->0.voided {
        Some(MarketError::Unauthorized)
    } else {
        None
    }
}

/// Sum of the amounts that `transfers` deposit into escrow.
pub open spec fn deposited(transfers: Seq<EscrowTransfer>) -> int
    decreases transfers.len(),
{
    if transfers.len() == 0 {
        0
    } else {
        deposited(transfers.drop_last()) + match transfers.last() {
            EscrowTransfer::Deposit { amount, .. } => amount as int,
            EscrowTransfer::Release { .. } => 0,
        }
    }
}

/// Sum of the totals recorded on outcomes `1..=n`.
pub open spec fn staked_on_outcomes(outcome_stakes: Map<u32, i128>, n: nat) -> int
    decreases n,
{
    if n == 0 {
        0
    } else {
        staked_on_outcomes(outcome_stakes, (n - 1) as nat) + if outcome_stakes.contains_key(n as u32) {
            outcome_stakes[n as u32] as int
        } else {
            0
        }
    }
}

/// Sum of the stakes in a table of stakers.
pub open spec fn stake_table_total(t: Map<AccountId, i128>) -> int
    decreases t.dom().len(),
    when t.dom().finite()
{
    if t.dom().len() == 0 {
        0
    } else {
        let k = t.dom().choose();
        t[k] + stake_table_total(t.remove(k))
    }
}

/// The table of stakers on `position` (empty when none is stored).
pub open spec fn staker_table(call: Call, position: u32) -> Map<AccountId, i128> {
    if call.stakes@.contains_key(position) {
        call.stakes@[position]@
    } else {
        Map::empty()
    }
}

/// Each outcome's recorded total is the sum of its stakers' stakes.
pub open spec fn call_tallied(call: Call) -> bool {
    forall|p: u32|
        1 <= p <= call.outcome_count ==> #[trigger] outcome_total(call, p) == stake_table_total(
            staker_table(call, p),
        )
}

proof fn lemma_table_total_remove(t: Map<AccountId, i128>, k: AccountId)
    requires
        t.dom().finite(),
        t.dom().contains(k),
    ensures
        stake_table_total(t) == t[k] + stake_table_total(t.remove(k)),
    decreases t.dom().len(),
{
    let c = t.dom().choose();
    if c != k {
        lemma_table_total_remove(t.remove(c), k);
        lemma_table_total_remove(t.remove(k), c);
        assert(t.remove(c).remove(k) =~= t.remove(k).remove(c));
    }
}

proof fn lemma_table_total_insert(t: Map<AccountId, i128>, k: AccountId, v: i128)
    requires
        t.dom().finite(),
    ensures
        stake_table_total(t.insert(k, v)) == stake_table_total(t) - (if t.dom().contains(k) {
            t[k] as int
        } else {
            0
        }) + v,
{
    let t2 = t.insert(k, v);
    lemma_table_total_remove(t2, k);
    if t.dom().contains(k) {
        lemma_table_total_remove(t, k);
        assert(t2.remove(k) =~= t.remove(k));
    } else {
        assert(t2.remove(k) =~= t);
    }
}

/// A stake is accepted only on a valid position of an open call of this
/// market, for at least the minimum stake, and never takes the staker's
/// total on that position above a positive per-user cap.
pub proof fn lemma_stake_acceptance(
    m: PredictionMarket,
    staker: AccountId,
    call_id: u64,
    amount: i128,
    position: u32,
    now: u64,
)
    requires
        stake_error(m, staker, call_id, amount, position, now) is None,
    ensures
        !m.locked,
        m.config is Some && m.config->0.call_id == call_id && !m.config->0.paused,
        m.call is Some,
        amount > 0 && amount >= m.config->0.min_stake,
        1 <= position <= m.call->0.outcome_count,
        now < m.call->0.end_ts,
        !m.call->0.settled && !m.call->0.cancelled && !m.call->0.voided,
        m.config->0.max_stake_per_user > 0 ==> staked_in_call(m.call->0, position, staker) + amount
            <= m.config->0.max_stake_per_user,
{
}

/// Every outcome `1..=outcome_count` of an ended, not voided call can be
/// resolved by this market's outcome manager, the last one included.
pub proof fn lemma_every_outcome_resolvable(m: PredictionMarket, call_id: u64, outcome: u32, now: u64)
    requires
        m.config is Some,
        m.config->0.call_id == call_id,
        !m.locked,
        m.call is Some,
        1 <= outcome <= m.call->0.outcome_count,
        now >= m.call->0.end_ts,
        !m.call->0.voided,
    ensures
        resolve_error(m, call_id, outcome, now) is None,
{
}

proof fn lemma_tallied_same(a: Call, b: Call)
    requires
        call_tallied(a),
        a.outcome_stakes@ == b.outcome_stakes@,
        a.stakes@ == b.stakes@,
        a.outcome_count == b.outcome_count,
    ensures
        call_tallied(b),
{
    assert forall|p: u32| 1 <= p <= b.outcome_count implies #[trigger] outcome_total(b, p) == stake_table_total(
        staker_table(b, p),
    ) by {
        assert(outcome_total(a, p) == stake_table_total(staker_table(a, p)));
        assert(staker_table(a, p) == staker_table(b, p));
    }
}

proof fn lemma_tallied_stake(oc: Call, nc: Call, position: u32, staker: AccountId, amount: i128)
    requires
        call_tallied(oc),
        1 <= position <= oc.outcome_count,
        nc.outcome_count == oc.outcome_count,
        nc.outcome_stakes@ == oc.outcome_stakes@.insert(position, (outcome_total(oc, position) + amount) as i128),
        fits_i128(outcome_total(oc, position) + amount),
        fits_i128(staked_in_call(oc, position, staker) + amount),
        nc.stakes@.contains_key(position),
        nc.stakes@[position]@ == staker_table(oc, position).insert(
            staker,
            (staked_in_call(oc, position, staker) + amount) as i128,
        ),
        nc.stakes@.remove(position) == oc.stakes@.remove(position),
    ensures
        call_tallied(nc),
{
    let t = staker_table(oc, position);
    assert(t.dom().finite()) by {
        if oc.stakes@.contains_key(position) {
            assert(oc.stakes@[position]@.dom().finite());
        } else {
            assert(t.dom() =~= Set::<AccountId>::empty());
        }
    }
    lemma_table_total_insert(t, staker, (staked_in_call(oc, position, staker) + amount) as i128);
    assert(outcome_total(oc, position) == stake_table_total(t));
    assert forall|p: u32| 1 <= p <= nc.outcome_count implies #[trigger] outcome_total(nc, p) == stake_table_total(
        staker_table(nc, p),
    ) by {
        if p != position {
            assert(outcome_total(oc, p) == stake_table_total(staker_table(oc, p)));
            assert(oc.stakes@.remove(position).contains_key(p) == oc.stakes@.contains_key(p));
            assert(nc.stakes@.remove(position).contains_key(p) == nc.stakes@.contains_key(p));
            if oc.stakes@.contains_key(p) {
                assert(oc.stakes@.remove(position)[p] == oc.stakes@[p]);
                assert(nc.stakes@.remove(position)[p] == nc.stakes@[p]);
            }
            assert(staker_table(nc, p) == staker_table(oc, p));
        } else {
            assert(staker_table(nc, p) == t.insert(staker, (staked_in_call(oc, position, staker) + amount) as i128));
        }
    }
}

proof fn lemma_deposited_push(transfers: Seq<EscrowTransfer>, t: EscrowTransfer)
    ensures
        deposited(transfers.push(t)) == deposited(transfers) + match t {
            EscrowTransfer::Deposit { amount, .. } => amount as int,
            EscrowTransfer::Release { .. } => 0,
        },
{
    assert(transfers.push(t).drop_last() =~= transfers);
}

proof fn lemma_staked_on_outcomes_insert(outcome_stakes: Map<u32, i128>, n: nat, p: u32, v: i128)
    requires
        1 <= p <= n,
        n <= u32::MAX,
    ensures
        staked_on_outcomes(outcome_stakes.insert(p, v), n) == staked_on_outcomes(outcome_stakes, n) - (
        if outcome_stakes.contains_key(p) {
            outcome_stakes[p] as int
        } else {
            0
        }) + v,
    decreases n,
{
    if n > p {
        lemma_staked_on_outcomes_insert(outcome_stakes, (n - 1) as nat, p, v);
        assert((n as u32) != p);
    } else {
        lemma_staked_on_outcomes_unchanged(outcome_stakes, outcome_stakes.insert(p, v), (n - 1) as nat);
    }
}

proof fn lemma_staked_on_outcomes_unchanged(a: Map<u32, i128>, b: Map<u32, i128>, n: nat)
    requires
        n < u32::MAX,
        forall|i: u32| 1 <= i <= n ==> a.contains_key(i) == b.contains_key(i),
        forall|i: u32| 1 <= i <= n && a.contains_key(i) ==> a[i] == b[i],
    ensures
        staked_on_outcomes(a, n) == staked_on_outcomes(b, n),
    decreases n,
{
    if n > 0 {
        lemma_staked_on_outcomes_unchanged(a, b, (n - 1) as nat);
        assert(a.contains_key(n as u32) == b.contains_key(n as u32));
    }
}

proof fn lemma_staked_on_outcomes_zero(outcome_stakes: Map<u32, i128>, n: nat)
    requires
        n <= u32::MAX,
        forall|i: u32| #[trigger] outcome_stakes.contains_key(i) ==> outcome_stakes[i] == 0,
    ensures
        staked_on_outcomes(outcome_stakes, n) == 0,
    decreases n,
{
    if n > 0 {
        lemma_staked_on_outcomes_zero(outcome_stakes, (n - 1) as nat);
        if outcome_stakes.contains_key(n as u32) {
            assert(outcome_stakes[n as u32] == 0);
        }
    }
}

impl PredictionMarket {
    /// The stake recorded on the call's outcomes (none before a call exists).
    pub open spec fn recorded_stake(self) -> int {
        match self.call {
            Some(c) => staked_on_outcomes(c.outcome_stakes@, c.outcome_count as nat),
            None => 0,
        }
    }

    /// Escrow follows the stake: what an operation asks to deposit into
    /// escrow is exactly what it adds to the stake recorded on the call's
    /// outcomes. Every operation but the constructor keeps this; the
    /// constructor records no stake and asks for no deposit.
    pub open spec fn escrow_follows_stake(self, next: Self) -> bool {
        deposited(next.transfers@) - deposited(self.transfers@) == next.recorded_stake() - self.recorded_stake()
    }

    /// Each outcome's total is the sum of its stakers' stakes. Every
    /// operation keeps this.
    pub open spec fn stakes_tallied(self) -> bool {
        self.call matches Some(c) ==> call_tallied(c)
    }

    /// A freshly deployed, unconfigured market.
    pub fn new() -> (m: Self)
        ensures
            m.config is None,
            m.call is None,
            m.user_stakes@ == Map::<(AccountId, u32), i128>::empty(),
            !m.locked,
            m.early_staker_count == 0,
            m.total_early_staker_bonus_paid == 0,
            m.user_stake_timestamps@ == Map::<(AccountId, u32), u64>::empty(),
            m.user_has_withdrawn@ == Map::<(AccountId, u32), bool>::empty(),
            m.events@.len() == 0,
            m.transfers@.len() == 0,
            m.stakes_tallied(),
            m.recorded_stake() == 0,
    {
        PredictionMarket {
            config: None,
            call: None,
            user_stakes: BTreeMap::new(),
            locked: false,
            early_staker_count: 0,
            total_early_staker_bonus_paid: 0,
            user_stake_timestamps: BTreeMap::new(),
            user_has_withdrawn: BTreeMap::new(),
            events: Vec::new(),
            transfers: Vec::new(),
        }
    }

    /// Why a stake would be refused before the staker's new total is
    /// computed, if it would.
    pub fn check_stake_precheck(&self, call_id: u64, amount: i128, position: u32, now: u64) -> (r: Option<
        MarketError,
    >)
        ensures
            r == stake_precheck_error(*self, call_id, amount, position, now),
    {
        if self.locked {
            return Some(MarketError::Unauthorized);
        }
        let config = match self.config {
            Some(c) => c,
            None => return Some(MarketError::NotInitialized),
        };
        if config.call_id != call_id {
            return Some(MarketError::InvalidCallId);
        }
        if config.paused {
            return Some(MarketError::ContractPaused);
        }
        if amount <= 0 || amount < config.min_stake {
            return Some(MarketError::InvalidStakeAmount);
        }
        let call = match &self.call {
            Some(c) => c,
            None => return Some(MarketError::CallNotFound),
        };
        if now >= call.end_ts {
            return Some(MarketError::CallEnded);
        }
        let cutoff = config.staking_cutoff_secs;
        if cutoff > 0 && call.end_ts > cutoff && now >= call.end_ts - cutoff {
            return Some(MarketError::StakingCutoffActive);
        }
        if call.settled || call.cancelled || call.voided {
            return Some(MarketError::CallSettled);
        }
        if position < 1 || position > call.outcome_count {
            return Some(MarketError::InvalidPosition);
        }
        None
    }

    /// Why a stake would be refused, if it would; the staker's new total
    /// must fit an `i128` once the prechecks pass.
    pub fn check_stake(&self, staker: AccountId, call_id: u64, amount: i128, position: u32, now: u64) -> (r: Option<
        MarketError,
    >)
        requires
            stake_precheck_error(*self, call_id, amount, position, now) is None ==> fits_i128(
                staked_in_call(self.call->0, position, staker) + amount,
            ),
        ensures
            r == stake_error(*self, staker, call_id, amount, position, now),
    {
        let pre = self.check_stake_precheck(call_id, amount, position, now);
        if pre.is_some() {
            return pre;
        }
        let config = self.config.unwrap();
        let call = match &self.call {
            Some(c) => c,
            None => return None,
        };
        let current = match call.stakes.get(&position) {
            Some(inner) => match inner.get(&staker) {
                Some(v) => *v,
                None => 0,
            },
            None => 0,
        };
        if config.max_stake_per_user > 0 && current + amount > config.max_stake_per_user {
            return Some(MarketError::InvalidStakeAmount);
        }
        None
    }

    /// Stake `amount` on `position` for `staker` at time `now`. Refused
    /// (with nothing changed) as `stake_error` says; otherwise the stake is
    /// added to the outcome's total, to the staker's entry in the call and to
    /// the staker's stored stake, a deposit of `amount` from the staker is
    /// requested and `StakeAdded` is published. Returns the updated call.
    pub fn stake_on_call(
        &mut self,
        staker: AccountId,
        call_id: u64,
        amount: i128,
        position: u32,
        now: u64,
    ) -> (r: Result<Call, MarketError>)
        requires
            stake_precheck_error(*old(self), call_id, amount, position, now) is None ==> fits_i128(
                staked_in_call(old(self).call->0, position, staker) + amount,
            ),
            stake_error(*old(self), staker, call_id, amount, position, now) is None ==> fits_i128(
                outcome_total(old(self).call->0, position) + amount,
            ),
        ensures
            old(self).call is Some ==> final(self).call is Some && forall|p: u32|
                #[trigger] outcome_total(final(self).call->0, p) >= outcome_total(old(self).call->0, p),
            r is Ok ==> {
                let c = old(self).config->0;
                &&& old(self).config is Some && old(self).call is Some && final(self).call is Some
                &&& 1 <= position <= old(self).call->0.outcome_count
                &&& amount > 0 && amount >= c.min_stake
                &&& now < old(self).call->0.end_ts
                &&& !(c.staking_cutoff_secs > 0 && old(self).call->0.end_ts > c.staking_cutoff_secs && now
                    + c.staking_cutoff_secs >= old(self).call->0.end_ts)
                &&& !old(self).locked && !c.paused && c.call_id == call_id
                &&& !old(self).call->0.settled && !old(self).call->0.cancelled && !old(self).call->0.voided
                &&& staked_in_call(final(self).call->0, position, staker) == staked_in_call(
                    old(self).call->0,
                    position,
                    staker,
                ) + amount
                &&& c.max_stake_per_user > 0 ==> staked_in_call(final(self).call->0, position, staker)
                    <= c.max_stake_per_user
            },
            old(self).escrow_follows_stake(*final(self)),
            old(self).stakes_tallied() ==> final(self).stakes_tallied(),
            stake_error(*old(self), staker, call_id, amount, position, now) matches Some(e) ==> r
                == Err::<Call, MarketError>(e) && *final(self) == *old(self),
            stake_error(*old(self), staker, call_id, amount, position, now) is None ==> {
                let oc = old(self).call->0;
                let nc = final(self).call->0;
                let new_stake = staked_in_call(oc, position, staker) + amount;
                &&& r is Ok && same_call(r->Ok_0, nc)
                &&& final(self).call is Some
                &&& nc.outcome_stakes@ == oc.outcome_stakes@.insert(
                    position,
                    (outcome_total(oc, position) + amount) as i128,
                )
                &&& nc.stakes@.contains_key(position)
                &&& nc.stakes@[position]@ == (if oc.stakes@.contains_key(position) {
                    oc.stakes@[position]@
                } else {
                    Map::empty()
                }).insert(staker, new_stake as i128)
                &&& nc.stakes@.remove(position) == oc.stakes@.remove(position)
                &&& same_call(Call { outcome_stakes: nc.outcome_stakes, stakes: nc.stakes, ..oc }, nc)
                &&& final(self).user_stakes@ == old(self).user_stakes@.insert(
                    (staker, position),
                    new_stake as i128,
                )
                &&& final(self).config == old(self).config
                &&& final(self).locked == old(self).locked
                &&& final(self).events@.len() == old(self).events@.len() + 1
                &&& final(self).events@.subrange(0, old(self).events@.len() as int) == old(self).events@
                &&& final(self).events@.last() == (MarketEvent::StakeAdded { call_id, staker, amount, position })
                &&& final(self).transfers@ == old(self).transfers@.push(
                    EscrowTransfer::Deposit { token: oc.stake_token, from: staker, amount },
                )
                &&& final(self).user_stake_timestamps@ == old(self).user_stake_timestamps@
                &&& final(self).user_has_withdrawn@ == old(self).user_has_withdrawn@
                &&& final(self).early_staker_count == old(self).early_staker_count
                &&& final(self).total_early_staker_bonus_paid == old(self).total_early_staker_bonus_paid
            },
    {
        if self.locked {
            return Err(MarketError::Unauthorized);
        }
        let config = match self.config {
            Some(c) => c,
            None => return Err(MarketError::NotInitialized),
        };
        if config.call_id != call_id {
            return Err(MarketError::InvalidCallId);
        }
        if config.paused {
            return Err(MarketError::ContractPaused);
        }
        if amount <= 0 || amount < config.min_stake {
            return Err(MarketError::InvalidStakeAmount);
        }
        let current_staker_stake: i128;
        {
            let call = match &self.call {
                Some(c) => c,
                None => return Err(MarketError::CallNotFound),
            };
            if now >= call.end_ts {
                return Err(MarketError::CallEnded);
            }
            let cutoff = config.staking_cutoff_secs;
            if cutoff > 0 && call.end_ts > cutoff && now >= call.end_ts - cutoff {
                return Err(MarketError::StakingCutoffActive);
            }
            if call.settled || call.cancelled || call.voided {
                return Err(MarketError::CallSettled);
            }
            if position < 1 || position > call.outcome_count {
                return Err(MarketError::InvalidPosition);
            }
            current_staker_stake = match call.stakes.get(&position) {
                Some(inner) => match inner.get(&staker) {
                    Some(v) => *v,
                    None => 0,
                },
                None => 0,
            };
            let updated = current_staker_stake + amount;
            if config.max_stake_per_user > 0 && updated > config.max_stake_per_user {
                return Err(MarketError::InvalidStakeAmount);
            }
        }
        let ghost oc = self.call->0;
        let updated_staker_stake = current_staker_stake + amount;
        let mut call = self.call.take().unwrap();
        let current_total = match call.outcome_stakes.get(&position) {
            Some(v) => *v,
            None => 0,
        };
        call.outcome_stakes.insert(position, current_total + amount);
        let mut outcome_stakers = match call.stakes.remove(&position) {
            Some(inner) => inner,
            None => BTreeMap::new(),
        };
        outcome_stakers.insert(staker, updated_staker_stake);
        call.stakes.insert(position, outcome_stakers);
        self.transfers.push(EscrowTransfer::Deposit { token: call.stake_token, from: staker, amount });
        self.user_stakes.insert((staker, position), updated_staker_stake);
        let result = copy_call(&call);
        self.call = Some(call);
        self.events.push(MarketEvent::StakeAdded { call_id, staker, amount, position });
        proof {
            lemma_deposited_push(
                old(self).transfers@,
                EscrowTransfer::Deposit { token: oc.stake_token, from: staker, amount },
            );
            lemma_staked_on_outcomes_insert(
                oc.outcome_stakes@,
                oc.outcome_count as nat,
                position,
                (current_total + amount) as i128,
            );
            assert(self.call->0.stakes@.remove(position) =~= oc.stakes@.remove(position));
            if old(self).stakes_tallied() {
                lemma_tallied_stake(oc, self.call->0, position, staker, amount);
            }
            assert(self.events@.subrange(0, old(self).events@.len() as int) =~= old(self).events@);
        }
        Ok(result)
    }

    /// Record the resolved `outcome` and `end_price` (on behalf of the
    /// outcome manager) at time `now`. Refused, with nothing changed, as
    /// `resolve_error` says; otherwise publishes `Resolved` and returns the
    /// updated call.
    pub fn resolve_call(&mut self, call_id: u64, outcome: u32, end_price: i128, now: u64) -> (r:
        Result<Call, MarketError>)
        ensures
            ({
                let o = *old(self);
                &&& o.config is Some && o.config->0.call_id == call_id && !o.locked && o.call is Some
                &&& 1 <= outcome <= o.call->0.outcome_count && now >= o.call->0.end_ts && !o.call->0.voided
            }) ==> r is Ok && final(self).call is Some && final(self).call->0.outcome == outcome
                && final(self).call->0.end_price == end_price,
            old(self).escrow_follows_stake(*final(self)),
            old(self).stakes_tallied() ==> final(self).stakes_tallied(),
            resolve_error(*old(self), call_id, outcome, now) matches Some(e) ==> r == Err::<
                Call,
                MarketError,
            >(e) && *final(self) == *old(self),
            resolve_error(*old(self), call_id, outcome, now) is None ==> {
                let oc = old(self).call->0;
                let nc = final(self).call->0;
                &&& r is Ok && same_call(r->Ok_0, nc)
                &&& final(self).call is Some
                &&& same_call(nc, Call { outcome, end_price, ..oc })
                &&& final(self).config == old(self).config
                &&& final(self).locked == old(self).locked
                &&& final(self).user_stakes@ == old(self).user_stakes@
                &&& final(self).events@.len() == old(self).events@.len() + 1
                &&& final(self).events@.subrange(0, old(self).events@.len() as int) == old(self).events@
                &&& final(self).events@.last() == (MarketEvent::Resolved { call_id, outcome, end_price })
                &&& final(self).transfers@ == old(self).transfers@
            },
    {
        let config = match self.config {
            Some(c) => c,
            None => return Err(MarketError::NotInitialized),
        };
        if config.call_id != call_id {
            return Err(MarketError::InvalidCallId);
        }
        if self.locked {
            return Err(MarketError::Unauthorized);
        }
        match &self.call {
            Some(call) => {
                if outcome < 1 || outcome > call.outcome_count {
                    return Err(MarketError::InvalidOutcome);
                }
                if now < call.end_ts {
                    return Err(MarketError::CallNotEnded);
                }
                if call.voided {
                    return Err(MarketError::Unauthorized);
                }
            },
            None => return Err(MarketError::CallNotFound),
        }
        let mut call = self.call.take().unwrap();
        call.outcome = outcome;
        call.end_price = end_price;
        let result = copy_call(&call);
        self.call = Some(call);
        self.events.push(MarketEvent::Resolved { call_id, outcome, end_price });
        proof {
            assert(self.events@.subrange(0, old(self).events@.len() as int) =~= old(self).events@);
            if old(self).stakes_tallied() {
                lemma_tallied_same(old(self).call->0, self.call->0);
            }
        }
        Ok(result)
    }

    /// Mark the call settled (on behalf of the outcome manager); a call is
    /// settled at most once.
    pub fn mark_settled(&mut self, call_id: u64) -> (r: Result<(), MarketError>)
        ensures
            old(self).escrow_follows_stake(*final(self)),
            old(self).stakes_tallied() ==> final(self).stakes_tallied(),
            old(self).config is None ==> r == Err::<(), MarketError>(MarketError::NotInitialized),
            old(self).config is Some && old(self).config->0.call_id != call_id ==> r == Err::<(), MarketError>(
                MarketError::InvalidCallId,
            ),
            old(self).config is Some && old(self).config->0.call_id == call_id && old(self).call is None ==> r
                == Err::<(), MarketError>(MarketError::CallNotFound),
            old(self).config is Some && old(self).config->0.call_id == call_id && old(self).call is Some && old(self).call->0.settled ==> r == Err::<(), MarketError>(MarketError::CallSettled),
            old(self).config is Some && old(self).config->0.call_id == call_id && old(self).call is Some
                && !old(self).call->0.settled ==> r is Ok,
            r is Err ==> *final(self) == *old(self),
            r is Ok ==> {
                &&& old(self).config is Some && old(self).config->0.call_id == call_id
                &&& old(self).call is Some && !old(self).call->0.settled
                &&& final(self).call is Some && same_call(final(self).call->0, Call { settled: true, ..old(self).call->0 })
                &&& final(self).config == old(self).config
                &&& final(self).locked == old(self).locked
                &&& final(self).user_stakes@ == old(self).user_stakes@
                &&& final(self).events@ == old(self).events@
                &&& final(self).transfers@ == old(self).transfers@
            },
    {
        let config = match self.config {
            Some(c) => c,
            None => return Err(MarketError::NotInitialized),
        };
        if config.call_id != call_id {
            return Err(MarketError::InvalidCallId);
        }
        match &self.call {
            Some(call) => {
                if call.settled {
                    return Err(MarketError::CallSettled);
                }
            },
            None => return Err(MarketError::CallNotFound),
        }
        let mut call = self.call.take().unwrap();
        call.settled = true;
        self.call = Some(call);
        proof {
            if old(self).stakes_tallied() {
                lemma_tallied_same(old(self).call->0, self.call->0);
            }
        }
        Ok(())
    }

    /// Release `amount` of the stake token from escrow to `to` (on behalf of
    /// the outcome manager).
    pub fn release_escrow(&mut self, call_id: u64, to: AccountId, amount: i128) -> (r: Result<(), MarketError>)
        ensures
            old(self).escrow_follows_stake(*final(self)),
            old(self).stakes_tallied() ==> final(self).stakes_tallied(),
            old(self).config is None ==> r == Err::<(), MarketError>(MarketError::NotInitialized),
            old(self).config is Some && old(self).config->0.call_id != call_id ==> r == Err::<(), MarketError>(
                MarketError::InvalidCallId,
            ),
            old(self).config is Some && old(self).config->0.call_id == call_id && old(self).call is None ==> r
                == Err::<(), MarketError>(MarketError::CallNotFound),
            old(self).config is Some && old(self).config->0.call_id == call_id && old(self).call is Some ==> r is Ok,
            r is Err ==> *final(self) == *old(self),
            r is Ok ==> {
                &&& old(self).config is Some && old(self).config->0.call_id == call_id
                &&& old(self).call is Some
                &&& final(self).transfers@ == old(self).transfers@.push(
                    EscrowTransfer::Release { token: old(self).call->0.stake_token, to, amount },
                )
                &&& final(self).config == old(self).config
                &&& final(self).call == old(self).call
                &&& final(self).user_stakes@ == old(self).user_stakes@
                &&& final(self).locked == old(self).locked
                &&& final(self).events@ == old(self).events@
            },
    {
        let config = match self.config {
            Some(c) => c,
            None => return Err(MarketError::NotInitialized),
        };
        if config.call_id != call_id {
            return Err(MarketError::InvalidCallId);
        }
        let token = match &self.call {
            Some(call) => call.stake_token,
            None => return Err(MarketError::CallNotFound),
        };
        self.transfers.push(EscrowTransfer::Release { token, to, amount });
        proof {
            lemma_deposited_push(old(self).transfers@, EscrowTransfer::Release { token, to, amount });
        }
        Ok(())
    }

    /// Store `call` as the market's call.
    pub fn set_call(&mut self, call: Call)
        ensures
            final(self).call == Some(call),
            *final(self) == (PredictionMarket { call: Some(call), ..*old(self) }),
    {
        self.call = Some(call);
    }

    /// The market's call, for the configured call id.
    pub fn get_call(&self, call_id: u64) -> (r: Result<Call, MarketError>)
        ensures
            self.config is None ==> r == Err::<Call, MarketError>(MarketError::NotInitialized),
            self.config is Some && self.config->0.call_id != call_id ==> r == Err::<Call, MarketError>(
                MarketError::InvalidCallId,
            ),
            self.config is Some && self.config->0.call_id == call_id && self.call is None ==> r == Err::<
                Call,
                MarketError,
            >(MarketError::CallNotFound),
            self.config is Some && self.config->0.call_id == call_id && self.call is Some ==> r is Ok && same_call(r->Ok_0, self.call->0),
    {
        let config = match self.config {
            Some(c) => c,
            None => return Err(MarketError::NotInitialized),
        };
        if config.call_id != call_id {
            return Err(MarketError::InvalidCallId);
        }
        match &self.call {
            Some(call) => Ok(copy_call(call)),
            None => Err(MarketError::CallNotFound),
        }
    }

    /// A staker's recorded stake on `position` (0 when none), for the
    /// configured call id.
    pub fn get_staker_stake(&self, call_id: u64, staker: AccountId, position: u32) -> (r: Result<
        i128,
        MarketError,
    >)
        ensures
            r == (match self.config {
                None => Err(MarketError::NotInitialized),
                Some(c) => if c.call_id != call_id {
                    Err(MarketError::InvalidCallId)
                } else {
                    Ok(self.stored_user_stake(staker, position))
                },
            }),
    {
        let config = match self.config {
            Some(c) => c,
            None => return Err(MarketError::NotInitialized),
        };
        if config.call_id != call_id {
            return Err(MarketError::InvalidCallId);
        }
        Ok(self.get_user_stake(staker, position))
    }

    /// Total stakes per outcome, for the configured call id.
    pub fn get_outcome_stakes(&self, call_id: u64) -> (r: Result<BTreeMap<u32, i128>, MarketError>)
        ensures
            self.config is None ==> r == Err::<BTreeMap<u32, i128>, MarketError>(MarketError::NotInitialized),
            self.config is Some && self.config->0.call_id != call_id ==> r == Err::<BTreeMap<u32, i128>, MarketError>(
                MarketError::InvalidCallId,
            ),
            self.config is Some && self.config->0.call_id == call_id && self.call is None ==> r == Err::<
                BTreeMap<u32, i128>,
                MarketError,
            >(MarketError::CallNotFound),
            self.config is Some && self.config->0.call_id == call_id && self.call is Some ==> r is Ok && r->Ok_0@ == self.call->0.outcome_stakes@,
    {
        let call = self.get_call(call_id)?;
        Ok(call.outcome_stakes)
    }

    /// The call id the factory assigned to this market.
    pub fn get_call_id(&self) -> (r: Result<u64, MarketError>)
        ensures
            r == (match self.config {
                Some(c) => Ok(c.call_id),
                None => Err(MarketError::NotInitialized),
            }),
    {
        match self.config {
            Some(c) => Ok(c.call_id),
            None => Err(MarketError::NotInitialized),
        }
    }

    /// The factory that deployed this market.
    pub fn get_factory(&self) -> (r: Result<AccountId, MarketError>)
        ensures
            r == (match self.config {
                Some(c) => Ok(c.factory),
                None => Err(MarketError::NotInitialized),
            }),
    {
        match self.config {
            Some(c) => Ok(c.factory),
            None => Err(MarketError::NotInitialized),
        }
    }

    /// The stored stake of `staker` on `position`, 0 when none.
    pub open spec fn stored_user_stake(self, staker: AccountId, position: u32) -> i128 {
        if self.user_stakes@.contains_key((staker, position)) {
            self.user_stakes@[(staker, position)]
        } else {
            0
        }
    }

    /// Store the stake of `staker` on `position`.
    pub fn set_user_stake(&mut self, staker: AccountId, position: u32, amount: i128)
        ensures
            final(self).user_stakes@ == old(self).user_stakes@.insert((staker, position), amount),
            final(self).config == old(self).config,
            final(self).call == old(self).call,
            final(self).locked == old(self).locked,
    {
        self.user_stakes.insert((staker, position), amount);
    }

    /// The stored stake of `staker` on `position`, 0 when none.
    pub fn get_user_stake(&self, staker: AccountId, position: u32) -> (r: i128)
        ensures
            r == self.stored_user_stake(staker, position),
    {
        match self.user_stakes.get(&(staker, position)) {
            Some(v) => *v,
            None => 0,
        }
    }

    /// Take the reentrancy lock.
    pub fn acquire_lock(&mut self)
        ensures
            final(self).locked,
            final(self).config == old(self).config,
            final(self).call == old(self).call,
    {
        self.locked = true;
    }

    /// Release the reentrancy lock.
    pub fn release_lock(&mut self)
        ensures
            !final(self).locked,
            final(self).config == old(self).config,
            final(self).call == old(self).call,
    {
        self.locked = false;
    }

    /// Whether the reentrancy lock is held.
    pub fn is_locked(&self) -> (r: bool)
        ensures
            r == self.locked,
    {
        self.locked
    }

    /// Store when `staker` last staked on `position`.
    pub fn set_user_stake_timestamp(&mut self, staker: AccountId, position: u32, ts: u64)
        ensures
            final(self).user_stake_timestamps@ == old(self).user_stake_timestamps@.insert(
                (staker, position),
                ts,
            ),
            final(self).config == old(self).config,
            final(self).call == old(self).call,
    {
        self.user_stake_timestamps.insert((staker, position), ts);
    }

    /// When `staker` last staked on `position`, 0 when never.
    pub fn get_user_stake_timestamp(&self, staker: AccountId, position: u32) -> (r: u64)
        ensures
            r == (if self.user_stake_timestamps@.contains_key((staker, position)) {
                self.user_stake_timestamps@[(staker, position)]
            } else {
                0
            }),
    {
        match self.user_stake_timestamps.get(&(staker, position)) {
            Some(v) => *v,
            None => 0,
        }
    }

    /// Store whether `staker` has withdrawn from `position`.
    pub fn set_user_has_withdrawn(&mut self, staker: AccountId, position: u32, withdrawn: bool)
        ensures
            final(self).user_has_withdrawn@ == old(self).user_has_withdrawn@.insert(
                (staker, position),
                withdrawn,
            ),
            final(self).config == old(self).config,
            final(self).call == old(self).call,
    {
        self.user_has_withdrawn.insert((staker, position), withdrawn);
    }

    /// Whether `staker` has withdrawn from `position` (false when never set).
    pub fn get_user_has_withdrawn(&self, staker: AccountId, position: u32) -> (r: bool)
        ensures
            r == (self.user_has_withdrawn@.contains_key((staker, position))
                && self.user_has_withdrawn@[(staker, position)]),
    {
        match self.user_has_withdrawn.get(&(staker, position)) {
            Some(v) => *v,
            None => false,
        }
    }

    /// Number of early stakers recorded.
    pub fn get_early_staker_count(&self) -> (r: u64)
        ensures
            r == self.early_staker_count,
    {
        self.early_staker_count
    }

    /// Store the number of early stakers.
    pub fn set_early_staker_count(&mut self, count: u64)
        ensures
            final(self).early_staker_count == count,
            final(self).config == old(self).config,
            final(self).call == old(self).call,
    {
        self.early_staker_count = count;
    }

    /// Total early-staker bonus paid so far.
    pub fn get_total_early_staker_bonus_paid(&self) -> (r: i128)
        ensures
            r == self.total_early_staker_bonus_paid,
    {
        self.total_early_staker_bonus_paid
    }

    /// Store the total early-staker bonus paid.
    pub fn set_total_early_staker_bonus_paid(&mut self, total: i128)
        ensures
            final(self).total_early_staker_bonus_paid == total,
            final(self).config == old(self).config,
            final(self).call == old(self).call,
    {
        self.total_early_staker_bonus_paid = total;
    }

    /// Why deploying a market with these arguments at time `now` is refused,
    /// if it is (the constructor aborts the deployment with that error).
    pub fn check_constructor(&self, min_stake: i128, args: &MarketInitArgs, now: u64) -> (r: Option<MarketError>)
        ensures
            r == constructor_error(*self, min_stake, *args, now),
    {
        if self.config.is_some() {
            Some(MarketError::AlreadyInitialized)
        } else if args.stake_amount < min_stake || args.stake_amount <= 0 {
            Some(MarketError::InvalidStakeAmount)
        } else if args.start_price <= 0 {
            Some(MarketError::InvalidStakeAmount)
        } else if args.outcome_count < 2 {
            Some(MarketError::InvalidOutcomeCount)
        } else if args.end_ts <= now {
            Some(MarketError::InvalidEndTime)
        } else {
            None
        }
    }

    /// Set up the market's configuration and call at deployment time `now`.
    /// Deployment is aborted (see `check_constructor`) unless the market is
    /// unconfigured, the stake is positive and at least `min_stake`, the
    /// start price positive, there are at least two outcomes and the end lies
    /// in the future. Every outcome `1..=outcome_count` starts with no stake.
    pub fn __constructor(
        &mut self,
        call_id: u64,
        creator: AccountId,
        outcome_manager: AccountId,
        factory: AccountId,
        min_stake: i128,
        max_stake_per_user: i128,
        staking_cutoff_secs: u64,
        args: MarketInitArgs,
        now: u64,
    )
        requires
            constructor_error(*old(self), min_stake, args, now) is None,
        ensures
            final(self).transfers@ == old(self).transfers@,
            final(self).recorded_stake() == 0,
            final(self).stakes_tallied(),
            ({
                let call = final(self).call->0;
                &&& old(self).config is None
                &&& final(self).config == Some(
                    MarketConfig {
                        call_id,
                        creator,
                        outcome_manager,
                        factory,
                        min_stake,
                        max_stake_per_user,
                        staking_cutoff_secs,
                        paused: false,
                    },
                )
                &&& final(self).call is Some
                &&& call.id == call_id
                &&& call.creator == creator
                &&& call.stake_token == args.stake_token
                &&& call.stake_amount == args.stake_amount
                &&& call.end_ts == args.end_ts
                &&& call.token_address == args.token_address
                &&& call.pair_id@ == args.pair_id@
                &&& call.metadata_hash@ == args.metadata_hash@
                &&& call.outcome_count == args.outcome_count
                &&& (forall|i: u32| #[trigger]
                    call.outcome_stakes@.contains_key(i) <==> 1 <= i <= args.outcome_count)
                &&& (forall|i: u32| #[trigger]
                    call.outcome_stakes@.contains_key(i) ==> call.outcome_stakes@[i] == 0)
                &&& (forall|i: u32| #[trigger]
                    call.stakes@.contains_key(i) <==> 1 <= i <= args.outcome_count)
                &&& (forall|i: u32| #[trigger]
                    call.stakes@.contains_key(i) ==> call.stakes@[i]@ == Map::<
                        AccountId,
                        i128,
                    >::empty())
                &&& call.outcome == 0
                &&& call.start_price == args.start_price
                &&& call.end_price == 0
                &&& call.condition == args.condition
                &&& !call.settled && !call.voided && !call.cancelled
                &&& call.created_at == now
                &&& call.metadata_version == 0
                &&& call.share_tokens@ == Map::<u32, AccountId>::empty()
                &&& final(self).events@.len() == old(self).events@.len() + 2
                &&& final(self).events@.subrange(0, old(self).events@.len() as int) == old(self).events@
                &&& final(self).events@[old(self).events@.len() as int] == (MarketEvent::Initialized {
                    call_id,
                    creator,
                    stake_token: args.stake_token,
                    end_ts: args.end_ts,
                })
                &&& final(self).events@[old(self).events@.len() as int + 1] matches MarketEvent::Created {
                    call_id: e_id,
                    creator: e_creator,
                    stake_token: e_token,
                    stake_amount: e_amount,
                    start_price: e_price,
                    end_ts: e_end,
                    token_address: e_addr,
                    pair_id: e_pair,
                    metadata_hash: e_hash,
                    outcome_count: e_count,
                } && e_id == call_id && e_creator == creator && e_token == args.stake_token
                    && e_amount == args.stake_amount && e_price == args.start_price && e_end
                    == args.end_ts && e_addr == args.token_address && e_pair@ == args.pair_id@
                    && e_hash@ == args.metadata_hash@ && e_count == args.outcome_count
                &&& final(self).user_stakes@ == old(self).user_stakes@
                &&& final(self).locked == old(self).locked
                &&& final(self).transfers@ == old(self).transfers@
            }),
    {

        let config = MarketConfig {
            call_id,
            creator,
            outcome_manager,
            factory,
            min_stake,
            max_stake_per_user,
            staking_cutoff_secs,
            paused: false,
        };
        self.config = Some(config);
        let mut outcome_stakes: BTreeMap<u32, i128> = BTreeMap::new();
        let mut stakes: BTreeMap<u32, BTreeMap<AccountId, i128>> = BTreeMap::new();
        let mut i: u64 = 1;
        while i <= args.outcome_count as u64
            invariant
                1 <= i <= args.outcome_count as u64 + 1,
                forall|j: u32| #[trigger] outcome_stakes@.contains_key(j) <==> 1 <= j < i,
                forall|j: u32| #[trigger] outcome_stakes@.contains_key(j) ==> outcome_stakes@[j] == 0,
                forall|j: u32| #[trigger] stakes@.contains_key(j) <==> 1 <= j < i,
                forall|j: u32| #[trigger]
                    stakes@.contains_key(j) ==> stakes@[j]@ == Map::<AccountId, i128>::empty(),
            decreases args.outcome_count as u64 + 1 - i,
        {
            outcome_stakes.insert(i as u32, 0);
            stakes.insert(i as u32, BTreeMap::new());
            i = i + 1;
        }
        let event_pair = copy_bytes(&args.pair_id);
        let event_hash = copy_bytes(&args.metadata_hash);
        let MarketInitArgs {
            stake_token,
            stake_amount,
            start_price,
            end_ts,
            token_address,
            pair_id,
            metadata_hash,
            condition,
            outcome_count,
        } = args;
        let call = Call {
            id: call_id,
            creator,
            stake_token,
            stake_amount,
            end_ts,
            token_address,
            pair_id,
            metadata_hash,
            outcome_count,
            outcome_stakes,
            stakes,
            outcome: 0,
            start_price,
            end_price: 0,
            condition,
            settled: false,
            voided: false,
            created_at: now,
            cancelled: false,
            metadata_version: 0,
            share_tokens: BTreeMap::new(),
        };
        proof {
            lemma_staked_on_outcomes_zero(call.outcome_stakes@, outcome_count as nat);
        }
        self.call = Some(call);
        self.events.push(MarketEvent::Initialized { call_id, creator, stake_token, end_ts });
        self.events.push(
            MarketEvent::Created {
                call_id,
                creator,
                stake_token,
                stake_amount,
                start_price,
                end_ts,
                token_address,
                pair_id: event_pair,
                metadata_hash: event_hash,
                outcome_count,
            },
        );
    }
}

} // verus!
