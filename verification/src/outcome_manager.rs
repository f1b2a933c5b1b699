//! Outcome records, instance settings and the pari-mutuel payout formula of
//! the outcome-manager contract.
use vstd::prelude::*;
use crate::AccountId;
use crate::arith::{
    fits_i128, lemma_trunc_div_below, lemma_trunc_div_close, lemma_trunc_div_exact, lemma_trunc_div_monotone,
    trunc_div,
};

verus! {

/// A finalized outcome after quorum is reached.
#[derive(Clone, Copy, Debug, PartialEq, Eq, Structural)]
pub struct Outcome {
    pub call_id: u64,
    /// 1 = UP, 2 = DOWN
    pub outcome: u32,
    /// Final price in the oracle's fixed-point representation.
    pub price: i128,
    /// Unix timestamp of the oracle observation.
    pub timestamp: u64,
}

/// A signed outcome report from a single trusted oracle.
pub struct SignedOutcome {
    pub call_id: u64,
    /// 1 = UP, 2 = DOWN
    pub outcome: u32,
    pub price: i128,
    pub timestamp: u64,
    /// Oracle's raw ed25519 public key (32 bytes).
    pub oracle_pubkey: Vec<u8>,
    /// ed25519 signature of the canonical message (64 bytes).
    pub signature: Vec<u8>,
}

/// A signed price report for one basket condition.
pub struct SignedBasketCondition {
    pub call_id: u64,
    pub condition_index: u32,
    pub price: i128,
    pub timestamp: u64,
    pub oracle_pubkey: Vec<u8>,
    pub signature: Vec<u8>,
}

/// One oracle's vote on an outcome.
pub struct OracleVote {
    /// The oracle's public key (32 bytes).
    pub oracle: Vec<u8>,
    pub outcome: u32,
    pub price: i128,
    pub timestamp: u64,
}

/// A single price data point submitted by an oracle for TWAP calculation.
#[derive(Clone, Copy, Debug, PartialEq, Eq, Structural)]
pub struct PriceObservation {
    pub price: i128,
    pub timestamp: u64,
}

/// Dispute window used when none has been configured: one hour.
pub const DEFAULT_DISPUTE_WINDOW_SECS: u64 = 3600;

/// Maximum submission delay used when none has been configured: one day.
pub const DEFAULT_MAX_SUBMISSION_DELAY_SECS: u64 = 86400;

/// The instance settings of the outcome manager; `None` means "never set".
#[derive(Clone, Copy, Debug, PartialEq, Eq, Structural)]
pub struct OutcomeManagerSettings {
    pub registry: Option<AccountId>,
    pub factory: Option<AccountId>,
    pub dispute_window: Option<u64>,
    pub max_submission_delay: Option<u64>,
}

impl OutcomeManagerSettings {
    /// Settings of a freshly deployed instance: nothing is set.
    pub fn new() -> (s: Self)
        ensures
            s.registry is None,
            s.factory is None,
            s.dispute_window is None,
            s.max_submission_delay is None,
    {
        OutcomeManagerSettings {
            registry: None,
            factory: None,
            dispute_window: None,
            max_submission_delay: None,
        }
    }

    /// Store the call-registry address.
    pub fn set_registry(&mut self, registry: AccountId)
        ensures
            *final(self) == (OutcomeManagerSettings { registry: Some(registry), ..*old(self) }),
    {
        self.registry = Some(registry);
    }

    /// The stored call-registry address, if any.
    pub fn get_registry_opt(&self) -> (r: Option<AccountId>)
        ensures
            r == self.registry,
    {
        self.registry
    }

    /// The stored call-registry address; it must have been set.
    pub fn get_registry(&self) -> (r: AccountId)
        requires
            self.registry is Some,
        ensures
            r == self.registry->0,
    {
        self.registry.unwrap()
    }

    /// Store the factory address.
    pub fn set_factory(&mut self, factory: AccountId)
        ensures
            *final(self) == (OutcomeManagerSettings { factory: Some(factory), ..*old(self) }),
    {
        self.factory = Some(factory);
    }

    /// The stored factory address, if any.
    pub fn get_factory_opt(&self) -> (r: Option<AccountId>)
        ensures
            r == self.factory,
    {
        self.factory
    }

    /// Store the dispute window, in seconds.
    pub fn set_dispute_window(&mut self, secs: u64)
        ensures
            *final(self) == (OutcomeManagerSettings { dispute_window: Some(secs), ..*old(self) }),
    {
        self.dispute_window = Some(secs);
    }

    /// The dispute window: the stored one, else one hour.
    pub fn get_dispute_window(&self) -> (r: u64)
        ensures
            r == (match self.dispute_window {
                Some(w) => w,
                None => DEFAULT_DISPUTE_WINDOW_SECS,
            }),
    {
        match self.dispute_window {
            Some(w) => w,
            None => DEFAULT_DISPUTE_WINDOW_SECS,
        }
    }

    /// Store the maximum oracle submission delay, in seconds.
    pub fn set_max_submission_delay(&mut self, delay: u64)
        ensures
            *final(self) == (OutcomeManagerSettings {
                max_submission_delay: Some(delay),
                ..*old(self)
            }),
    {
        self.max_submission_delay = Some(delay);
    }

    /// The maximum submission delay: the stored one, else one day.
    pub fn get_max_submission_delay(&self) -> (r: u64)
        ensures
            r == (match self.max_submission_delay {
                Some(d) => d,
                None => DEFAULT_MAX_SUBMISSION_DELAY_SECS,
            }),
    {
        match self.max_submission_delay {
            Some(d) => d,
            None => DEFAULT_MAX_SUBMISSION_DELAY_SECS,
        }
    }
}

/// The fee taken from the losing pool: `total_losing * fee_bps / 10_000`,
/// rounded toward zero.
pub open spec fn payout_fee(total_losing: int, fee_bps: int) -> int {
    trunc_div(total_losing * fee_bps, 10000)
}

/// The losing pool after the fee.
pub open spec fn payout_net_losing(total_losing: int, fee_bps: int) -> int {
    total_losing - payout_fee(total_losing, fee_bps)
}

/// The staker's share of the net losing pool, rounded toward zero.
pub open spec fn payout_prize(stake: int, total_winning: int, total_losing: int, fee_bps: int) -> int {
    trunc_div(stake * payout_net_losing(total_losing, fee_bps), total_winning)
}

/// Every intermediate value of the payout formula fits in an `i128`.
pub open spec fn payout_fits(stake: int, total_winning: int, total_losing: int, fee_bps: int) -> bool {
    &&& fits_i128(total_losing * fee_bps)
    &&& fits_i128(payout_net_losing(total_losing, fee_bps))
    &&& fits_i128(stake * payout_net_losing(total_losing, fee_bps))
    &&& fits_i128(stake + payout_prize(stake, total_winning, total_losing, fee_bps))
}

/// What a winning staker is paid: the stake back plus the prize.
pub open spec fn payout_amount(stake: int, total_winning: int, total_losing: int, fee_bps: int) -> int {
    stake + payout_prize(stake, total_winning, total_losing, fee_bps)
}

/// Pari-mutuel payout of a winning staker: the stake back plus a pro-rata
/// share of the losing pool net of the protocol fee. `None` when the winning
/// pool is empty or an intermediate value overflows an `i128`.
pub fn compute_payout(
    staker_winning_stake: i128,
    total_winning_stake: i128,
    total_losing_stake: i128,
    fee_bps: u32,
) -> (r: Option<i128>)
    ensures
        r == (if total_winning_stake > 0 && payout_fits(
            staker_winning_stake as int,
            total_winning_stake as int,
            total_losing_stake as int,
            fee_bps as int,
        ) {
            Some(
                payout_amount(
                    staker_winning_stake as int,
                    total_winning_stake as int,
                    total_losing_stake as int,
                    fee_bps as int,
                ) as i128,
            )
        } else {
            None
        }),
{
    if total_winning_stake <= 0 {
        return None;
    }
    let fee_product = match total_losing_stake.checked_mul(fee_bps as i128) {
        Some(v) => v,
        None => return None,
    };
    let total_fee = match fee_product.checked_div(10000) {
        Some(v) => v,
        None => return None,
    };
    let net_losing = match total_losing_stake.checked_sub(total_fee) {
        Some(v) => v,
        None => return None,
    };
    let stake_product = match staker_winning_stake.checked_mul(net_losing) {
        Some(v) => v,
        None => return None,
    };
    let prize = match stake_product.checked_div(total_winning_stake) {
        Some(v) => v,
        None => return None,
    };
    staker_winning_stake.checked_add(prize)
}

/// Sum of a list of stakes.
pub open spec fn stake_sum(stakes: Seq<i128>) -> int
    decreases stakes.len(),
{
    if stakes.len() == 0 {
        0
    } else {
        stake_sum(stakes.drop_last()) + stakes.last()
    }
}

/// Sum of the prizes of a list of winning stakes.
pub open spec fn prize_sum(stakes: Seq<i128>, total_winning: int, total_losing: int, fee_bps: int) -> int
    decreases stakes.len(),
{
    if stakes.len() == 0 {
        0
    } else {
        prize_sum(stakes.drop_last(), total_winning, total_losing, fee_bps) + payout_prize(
            stakes.last() as int,
            total_winning,
            total_losing,
            fee_bps,
        )
    }
}

/// Sum of the payouts of a list of winning stakes.
pub open spec fn payout_sum(stakes: Seq<i128>, total_winning: int, total_losing: int, fee_bps: int) -> int
    decreases stakes.len(),
{
    if stakes.len() == 0 {
        0
    } else {
        payout_sum(stakes.drop_last(), total_winning, total_losing, fee_bps) + payout_amount(
            stakes.last() as int,
            total_winning,
            total_losing,
            fee_bps,
        )
    }
}

proof fn lemma_prize_sum_close(stakes: Seq<i128>, total_winning: int, total_losing: int, fee_bps: int)
    requires
        total_winning > 0,
    ensures
        payout_sum(stakes, total_winning, total_losing, fee_bps) == stake_sum(stakes) + prize_sum(
            stakes,
            total_winning,
            total_losing,
            fee_bps,
        ),
        total_winning * prize_sum(stakes, total_winning, total_losing, fee_bps) - stake_sum(stakes)
            * payout_net_losing(total_losing, fee_bps) <= stakes.len() * (total_winning - 1),
        stake_sum(stakes) * payout_net_losing(total_losing, fee_bps) - total_winning * prize_sum(
            stakes,
            total_winning,
            total_losing,
            fee_bps,
        ) <= stakes.len() * (total_winning - 1),
    decreases stakes.len(),
{
    if stakes.len() > 0 {
        let init = stakes.drop_last();
        let s = stakes.last() as int;
        let net = payout_net_losing(total_losing, fee_bps);
        let tw = total_winning;
        let ps = prize_sum(init, tw, total_losing, fee_bps);
        let q = payout_prize(s, tw, total_losing, fee_bps);
        let ss = stake_sum(init);
        lemma_prize_sum_close(init, tw, total_losing, fee_bps);
        lemma_trunc_div_close(s * net, tw);
        assert((ss + s) * net == ss * net + s * net) by (nonlinear_arith);
        assert(tw * (ps + q) == tw * ps + tw * q) by (nonlinear_arith);
        assert(stakes.len() * (tw - 1) == init.len() * (tw - 1) + (tw - 1)) by (nonlinear_arith)
            requires
                stakes.len() == init.len() + 1,
        ;
    }
}

/// The claims of all winning stakers together pay out the whole winning pool
/// plus the losing pool net of the fee, up to less than one unit of rounding
/// per claim.
pub proof fn lemma_payouts_distribute_pool(stakes: Seq<i128>, total_losing_stake: i128, fee_bps: u32)
    requires
        stake_sum(stakes) > 0,
    ensures
        ({
            let tw = stake_sum(stakes);
            let paid = payout_sum(stakes, tw, total_losing_stake as int, fee_bps as int);
            let pool = tw + payout_net_losing(total_losing_stake as int, fee_bps as int);
            &&& pool - stakes.len() < paid
            &&& paid < pool + stakes.len()
        }),
{
    let tw = stake_sum(stakes);
    let tl = total_losing_stake as int;
    let f = fee_bps as int;
    let net = payout_net_losing(tl, f);
    let ps = prize_sum(stakes, tw, tl, f);
    let n = stakes.len() as int;
    lemma_prize_sum_close(stakes, tw, tl, f);
    assert(tw * ps - tw * net == tw * (ps - net)) by (nonlinear_arith);
    assert(n > 0);
    let d = ps - net;
    assert(tw * n == n * (tw - 1) + n) by (nonlinear_arith);
    if d >= n {
        assert(tw * d >= tw * n) by (nonlinear_arith)
            requires
                tw > 0,
                d >= n,
        ;
    }
    if -d >= n {
        assert(tw * (-d) >= tw * n) by (nonlinear_arith)
            requires
                tw > 0,
                -d >= n,
        ;
        assert(tw * (-d) == -(tw * d)) by (nonlinear_arith);
    }
}

proof fn lemma_prize_sum_below(stakes: Seq<i128>, total_winning: int, total_losing: int, fee_bps: int)
    requires
        total_winning > 0,
        payout_net_losing(total_losing, fee_bps) >= 0,
        forall|i: int| 0 <= i < stakes.len() ==> stakes[i] >= 0,
    ensures
        total_winning * prize_sum(stakes, total_winning, total_losing, fee_bps) <= stake_sum(stakes)
            * payout_net_losing(total_losing, fee_bps),
    decreases stakes.len(),
{
    if stakes.len() > 0 {
        let init = stakes.drop_last();
        let s = stakes.last() as int;
        let net = payout_net_losing(total_losing, fee_bps);
        let tw = total_winning;
        let ps = prize_sum(init, tw, total_losing, fee_bps);
        let q = payout_prize(s, tw, total_losing, fee_bps);
        let ss = stake_sum(init);
        assert(s >= 0);
        lemma_prize_sum_below(init, tw, total_losing, fee_bps);
        assert(s * net >= 0) by (nonlinear_arith)
            requires
                s >= 0,
                net >= 0,
        ;
        lemma_trunc_div_below(s * net, tw);
        assert((ss + s) * net == ss * net + s * net) by (nonlinear_arith);
        assert(tw * (ps + q) == tw * ps + tw * q) by (nonlinear_arith);
    }
}

/// With non-negative stakes, a non-negative losing pool and a fee of at
/// most 100%, the claims of all winning stakers together never pay out more
/// than the winning pool plus the losing pool net of the fee.
pub proof fn lemma_payouts_within_pool(stakes: Seq<i128>, total_losing_stake: i128, fee_bps: u32)
    requires
        stake_sum(stakes) > 0,
        forall|i: int| 0 <= i < stakes.len() ==> stakes[i] >= 0,
        total_losing_stake >= 0,
        fee_bps <= 10000,
    ensures
        payout_sum(stakes, stake_sum(stakes), total_losing_stake as int, fee_bps as int) <= stake_sum(stakes)
            + payout_net_losing(total_losing_stake as int, fee_bps as int),
{
    let tw = stake_sum(stakes);
    let tl = total_losing_stake as int;
    let f = fee_bps as int;
    assert(0 <= tl * f <= tl * 10000) by (nonlinear_arith)
        requires
            tl >= 0,
            0 <= f <= 10000,
    ;
    lemma_trunc_div_monotone(tl * f, tl * 10000, 10000);
    lemma_trunc_div_exact(tl, 10000);
    assert(10000 * tl == tl * 10000) by (nonlinear_arith);
    let net = payout_net_losing(tl, f);
    let ps = prize_sum(stakes, tw, tl, f);
    lemma_prize_sum_close(stakes, tw, tl, f);
    lemma_prize_sum_below(stakes, tw, tl, f);
    if ps > net {
        assert(tw * ps > tw * net) by (nonlinear_arith)
            requires
                tw > 0,
                ps > net,
        ;
    }
}

/// A staker holding the whole winning pool receives the whole pool plus the
/// losing pool net of the fee.
pub proof fn lemma_single_winner_takes_pool(stake: i128, total_losing_stake: i128, fee_bps: u32)
    requires
        stake > 0,
    ensures
        payout_amount(stake as int, stake as int, total_losing_stake as int, fee_bps as int) == stake
            + payout_net_losing(total_losing_stake as int, fee_bps as int),
{
    lemma_trunc_div_exact(payout_net_losing(total_losing_stake as int, fee_bps as int), stake as int);
}

/// A payout never exceeds the stake plus the stake's share of the gross
/// losing pool.
pub proof fn lemma_payout_upper_bound(stake: i128, total_winning_stake: i128, total_losing_stake: i128, fee_bps: u32)
    requires
        stake >= 0,
        total_winning_stake > 0,
        total_losing_stake >= 0,
    ensures
        payout_amount(stake as int, total_winning_stake as int, total_losing_stake as int, fee_bps as int)
            <= stake + trunc_div(total_losing_stake * stake, total_winning_stake as int),
{
    let s = stake as int;
    let tl = total_losing_stake as int;
    let f = fee_bps as int;
    assert(tl * f >= 0) by (nonlinear_arith)
        requires
            tl >= 0,
            f >= 0,
    ;
    lemma_trunc_div_monotone(0, tl * f, 10000);
    let net = payout_net_losing(tl, f);
    assert(s * net <= tl * s) by (nonlinear_arith)
        requires
            s >= 0,
            net <= tl,
    ;
    lemma_trunc_div_monotone(s * net, tl * s, total_winning_stake as int);
}

/// With a non-negative losing pool and a fee of at most 100%, a winning
/// staker gets at least the stake back.
pub proof fn lemma_winner_keeps_stake(stake: i128, total_winning_stake: i128, total_losing_stake: i128, fee_bps: u32)
    requires
        stake >= 0,
        total_winning_stake > 0,
        total_losing_stake >= 0,
        fee_bps <= 10000,
    ensures
        payout_amount(stake as int, total_winning_stake as int, total_losing_stake as int, fee_bps as int)
            >= stake,
{
    let s = stake as int;
    let tl = total_losing_stake as int;
    let f = fee_bps as int;
    assert(0 <= tl * f <= tl * 10000) by (nonlinear_arith)
        requires
            tl >= 0,
            0 <= f <= 10000,
    ;
    lemma_trunc_div_monotone(tl * f, tl * 10000, 10000);
    lemma_trunc_div_exact(tl, 10000);
    assert(10000 * tl == tl * 10000) by (nonlinear_arith);
    let net = payout_net_losing(tl, f);
    assert(s * net >= 0) by (nonlinear_arith)
        requires
            s >= 0,
            net >= 0,
    ;
    lemma_trunc_div_monotone(0, s * net, total_winning_stake as int);
}

} // verus!
