//! The factory that deploys isolated prediction markets and groups them
//! into linked "swarms".
//!
//! Deploying a market is a host operation, so each deployment is split in
//! two: the factory validates the request and hands out the call id and the
//! deployment salt, the host deploys, and the factory then records the
//! deployed market's address.
use vstd::prelude::*;
use std::collections::BTreeMap;
use soroban_sdk::Env;
use crate::AccountId;
use crate::crypto::{be_bytes_u64, push_be_u64, sha256, sha256_digest};
use crate::lists::{list_at, push_to_list, sorted_contains, sorted_insert, strictly_increasing};
use crate::prediction_market::{copy_bytes, ConditionType, MarketInitArgs};

verus! {

broadcast use vstd::std_specs::btree::group_btree_axioms, vstd::laws_cmp::group_laws_cmp;

/// Staking cutoff given to markets deployed by a new factory, in seconds.
pub const DEFAULT_STAKING_CUTOFF_SECS: u64 = 300;

/// Start price, and target, of the markets a swarm stake deploys.
pub const SWARM_START_PRICE: i128 = 1_000_000_000;

/// Lifetime of the markets a swarm stake deploys, in seconds.
pub const SWARM_MARKET_DURATION_SECS: u64 = 86400;

/// Errors of the factory, in the order of their error codes (from 1).
#[derive(Clone, Copy, Debug, PartialEq, Eq, Structural)]
pub enum FactoryError {
    AlreadyInitialized,
    NotInitialized,
    Unauthorized,
    InvalidStakeAmount,
    InvalidEndTime,
    InvalidOutcomeCount,
    TokenNotWhitelisted,
    ContractPaused,
    MarketWasmNotSet,
    MarketNotFound,
    InvalidSwarmStage,
    SwarmNotFound,
    SwarmComplete,
}

/// Factory configuration.
pub struct FactoryConfig {
    pub admin: AccountId,
    pub outcome_manager: AccountId,
    /// 32-byte hash of the market code deployed.
    pub market_wasm_hash: Vec<u8>,
    pub min_stake: i128,
    pub max_stake_per_user: i128,
    pub staking_cutoff_secs: u64,
    pub paused: bool,
    /// Tokens allowed as stake tokens, in increasing order.
    pub whitelisted_tokens: Vec<AccountId>,
}

/// One stage of a swarm, as proposed by its creator.
pub struct SwarmStage {
    pub condition: String,
    pub stake_token: AccountId,
    pub stake_amount: i128,
    pub duration_secs: u64,
    pub start_price: i128,
}

/// A group of linked markets.
pub struct Swarm {
    pub id: u64,
    pub creator: AccountId,
    pub title: String,
    pub description: String,
    pub stages: u32,
    pub created_at: u64,
    pub active: bool,
}

/// What triggers a conditional strategy.
#[derive(Clone, Copy, Debug, PartialEq, Eq, Structural)]
pub enum StrategyTrigger {
    MarketResolved(u64, u32),
    PriceThreshold(AccountId, i128, bool),
}

/// One action of a conditional strategy.
#[derive(Clone, Copy, Debug, PartialEq, Eq, Structural)]
pub enum StrategyAction {
    StakeOnCall(u64, u32, i128),
    ClaimPayout(u64),
}

/// A user's conditional staking strategy.
pub struct ConditionalStrategy {
    pub id: u64,
    pub user: AccountId,
    pub trigger: StrategyTrigger,
    pub actions: Vec<StrategyAction>,
    pub escrow_amount: i128,
    pub executed: bool,
    pub cancelled: bool,
    pub created_at: u64,
    pub expires_at: Option<u64>,
}

/// Events the factory publishes.
pub enum FactoryEvent {
    Initialized { admin: AccountId, outcome_manager: AccountId },
    MarketDeployed {
        call_id: u64,
        market: AccountId,
        creator: AccountId,
        stake_token: AccountId,
        end_ts: u64,
    },
    SwarmCreated { swarm_id: u64, creator: AccountId, title: String, stage_count: u32 },
    SwarmMarketCreated { swarm_id: u64, position: u32, call_id: u64, market: AccountId },
    SwarmAutoStaked { swarm_id: u64, position: u32, user: AccountId, amount: i128 },
    StrategyCreated { strategy_id: u64, user: AccountId, escrow_amount: i128 },
    StrategyExecuted { strategy_id: u64, actions_executed: u32, keeper_reward: i128 },
    StrategyCancelled { strategy_id: u64 },
}

/// A market deployment the host is asked to perform: deploy the market code
/// `wasm_hash` at the address derived from the factory and `salt`, and run
/// its constructor with the given arguments.
pub struct DeployRequest {
    pub call_id: u64,
    pub salt: [u8; 32],
    pub wasm_hash: Vec<u8>,
    pub creator: AccountId,
    pub outcome_manager: AccountId,
    pub min_stake: i128,
    pub max_stake_per_user: i128,
    pub staking_cutoff_secs: u64,
    pub args: MarketInitArgs,
    /// The swarm and position the market belongs to, for swarm stakes.
    pub swarm: Option<(u64, u32)>,
}

/// The stored state of the factory, plus its published events.
pub struct PredictionMarketFactory {
    pub config: Option<FactoryConfig>,
    /// Last call id handed out (0 before the first).
    pub market_counter: u64,
    pub markets: BTreeMap<u64, AccountId>,
    /// Deployed markets in deployment order.
    pub market_list: Vec<AccountId>,
    pub swarms: BTreeMap<u64, Swarm>,
    /// Last swarm id handed out (0 before the first).
    pub swarm_counter: u64,
    pub swarm_markets: BTreeMap<u64, Vec<u64>>,
    pub call_swarm: BTreeMap<u64, (u64, u32)>,
    pub events: Vec<FactoryEvent>,
}

/// The bytes hashed into a market's deployment salt: `"market:"` followed
/// by the call id in big-endian.
pub open spec fn market_salt_preimage(call_id: u64) -> Seq<u8> {
    seq![109u8, 97u8, 114u8, 107u8, 101u8, 116u8, 58u8] + be_bytes_u64(call_id)
}

/// The deployment salt of the market with `call_id`.
pub fn market_deploy_salt(env: &Env, call_id: u64) -> (salt: [u8; 32])
    ensures
        salt@ == sha256_digest(market_salt_preimage(call_id)),
{
    let mut raw: Vec<u8> = vec![109u8, 97u8, 114u8, 107u8, 101u8, 116u8, 58u8];
    push_be_u64(&mut raw, call_id);
    proof {
        assert(raw@ =~= market_salt_preimage(call_id));
    }
    sha256(env, raw.as_slice())
}

/// Two configurations hold the same data.
pub open spec fn same_config(a: FactoryConfig, b: FactoryConfig) -> bool {
    &&& a.admin == b.admin
    &&& a.outcome_manager == b.outcome_manager
    &&& a.market_wasm_hash@ == b.market_wasm_hash@
    &&& a.min_stake == b.min_stake
    &&& a.max_stake_per_user == b.max_stake_per_user
    &&& a.staking_cutoff_secs == b.staking_cutoff_secs
    &&& a.paused == b.paused
    &&& a.whitelisted_tokens@ == b.whitelisted_tokens@
}

/// Two swarms hold the same data.
pub open spec fn same_swarm(a: Swarm, b: Swarm) -> bool {
    &&& a.id == b.id
    &&& a.creator == b.creator
    &&& a.title@ == b.title@
    &&& a.description@ == b.description@
    &&& a.stages == b.stages
    &&& a.created_at == b.created_at
    &&& a.active == b.active
}

/// The error a market deployment is refused with, if any (checked in this order).
pub open spec fn deploy_error(f: PredictionMarketFactory, args: MarketInitArgs, now: u64, native_xlm: AccountId) -> Option<FactoryError> {
    if f.config is None {
        Some(FactoryError::NotInitialized)
    } else if f.config->0.paused {
        Some(FactoryError::ContractPaused)
    } else if args.stake_amount < f.config->0.min_stake || args.stake_amount <= 0 {
        Some(FactoryError::InvalidStakeAmount)
    } else if args.start_price <= 0 {
        Some(FactoryError::InvalidStakeAmount)
    } else if args.outcome_count < 2 {
        Some(FactoryError::InvalidOutcomeCount)
    } else if args.end_ts <= now {
        Some(FactoryError::InvalidEndTime)
    } else if args.stake_token != native_xlm && !f.config->0.whitelisted_tokens@.contains(args.stake_token) {
        Some(FactoryError::TokenNotWhitelisted)
    } else {
        None
    }
}

/// The page of `list` that starts at position `start` and holds at most
/// `limit` entries, the end position saturating at `u32::MAX`.
pub open spec fn market_page(list: Seq<AccountId>, start: int, limit: int) -> Seq<AccountId> {
    let end = if start + limit <= u32::MAX {
        start + limit
    } else {
        u32::MAX as int
    };
    if start >= list.len() {
        Seq::empty()
    } else if end <= list.len() {
        list.subrange(start, end)
    } else {
        list.subrange(start, list.len() as int)
    }
}

/// Reading two consecutive pages gives the same markets, in the same
/// order, as reading one page as long as both together.
pub proof fn lemma_pages_concatenate(list: Seq<AccountId>, start: u32, first: u32, second: u32)
    requires
        start + first + second <= u32::MAX,
    ensures
        market_page(list, start as int, first as int) + market_page(list, start + first, second as int)
            == market_page(list, start as int, first + second),
{
    let a = market_page(list, start as int, first as int);
    let b = market_page(list, start + first, second as int);
    let c = market_page(list, start as int, first + second);
    assert(a + b =~= c);
}

/// The factory is configured and swarm `swarm_id` exists and is active.
pub open spec fn swarm_open(f: PredictionMarketFactory, swarm_id: u64) -> bool {
    &&& f.config is Some
    &&& f.swarms@.contains_key(swarm_id)
    &&& f.swarms@[swarm_id].active
}

/// A market is deployed only for a configured, unpaused factory, with a
/// positive stake of at least the minimum, a positive start price, at least
/// two outcomes, an end in the future, and a stake token that is either the
/// native token or one the admin whitelisted.
pub proof fn lemma_deployment_acceptance(f: PredictionMarketFactory, args: MarketInitArgs, now: u64, native_xlm: AccountId)
    ensures
        deploy_error(f, args, now, native_xlm) is None <==> {
            &&& f.config is Some
            &&& !f.config->0.paused
            &&& args.stake_amount >= f.config->0.min_stake
            &&& args.stake_amount > 0
            &&& args.start_price > 0
            &&& args.outcome_count >= 2
            &&& args.end_ts > now
            &&& (args.stake_token == native_xlm || f.config->0.whitelisted_tokens@.contains(args.stake_token))
        },
{
}

/// While the factory is paused, every market deployment is refused. Only
/// `unpause` clears the flag: every other operation keeps the configuration's
/// `paused` as it was.
pub proof fn lemma_paused_refuses_deployments(
    f: PredictionMarketFactory,
    args: MarketInitArgs,
    now: u64,
    native_xlm: AccountId,
)
    requires
        f.config is Some,
        f.config->0.paused,
    ensures
        deploy_error(f, args, now, native_xlm) == Some(FactoryError::ContractPaused),
{
}

/// Replacing the market code changes nothing about which deployments are
/// accepted, and the deployments accepted afterwards use the new code
/// (`deploy_market` takes the code hash from the configuration).
pub proof fn lemma_new_code_for_later_deployments(
    before: PredictionMarketFactory,
    after: PredictionMarketFactory,
    market_wasm_hash: Seq<u8>,
    args: MarketInitArgs,
    now: u64,
    native_xlm: AccountId,
)
    requires
        before.config is Some,
        after.config is Some,
        after.config->0.market_wasm_hash@ == market_wasm_hash,
        same_config(
            FactoryConfig { market_wasm_hash: before.config->0.market_wasm_hash, ..after.config->0 },
            before.config->0,
        ),
    ensures
        deploy_error(after, args, now, native_xlm) == deploy_error(before, args, now, native_xlm),
        after.config->0.market_wasm_hash@ == market_wasm_hash,
{
}

/// Markets recorded one after another in call-id order: each call id from 1
/// to the number of markets names the market at that place of the list,
/// and no other id names one.
pub open spec fn deployed_in_order(f: PredictionMarketFactory) -> bool {
    &&& forall|i: u64| #[trigger] f.markets@.contains_key(i) <==> 1 <= i <= f.market_list@.len()
    &&& forall|i: u64| 1 <= i <= f.market_list@.len() ==> #[trigger] f.markets@[i] == f.market_list@[i - 1]
}

/// When deployments are recorded in call-id order, looking up call id `i`
/// gives the `i`-th market deployed, and ids outside `1..=n` give none.
pub proof fn lemma_market_lookup_in_order(f: PredictionMarketFactory, i: u64)
    requires
        deployed_in_order(f),
    ensures
        1 <= i <= f.market_list@.len() ==> f.markets@.contains_key(i) && f.markets@[i] == f.market_list@[i - 1],
        i == 0 || i > f.market_list@.len() ==> !f.markets@.contains_key(i),
{
}

impl PredictionMarketFactory {
    /// The whitelist is kept sorted, and every registered market sits
    /// under a call id already handed out, so the next id handed out is
    /// free: deployments never take over a call id in use.
    pub open spec fn wf(self) -> bool {
        &&& self.config is Some ==> strictly_increasing(self.config->0.whitelisted_tokens@)
        &&& forall|k: u64| #[trigger] self.markets@.contains_key(k) ==> 1 <= k <= self.market_counter
    }

    /// A freshly deployed factory: unconfigured, nothing deployed.
    pub fn new() -> (f: Self)
        ensures
            f.wf(),
            deployed_in_order(f),
            f.config is None,
            f.market_counter == 0,
            f.markets@ == Map::<u64, AccountId>::empty(),
            f.market_list@ == Seq::<AccountId>::empty(),
            f.swarms@ == Map::<u64, Swarm>::empty(),
            f.swarm_counter == 0,
            f.swarm_markets@ == Map::<u64, Vec<u64>>::empty(),
            f.call_swarm@ == Map::<u64, (u64, u32)>::empty(),
            f.events@.len() == 0,
    {
        PredictionMarketFactory {
            config: None,
            market_counter: 0,
            markets: BTreeMap::new(),
            market_list: Vec::new(),
            swarms: BTreeMap::new(),
            swarm_counter: 0,
            swarm_markets: BTreeMap::new(),
            call_swarm: BTreeMap::new(),
            events: Vec::new(),
        }
    }

    /// Configure the factory: admin, outcome manager, market code and the
    /// minimum stake; no per-user cap, the default staking cutoff, not
    /// paused, nothing whitelisted.
    pub fn initialize(
        &mut self,
        admin: AccountId,
        outcome_manager: AccountId,
        market_wasm_hash: Vec<u8>,
        min_stake: i128,
    ) -> (r: Result<(), FactoryError>)
        requires
            old(self).wf(),
        ensures
            final(self).wf(),
            old(self).config is Some ==> r == Err::<(), FactoryError>(FactoryError::AlreadyInitialized)
                && *final(self) == *old(self),
            old(self).config is None ==> {
                let c = final(self).config->0;
                &&& r is Ok
                &&& final(self).config is Some
                &&& c.admin == admin
                &&& c.outcome_manager == outcome_manager
                &&& c.market_wasm_hash@ == market_wasm_hash@
                &&& c.min_stake == min_stake
                &&& c.max_stake_per_user == 0
                &&& c.staking_cutoff_secs == DEFAULT_STAKING_CUTOFF_SECS
                &&& !c.paused
                &&& c.whitelisted_tokens@ == Seq::<AccountId>::empty()
                &&& final(self).events@ == old(self).events@.push(
                    FactoryEvent::Initialized { admin, outcome_manager },
                )
                &&& final(self).market_counter == old(self).market_counter
                &&& final(self).markets@ == old(self).markets@
                &&& final(self).market_list@ == old(self).market_list@
                &&& final(self).swarm_counter == old(self).swarm_counter
            },
    {
        if self.config.is_some() {
            return Err(FactoryError::AlreadyInitialized);
        }
        self.config = Some(
            FactoryConfig {
                admin,
                outcome_manager,
                market_wasm_hash,
                min_stake,
                max_stake_per_user: 0,
                staking_cutoff_secs: DEFAULT_STAKING_CUTOFF_SECS,
                paused: false,
                whitelisted_tokens: Vec::new(),
            },
        );
        self.events.push(FactoryEvent::Initialized { admin, outcome_manager });
        Ok(())
    }

    /// Hand out the next call id.
    pub fn next_market_id(&mut self) -> (id: u64)
        requires
            old(self).market_counter < u64::MAX,
        ensures
            old(self).wf() ==> final(self).wf(),
            id == old(self).market_counter + 1,
            final(self).market_counter == id,
            final(self).config == old(self).config,
            final(self).markets@ == old(self).markets@,
            final(self).market_list@ == old(self).market_list@,
            final(self).swarms@ == old(self).swarms@,
            final(self).swarm_counter == old(self).swarm_counter,
            final(self).swarm_markets@ == old(self).swarm_markets@,
            final(self).call_swarm@ == old(self).call_swarm@,
            final(self).events@ == old(self).events@,
    {
        self.market_counter = self.market_counter + 1;
        self.market_counter
    }

    /// Why a market deployment with `args` at time `now` is refused, if it is.
    pub fn check_deploy(&self, args: &MarketInitArgs, now: u64, native_xlm: AccountId) -> (r: Option<FactoryError>)
        requires
            self.wf(),
        ensures
            r == deploy_error(*self, *args, now, native_xlm),
    {
        match &self.config {
            None => Some(FactoryError::NotInitialized),
            Some(config) => {
                if config.paused {
                    Some(FactoryError::ContractPaused)
                } else if args.stake_amount < config.min_stake || args.stake_amount <= 0 {
                    Some(FactoryError::InvalidStakeAmount)
                } else if args.start_price <= 0 {
                    Some(FactoryError::InvalidStakeAmount)
                } else if args.outcome_count < 2 {
                    Some(FactoryError::InvalidOutcomeCount)
                } else if args.end_ts <= now {
                    Some(FactoryError::InvalidEndTime)
                } else if args.stake_token != native_xlm && !sorted_contains(
                    &config.whitelisted_tokens,
                    args.stake_token,
                ) {
                    Some(FactoryError::TokenNotWhitelisted)
                } else {
                    None
                }
            },
        }
    }

    /// Why a stake on swarm `swarm_id` is refused, if it is.
    pub fn check_swarm_stake(&self, swarm_id: u64) -> (r: Option<FactoryError>)
        ensures
            self.config is None ==> r == Some(FactoryError::NotInitialized),
            self.config is Some && !self.swarms@.contains_key(swarm_id) ==> r == Some(FactoryError::SwarmNotFound),
            self.config is Some && self.swarms@.contains_key(swarm_id) && !self.swarms@[swarm_id].active ==> r
                == Some(FactoryError::SwarmComplete),
            swarm_open(*self, swarm_id) && self.config->0.whitelisted_tokens@.len() == 0 ==> r == Some(
                FactoryError::TokenNotWhitelisted,
            ),
            swarm_open(*self, swarm_id) && self.config->0.whitelisted_tokens@.len() > 0 ==> r is None,
    {
        match &self.config {
            None => Some(FactoryError::NotInitialized),
            Some(config) => match self.swarms.get(&swarm_id) {
                None => Some(FactoryError::SwarmNotFound),
                Some(swarm) => {
                    if !swarm.active {
                        Some(FactoryError::SwarmComplete)
                    } else if config.whitelisted_tokens.len() == 0 {
                        Some(FactoryError::TokenNotWhitelisted)
                    } else {
                        None
                    }
                },
            },
        }
    }

    /// Validate a market deployment requested by `creator` at time `now`
    /// and hand out its call id and salt. `native_xlm` is the native
    /// token, which needs no whitelisting.
    pub fn deploy_market(
        &mut self,
        env: &Env,
        creator: AccountId,
        args: MarketInitArgs,
        now: u64,
        native_xlm: AccountId,
    ) -> (r: Result<DeployRequest, FactoryError>)
        requires
            old(self).wf(),
            deploy_error(*old(self), args, now, native_xlm) is None ==> old(self).market_counter < u64::MAX,
        ensures
            final(self).wf(),
            deploy_error(*old(self), args, now, native_xlm) matches Some(e) ==> r == Err::<
                DeployRequest,
                FactoryError,
            >(e) && *final(self) == *old(self),
            r is Ok ==> {
                let c = old(self).config->0;
                &&& old(self).config is Some
                &&& !c.paused
                &&& args.stake_amount >= c.min_stake && args.stake_amount > 0
                &&& args.start_price > 0
                &&& args.outcome_count >= 2
                &&& args.end_ts > now
                &&& (args.stake_token == native_xlm || c.whitelisted_tokens@.contains(args.stake_token))
            },
            deploy_error(*old(self), args, now, native_xlm) is None ==> {
                let c = old(self).config->0;
                let req = r->Ok_0;
                let id = (old(self).market_counter + 1) as u64;
                &&& r is Ok
                &&& old(self).market_counter == old(self).market_list@.len() ==> req.call_id
                    == old(self).market_list@.len() + 1
                &&& req.call_id == id
                &&& req.salt@ == sha256_digest(market_salt_preimage(id))
                &&& req.wasm_hash@ == c.market_wasm_hash@
                &&& req.creator == creator
                &&& req.outcome_manager == c.outcome_manager
                &&& req.min_stake == c.min_stake
                &&& req.max_stake_per_user == c.max_stake_per_user
                &&& req.staking_cutoff_secs == c.staking_cutoff_secs
                &&& req.args == args
                &&& req.swarm is None
                &&& !old(self).markets@.contains_key(id)
                &&& final(self).market_counter == id
                &&& final(self).config == old(self).config
                &&& final(self).markets@ == old(self).markets@
                &&& final(self).market_list@ == old(self).market_list@
                &&& final(self).events@ == old(self).events@
                &&& final(self).swarms@ == old(self).swarms@
                &&& final(self).swarm_counter == old(self).swarm_counter
            },
    {
        let (outcome_manager, wasm_hash, min_stake, max_stake_per_user, staking_cutoff_secs) = match &self.config {
            None => return Err(FactoryError::NotInitialized),
            Some(config) => {
                if config.paused {
                    return Err(FactoryError::ContractPaused);
                }
                if args.stake_amount < config.min_stake || args.stake_amount <= 0 {
                    return Err(FactoryError::InvalidStakeAmount);
                }
                if args.start_price <= 0 {
                    return Err(FactoryError::InvalidStakeAmount);
                }
                if args.outcome_count < 2 {
                    return Err(FactoryError::InvalidOutcomeCount);
                }
                if args.end_ts <= now {
                    return Err(FactoryError::InvalidEndTime);
                }
                if args.stake_token != native_xlm && !sorted_contains(
                    &config.whitelisted_tokens,
                    args.stake_token,
                ) {
                    return Err(FactoryError::TokenNotWhitelisted);
                }
                (
                    config.outcome_manager,
                    copy_bytes(&config.market_wasm_hash),
                    config.min_stake,
                    config.max_stake_per_user,
                    config.staking_cutoff_secs,
                )
            },
        };
        let call_id = self.next_market_id();
        let salt = market_deploy_salt(env, call_id);
        Ok(
            DeployRequest {
                call_id,
                salt,
                wasm_hash,
                creator,
                outcome_manager,
                min_stake,
                max_stake_per_user,
                staking_cutoff_secs,
                args,
                swarm: None,
            },
        )
    }

    /// Record that the market of a request handed out by `deploy_market`
    /// or `stake_on_swarm` was deployed at `market`: register it under its
    /// call id and at the end of the market list, link it to its swarm if it
    /// has one, and publish the deployment.
    pub fn record_deployment(&mut self, request: &DeployRequest, market: AccountId)
        ensures
            deployed_in_order(*old(self)) && request.call_id == old(self).market_list@.len() + 1
                ==> deployed_in_order(*final(self)),
            old(self).wf() && 1 <= request.call_id <= old(self).market_counter ==> final(self).wf(),
            final(self).markets@ == old(self).markets@.insert(request.call_id, market),
            final(self).market_list@ == old(self).market_list@.push(market),
            final(self).config == old(self).config,
            final(self).market_counter == old(self).market_counter,
            final(self).swarms@ == old(self).swarms@,
            final(self).swarm_counter == old(self).swarm_counter,
            request.swarm is None ==> {
                &&& final(self).swarm_markets@ == old(self).swarm_markets@
                &&& final(self).call_swarm@ == old(self).call_swarm@
                &&& final(self).events@ == old(self).events@.push(
                    FactoryEvent::MarketDeployed {
                        call_id: request.call_id,
                        market,
                        creator: request.creator,
                        stake_token: request.args.stake_token,
                        end_ts: request.args.end_ts,
                    },
                )
            },
            request.swarm matches Some(sp) ==> {
                &&& list_at(final(self).swarm_markets@, sp.0) == list_at(
                    old(self).swarm_markets@,
                    sp.0,
                ).push(request.call_id)
                &&& final(self).swarm_markets@.remove(sp.0) == old(self).swarm_markets@.remove(sp.0)
                &&& final(self).call_swarm@ == old(self).call_swarm@.insert(request.call_id, sp)
                &&& final(self).events@ == old(self).events@.push(
                    FactoryEvent::SwarmMarketCreated {
                        swarm_id: sp.0,
                        position: sp.1,
                        call_id: request.call_id,
                        market,
                    },
                ).push(
                    FactoryEvent::SwarmAutoStaked {
                        swarm_id: sp.0,
                        position: sp.1,
                        user: request.creator,
                        amount: request.min_stake,
                    },
                )
            },
    {
        self.markets.insert(request.call_id, market);
        self.market_list.push(market);
        match request.swarm {
            None => {
                self.events.push(
                    FactoryEvent::MarketDeployed {
                        call_id: request.call_id,
                        market,
                        creator: request.creator,
                        stake_token: request.args.stake_token,
                        end_ts: request.args.end_ts,
                    },
                );
            },
            Some((swarm_id, position)) => {
                self.set_swarm_market(swarm_id, position, request.call_id);
                self.set_call_swarm(request.call_id, swarm_id, position);
                self.events.push(
                    FactoryEvent::SwarmMarketCreated {
                        swarm_id,
                        position,
                        call_id: request.call_id,
                        market,
                    },
                );
                self.events.push(
                    FactoryEvent::SwarmAutoStaked {
                        swarm_id,
                        position,
                        user: request.creator,
                        amount: request.min_stake,
                    },
                );
            },
        }
    }

    /// Append `call_id` to the markets of swarm `swarm_id`.
    pub fn set_swarm_market(&mut self, swarm_id: u64, _position: u32, call_id: u64)
        ensures
            list_at(final(self).swarm_markets@, swarm_id) == list_at(old(self).swarm_markets@, swarm_id).push(call_id),
            final(self).swarm_markets@.remove(swarm_id) == old(self).swarm_markets@.remove(swarm_id),
            *final(self) == (PredictionMarketFactory { swarm_markets: final(self).swarm_markets, ..*old(self) }),
    {
        push_to_list(&mut self.swarm_markets, swarm_id, call_id);
    }

    /// Record that market `call_id` sits at `position` of swarm `swarm_id`.
    pub fn set_call_swarm(&mut self, call_id: u64, swarm_id: u64, position: u32)
        ensures
            final(self).call_swarm@ == old(self).call_swarm@.insert(call_id, (swarm_id, position)),
            *final(self) == (PredictionMarketFactory { call_swarm: final(self).call_swarm, ..*old(self) }),
    {
        self.call_swarm.insert(call_id, (swarm_id, position));
    }

    /// Register `market` under `call_id`.
    pub fn set_market(&mut self, call_id: u64, market: AccountId)
        ensures
            old(self).wf() && 1 <= call_id <= old(self).market_counter ==> final(self).wf(),
            final(self).markets@ == old(self).markets@.insert(call_id, market),
            final(self).market_list@ == old(self).market_list@,
            final(self).config == old(self).config,
            final(self).market_counter == old(self).market_counter,
            final(self).events@ == old(self).events@,
    {
        self.markets.insert(call_id, market);
    }

    /// Append `market` to the market list.
    pub fn append_market_list(&mut self, market: AccountId)
        ensures
            final(self).market_list@ == old(self).market_list@.push(market),
            final(self).markets@ == old(self).markets@,
            final(self).config == old(self).config,
            final(self).market_counter == old(self).market_counter,
            final(self).events@ == old(self).events@,
    {
        self.market_list.push(market);
    }

    /// The deployed markets in deployment order.
    pub fn get_market_list(&self) -> (r: Vec<AccountId>)
        ensures
            r@ == self.market_list@,
    {
        let r = self.market_list.clone();
        proof {
            assert(r@ =~= self.market_list@);
        }
        r
    }

    /// Whitelist `token` as a stake token (on behalf of the admin).
    pub fn whitelist_token(&mut self, token: AccountId) -> (r: Result<(), FactoryError>)
        requires
            old(self).wf(),
        ensures
            final(self).wf(),
            old(self).config is None ==> r == Err::<(), FactoryError>(FactoryError::NotInitialized)
                && *final(self) == *old(self),
            old(self).config is Some ==> {
                let c = old(self).config->0;
                let n = final(self).config->0;
                &&& r is Ok
                &&& final(self).config is Some
                &&& n.whitelisted_tokens@.to_set() == c.whitelisted_tokens@.to_set().insert(token)
                &&& same_config(FactoryConfig { whitelisted_tokens: n.whitelisted_tokens, ..c }, n)
                &&& final(self).markets@ == old(self).markets@
                &&& final(self).market_list@ == old(self).market_list@
                &&& final(self).market_counter == old(self).market_counter
                &&& final(self).events@ == old(self).events@
            },
    {
        let mut config = match self.config.take() {
            Some(c) => c,
            None => return Err(FactoryError::NotInitialized),
        };
        sorted_insert(&mut config.whitelisted_tokens, token);
        self.config = Some(config);
        Ok(())
    }

    /// Replace the market code used by later deployments (on behalf of the admin).
    pub fn set_market_wasm_hash(&mut self, market_wasm_hash: Vec<u8>) -> (r: Result<(), FactoryError>)
        requires
            old(self).wf(),
        ensures
            final(self).wf(),
            old(self).config is None ==> r == Err::<(), FactoryError>(FactoryError::NotInitialized)
                && *final(self) == *old(self),
            old(self).config is Some ==> {
                &&& r is Ok
                &&& final(self).config is Some
                &&& same_config(final(self).config->0, FactoryConfig { market_wasm_hash, ..old(self).config->0 })
                &&& final(self).markets@ == old(self).markets@
                &&& final(self).market_list@ == old(self).market_list@
                &&& final(self).market_counter == old(self).market_counter
                &&& final(self).events@ == old(self).events@
            },
    {
        let mut config = match self.config.take() {
            Some(c) => c,
            None => return Err(FactoryError::NotInitialized),
        };
        config.market_wasm_hash = market_wasm_hash;
        self.config = Some(config);
        Ok(())
    }

    /// Replace the trusted outcome manager (on behalf of the admin).
    pub fn set_outcome_manager(&mut self, outcome_manager: AccountId) -> (r: Result<(), FactoryError>)
        requires
            old(self).wf(),
        ensures
            final(self).wf(),
            old(self).config is None ==> r == Err::<(), FactoryError>(FactoryError::NotInitialized)
                && *final(self) == *old(self),
            old(self).config is Some ==> {
                &&& r is Ok
                &&& final(self).config is Some
                &&& same_config(final(self).config->0, FactoryConfig { outcome_manager, ..old(self).config->0 })
                &&& final(self).markets@ == old(self).markets@
                &&& final(self).market_list@ == old(self).market_list@
                &&& final(self).market_counter == old(self).market_counter
                &&& final(self).events@ == old(self).events@
            },
    {
        let mut config = match self.config.take() {
            Some(c) => c,
            None => return Err(FactoryError::NotInitialized),
        };
        config.outcome_manager = outcome_manager;
        self.config = Some(config);
        Ok(())
    }

    /// Set the paused flag.
    fn set_paused(&mut self, paused: bool) -> (r: Result<(), FactoryError>)
        requires
            old(self).wf(),
        ensures
            final(self).wf(),
            old(self).config is None ==> r == Err::<(), FactoryError>(FactoryError::NotInitialized)
                && *final(self) == *old(self),
            old(self).config is Some ==> {
                &&& r is Ok
                &&& final(self).config is Some
                &&& same_config(final(self).config->0, FactoryConfig { paused, ..old(self).config->0 })
                &&& final(self).markets@ == old(self).markets@
                &&& final(self).market_list@ == old(self).market_list@
                &&& final(self).market_counter == old(self).market_counter
                &&& final(self).events@ == old(self).events@
            },
    {
        let mut config = match self.config.take() {
            Some(c) => c,
            None => return Err(FactoryError::NotInitialized),
        };
        config.paused = paused;
        self.config = Some(config);
        Ok(())
    }

    /// Pause new deployments (on behalf of the admin).
    pub fn pause(&mut self) -> (r: Result<(), FactoryError>)
        requires
            old(self).wf(),
        ensures
            final(self).wf(),
            old(self).config is None ==> r == Err::<(), FactoryError>(FactoryError::NotInitialized)
                && *final(self) == *old(self),
            old(self).config is Some ==> {
                &&& r is Ok
                &&& final(self).config is Some
                &&& same_config(final(self).config->0, FactoryConfig { paused: true, ..old(self).config->0 })
                &&& final(self).markets@ == old(self).markets@
                &&& final(self).market_list@ == old(self).market_list@
                &&& final(self).market_counter == old(self).market_counter
                &&& final(self).events@ == old(self).events@
            },
    {
        self.set_paused(true)
    }

    /// Resume deployments (on behalf of the admin).
    pub fn unpause(&mut self) -> (r: Result<(), FactoryError>)
        requires
            old(self).wf(),
        ensures
            final(self).wf(),
            old(self).config is None ==> r == Err::<(), FactoryError>(FactoryError::NotInitialized)
                && *final(self) == *old(self),
            old(self).config is Some ==> {
                &&& r is Ok
                &&& final(self).config is Some
                &&& same_config(final(self).config->0, FactoryConfig { paused: false, ..old(self).config->0 })
                &&& final(self).markets@ == old(self).markets@
                &&& final(self).market_list@ == old(self).market_list@
                &&& final(self).market_counter == old(self).market_counter
                &&& final(self).events@ == old(self).events@
            },
    {
        self.set_paused(false)
    }

    /// A copy of the factory configuration.
    pub fn get_config(&self) -> (r: Result<FactoryConfig, FactoryError>)
        ensures
            self.config is None ==> r == Err::<FactoryConfig, FactoryError>(FactoryError::NotInitialized),
            self.config is Some ==> r is Ok && same_config(r->Ok_0, self.config->0),
    {
        match &self.config {
            None => Err(FactoryError::NotInitialized),
            Some(c) => {
                let tokens = c.whitelisted_tokens.clone();
                proof {
                    assert(tokens@ =~= c.whitelisted_tokens@);
                }
                Ok(
                    FactoryConfig {
                        admin: c.admin,
                        outcome_manager: c.outcome_manager,
                        market_wasm_hash: copy_bytes(&c.market_wasm_hash),
                        min_stake: c.min_stake,
                        max_stake_per_user: c.max_stake_per_user,
                        staking_cutoff_secs: c.staking_cutoff_secs,
                        paused: c.paused,
                        whitelisted_tokens: tokens,
                    },
                )
            },
        }
    }

    /// Hand out the next swarm id.
    pub fn next_swarm_id(&mut self) -> (id: u64)
        requires
            old(self).swarm_counter < u64::MAX,
        ensures
            id == old(self).swarm_counter + 1,
            final(self).swarm_counter == id,
            final(self).config == old(self).config,
            final(self).market_counter == old(self).market_counter,
            final(self).markets@ == old(self).markets@,
            final(self).market_list@ == old(self).market_list@,
            final(self).swarms@ == old(self).swarms@,
            final(self).swarm_markets@ == old(self).swarm_markets@,
            final(self).call_swarm@ == old(self).call_swarm@,
            final(self).events@ == old(self).events@,
    {
        self.swarm_counter = self.swarm_counter + 1;
        self.swarm_counter
    }

    /// Create a swarm of linked stages for `creator` at time `now`; a swarm
    /// needs at least two stages. Returns the new swarm's id.
    pub fn create_swarm(
        &mut self,
        creator: AccountId,
        title: String,
        description: String,
        stages: Vec<SwarmStage>,
        now: u64,
    ) -> (r: Result<u64, FactoryError>)
        requires
            old(self).wf(),
            old(self).config is Some && stages@.len() >= 2 ==> old(self).swarm_counter < u64::MAX,
            stages@.len() <= u32::MAX,
        ensures
            final(self).wf(),
            old(self).config is None ==> r == Err::<u64, FactoryError>(FactoryError::NotInitialized)
                && *final(self) == *old(self),
            old(self).config is Some && stages@.len() < 2 ==> r == Err::<u64, FactoryError>(
                FactoryError::InvalidSwarmStage,
            ) && *final(self) == *old(self),
            old(self).config is Some && stages@.len() >= 2 ==> {
                let id = (old(self).swarm_counter + 1) as u64;
                let sw = final(self).swarms@[id];
                &&& r == Ok::<u64, FactoryError>(id)
                &&& final(self).swarm_counter == id
                &&& final(self).swarms@.contains_key(id)
                &&& final(self).swarms@.remove(id) == old(self).swarms@.remove(id)
                &&& sw.id == id && sw.creator == creator && sw.title@ == title@
                &&& sw.description@ == description@ && sw.stages == stages@.len()
                &&& sw.created_at == now && sw.active
                &&& final(self).events@.len() == old(self).events@.len() + 1
                &&& final(self).events@.subrange(0, old(self).events@.len() as int) == old(self).events@
                &&& final(self).events@.last() matches FactoryEvent::SwarmCreated {
                    swarm_id,
                    creator: ec,
                    title: et,
                    stage_count,
                } && swarm_id == id && ec == creator && et@ == title@ && stage_count == stages@.len()
                &&& final(self).config == old(self).config
                &&& final(self).market_counter == old(self).market_counter
                &&& final(self).markets@ == old(self).markets@
                &&& final(self).market_list@ == old(self).market_list@
            },
    {
        if self.config.is_none() {
            return Err(FactoryError::NotInitialized);
        }
        if stages.len() < 2 {
            return Err(FactoryError::InvalidSwarmStage);
        }
        let stage_count = stages.len() as u32;
        let id = self.next_swarm_id();
        let event_title = title.clone();
        let swarm = Swarm {
            id,
            creator,
            title,
            description,
            stages: stage_count,
            created_at: now,
            active: true,
        };
        self.set_swarm(id, swarm);
        self.events.push(
            FactoryEvent::SwarmCreated { swarm_id: id, creator, title: event_title, stage_count },
        );
        proof {
            assert(self.events@.subrange(0, old(self).events@.len() as int) =~= old(self).events@);
        }
        Ok(id)
    }

    /// Store `swarm` under `id`.
    pub fn set_swarm(&mut self, id: u64, swarm: Swarm)
        ensures
            final(self).swarms@ == old(self).swarms@.insert(id, swarm),
            final(self).config == old(self).config,
            final(self).market_counter == old(self).market_counter,
            final(self).swarm_counter == old(self).swarm_counter,
            final(self).markets@ == old(self).markets@,
            final(self).market_list@ == old(self).market_list@,
            final(self).events@ == old(self).events@,
    {
        self.swarms.insert(id, swarm);
    }

    /// Stake on stage `position` of swarm `swarm_id` for `user` at time
    /// `now`: a fresh two-outcome market is requested, staked in
    /// `first_token` at the minimum stake, targeting a rise above the fixed
    /// start price within a day. `first_token` is the whitelisted token whose
    /// address comes first in the host's order of addresses, an order only
    /// the host knows.
    pub fn stake_on_swarm(
        &mut self,
        env: &Env,
        user: AccountId,
        swarm_id: u64,
        position: u32,
        now: u64,
        first_token: AccountId,
    ) -> (r: Result<DeployRequest, FactoryError>)
        requires
            old(self).wf(),
            swarm_open(*old(self), swarm_id) && old(self).config->0.whitelisted_tokens@.len() > 0
                ==> old(self).config->0.whitelisted_tokens@.contains(first_token),
            swarm_open(*old(self), swarm_id) ==> old(self).market_counter < u64::MAX,
            swarm_open(*old(self), swarm_id) && old(self).config->0.whitelisted_tokens@.len() > 0 ==> now
                + SWARM_MARKET_DURATION_SECS <= u64::MAX,
        ensures
            final(self).wf(),
            r is Err ==> *final(self) == *old(self),
            swarm_open(*old(self), swarm_id) && old(self).config->0.whitelisted_tokens@.len() > 0 ==> r is Ok,
            old(self).config is None ==> r == Err::<DeployRequest, FactoryError>(FactoryError::NotInitialized)
                && *final(self) == *old(self),
            old(self).config is Some && !old(self).swarms@.contains_key(swarm_id) ==> r == Err::<
                DeployRequest,
                FactoryError,
            >(FactoryError::SwarmNotFound) && *final(self) == *old(self),
            old(self).config is Some && old(self).swarms@.contains_key(swarm_id) && !old(self).swarms@[swarm_id].active ==> r == Err::<DeployRequest, FactoryError>(
                FactoryError::SwarmComplete,
            ) && *final(self) == *old(self),
            old(self).config is Some && old(self).swarms@.contains_key(swarm_id) && old(self).swarms@[swarm_id].active && old(self).config->0.whitelisted_tokens@.len() == 0 ==> r
                == Err::<DeployRequest, FactoryError>(FactoryError::TokenNotWhitelisted) && *final(self) == *old(self),
            r is Ok ==> {
                let c = old(self).config->0;
                let req = r->Ok_0;
                let id = (old(self).market_counter + 1) as u64;
                let token = first_token;
                &&& old(self).config is Some
                &&& old(self).swarms@.contains_key(swarm_id) && old(self).swarms@[swarm_id].active
                &&& c.whitelisted_tokens@.len() > 0
                &&& req.call_id == id
                &&& req.salt@ == sha256_digest(market_salt_preimage(id))
                &&& req.wasm_hash@ == c.market_wasm_hash@
                &&& req.creator == user
                &&& req.outcome_manager == c.outcome_manager
                &&& req.min_stake == c.min_stake
                &&& req.max_stake_per_user == c.max_stake_per_user
                &&& req.staking_cutoff_secs == c.staking_cutoff_secs
                &&& req.args.stake_token == token && req.args.token_address == token
                &&& req.args.stake_amount == c.min_stake
                &&& req.args.start_price == SWARM_START_PRICE
                &&& req.args.end_ts == now + SWARM_MARKET_DURATION_SECS
                &&& req.args.pair_id@ == seq![115u8, 119u8, 97u8, 114u8, 109u8]
                &&& req.args.metadata_hash@ == Seq::new(32, |i: int| 0u8)
                &&& req.args.condition == ConditionType::TargetAbove(SWARM_START_PRICE)
                &&& req.args.outcome_count == 2
                &&& req.swarm == Some((swarm_id, position))
                &&& !old(self).markets@.contains_key(id)
                &&& final(self).market_counter == id
                &&& final(self).config == old(self).config
                &&& final(self).markets@ == old(self).markets@
                &&& final(self).market_list@ == old(self).market_list@
                &&& final(self).swarms@ == old(self).swarms@
                &&& final(self).swarm_counter == old(self).swarm_counter
                &&& final(self).swarm_markets@ == old(self).swarm_markets@
                &&& final(self).call_swarm@ == old(self).call_swarm@
                &&& final(self).events@ == old(self).events@
            },
    {
        let (token, outcome_manager, wasm_hash, min_stake, max_stake_per_user, staking_cutoff_secs) =
            match &self.config {
            None => return Err(FactoryError::NotInitialized),
            Some(config) => {
                match self.swarms.get(&swarm_id) {
                    None => return Err(FactoryError::SwarmNotFound),
                    Some(swarm) => {
                        if !swarm.active {
                            return Err(FactoryError::SwarmComplete);
                        }
                    },
                }
                if config.whitelisted_tokens.len() == 0 {
                    return Err(FactoryError::TokenNotWhitelisted);
                }
                (
                    first_token,
                    config.outcome_manager,
                    copy_bytes(&config.market_wasm_hash),
                    config.min_stake,
                    config.max_stake_per_user,
                    config.staking_cutoff_secs,
                )
            },
        };
        let call_id = self.next_market_id();
        let salt = market_deploy_salt(env, call_id);
        let mut metadata_hash: Vec<u8> = Vec::new();
        let mut k: usize = 0;
        while k < 32
            invariant
                0 <= k <= 32,
                metadata_hash@ == Seq::new(k as nat, |i: int| 0u8),
            decreases 32 - k,
        {
            metadata_hash.push(0u8);
            proof {
                assert(metadata_hash@ =~= Seq::new((k + 1) as nat, |i: int| 0u8));
            }
            k = k + 1;
        }
        let args = MarketInitArgs {
            stake_token: token,
            stake_amount: min_stake,
            start_price: SWARM_START_PRICE,
            end_ts: now + SWARM_MARKET_DURATION_SECS,
            token_address: token,
            pair_id: vec![115u8, 119u8, 97u8, 114u8, 109u8],
            metadata_hash,
            condition: ConditionType::TargetAbove(SWARM_START_PRICE),
            outcome_count: 2,
        };
        Ok(
            DeployRequest {
                call_id,
                salt,
                wasm_hash,
                creator: user,
                outcome_manager,
                min_stake,
                max_stake_per_user,
                staking_cutoff_secs,
                args,
                swarm: Some((swarm_id, position)),
            },
        )
    }

    /// A copy of swarm `swarm_id`.
    pub fn get_swarm(&self, swarm_id: u64) -> (r: Result<Swarm, FactoryError>)
        ensures
            !self.swarms@.contains_key(swarm_id) ==> r == Err::<Swarm, FactoryError>(FactoryError::SwarmNotFound),
            self.swarms@.contains_key(swarm_id) ==> r is Ok && same_swarm(r->Ok_0, self.swarms@[swarm_id]),
    {
        match self.swarms.get(&swarm_id) {
            None => Err(FactoryError::SwarmNotFound),
            Some(s) => Ok(
                Swarm {
                    id: s.id,
                    creator: s.creator,
                    title: s.title.clone(),
                    description: s.description.clone(),
                    stages: s.stages,
                    created_at: s.created_at,
                    active: s.active,
                },
            ),
        }
    }

    /// The call ids of the markets deployed for swarm `swarm_id`, in order.
    pub fn get_swarm_markets(&self, swarm_id: u64) -> (r: Vec<u64>)
        ensures
            r@ == list_at(self.swarm_markets@, swarm_id),
    {
        match self.swarm_markets.get(&swarm_id) {
            Some(l) => l.clone(),
            None => Vec::new(),
        }
    }

    /// The swarm and position a market's call belongs to, if any.
    pub fn get_call_swarm(&self, call_id: u64) -> (r: Option<(u64, u32)>)
        ensures
            r == (if self.call_swarm@.contains_key(call_id) {
                Some(self.call_swarm@[call_id])
            } else {
                None
            }),
    {
        match self.call_swarm.get(&call_id) {
            Some(v) => Some(*v),
            None => None,
        }
    }

    /// A page of deployed markets: at most `limit` markets from position
    /// `start` of the market list (none when `start` is past its end).
    pub fn get_all_markets(&self, start: u32, limit: u32) -> (r: Vec<AccountId>)
        ensures
            r@ == market_page(self.market_list@, start as int, limit as int),
    {
        let total = self.market_list.len();
        let mut result: Vec<AccountId> = Vec::new();
        if (start as usize) >= total {
            return result;
        }
        let sum = start.saturating_add(limit);
        let end: usize = if (sum as usize) < total {
            sum as usize
        } else {
            total
        };
        let mut i: usize = start as usize;
        while i < end
            invariant
                start <= i <= end <= total,
                total == self.market_list@.len(),
                result@ == self.market_list@.subrange(start as int, i as int),
            decreases end - i,
        {
            result.push(self.market_list[i]);
            proof {
                assert(self.market_list@.subrange(start as int, i + 1) =~= self.market_list@.subrange(
                    start as int,
                    i as int,
                ).push(self.market_list@[i as int]));
            }
            i = i + 1;
        }
        result
    }

    /// The number of call ids handed out, truncated to 32 bits.
    pub fn get_market_count(&self) -> (r: u32)
        ensures
            r == self.market_counter as u32,
    {
        self.market_counter as u32
    }

    /// The market deployed for `call_id`.
    pub fn get_market(&self, call_id: u64) -> (r: Result<AccountId, FactoryError>)
        ensures
            r == (if self.markets@.contains_key(call_id) {
                Ok(self.markets@[call_id])
            } else {
                Err(FactoryError::MarketNotFound)
            }),
    {
        match self.markets.get(&call_id) {
            Some(m) => Ok(*m),
            None => Err(FactoryError::MarketNotFound),
        }
    }
}

} // verus!
