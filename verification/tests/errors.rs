use backit_contracts::call_registry::{
    effective_stake_limit, reputation_limit, volume_factor_bps, CallRegistry, CreatorStats, GlobalStats,
};
use backit_contracts::factory::{FactoryError, PredictionMarketFactory, SwarmStage};
use backit_contracts::governance::{Governance, GovernanceError};
use backit_contracts::oracle_relay::{BlockHeader, CrossChainOracleRelay, OracleRelayError};
use backit_contracts::orderbook::{Orderbook, OrderbookError};
use backit_contracts::prediction_market::{ConditionType, MarketError, MarketInitArgs, PredictionMarket};
use soroban_sdk::Env;
use std::collections::BTreeMap;

fn args(end_ts: u64) -> MarketInitArgs {
    MarketInitArgs {
        stake_token: 6,
        stake_amount: 1_000_000,
        start_price: 100_000_000,
        end_ts,
        token_address: 6,
        pair_id: b"XLM-USDC".to_vec(),
        metadata_hash: vec![1u8; 32],
        condition: ConditionType::Range(90, 110),
        outcome_count: 2,
    }
}

#[test]
fn factory_refusals() {
    let env = Env::default();
    let mut factory = PredictionMarketFactory::new();
    assert_eq!(factory.deploy_market(&env, 2, args(100), 0, 99).err(), Some(FactoryError::NotInitialized));
    assert_eq!(factory.get_config().err(), Some(FactoryError::NotInitialized));
    factory.initialize(1, 4, vec![7u8; 32], 100_000).unwrap();
    assert_eq!(factory.initialize(1, 4, vec![7u8; 32], 100_000), Err(FactoryError::AlreadyInitialized));

    let mut low = args(100);
    low.stake_amount = 10;
    assert_eq!(factory.deploy_market(&env, 2, low, 0, 99).err(), Some(FactoryError::InvalidStakeAmount));
    let mut bad_price = args(100);
    bad_price.start_price = 0;
    assert_eq!(factory.deploy_market(&env, 2, bad_price, 0, 99).err(), Some(FactoryError::InvalidStakeAmount));
    let mut one_outcome = args(100);
    one_outcome.outcome_count = 1;
    assert_eq!(factory.deploy_market(&env, 2, one_outcome, 0, 99).err(), Some(FactoryError::InvalidOutcomeCount));
    assert_eq!(factory.deploy_market(&env, 2, args(100), 100, 99).err(), Some(FactoryError::InvalidEndTime));
    assert_eq!(factory.deploy_market(&env, 2, args(100), 0, 99).err(), Some(FactoryError::TokenNotWhitelisted));
    let mut native = args(100);
    native.stake_token = 99;
    let req = factory.deploy_market(&env, 2, native, 0, 99).unwrap();
    assert_eq!(req.call_id, 1);
    assert_eq!(factory.get_market(1).err(), Some(FactoryError::MarketNotFound));

    factory.pause().unwrap();
    assert_eq!(factory.deploy_market(&env, 2, args(100), 0, 99).err(), Some(FactoryError::ContractPaused));
    factory.unpause().unwrap();

    assert_eq!(
        factory.create_swarm(2, "t".to_string(), "d".to_string(), Vec::new(), 0).err(),
        Some(FactoryError::InvalidSwarmStage)
    );
    assert_eq!(factory.get_swarm(5).err(), Some(FactoryError::SwarmNotFound));
    assert_eq!(factory.stake_on_swarm(&env, 2, 5, 0, 0, 6).err(), Some(FactoryError::SwarmNotFound));
    assert_eq!(factory.stake_on_swarm(&env, 2, 5, 0, u64::MAX, 6).err(), Some(FactoryError::SwarmNotFound));
}

fn stage() -> SwarmStage {
    SwarmStage { condition: "up".to_string(), stake_token: 6, stake_amount: 10, duration_secs: 60, start_price: 1 }
}

#[test]
fn swarm_stake_deploys_linked_market() {
    let env = Env::default();
    let mut factory = PredictionMarketFactory::new();
    factory.initialize(1, 4, vec![7u8; 32], 100_000).unwrap();
    let sid = factory.create_swarm(2, "t".to_string(), "d".to_string(), vec![stage(), stage()], 0).unwrap();
    assert_eq!(sid, 1);
    assert_eq!(factory.stake_on_swarm(&env, 3, sid, 0, 0, 6).err(), Some(FactoryError::TokenNotWhitelisted));
    assert_eq!(factory.market_counter, 0);
    factory.whitelist_token(8).unwrap();
    factory.whitelist_token(6).unwrap();
    let req = factory.stake_on_swarm(&env, 3, sid, 1, 100, 8).unwrap();
    assert_eq!(req.call_id, 1);
    assert_eq!(req.args.stake_token, 8);
    assert_eq!(req.args.token_address, 8);
    assert_eq!(req.args.end_ts, 100 + 86_400);
    assert_eq!(req.swarm, Some((sid, 1)));
    assert!(factory.get_swarm_markets(sid).is_empty());
    factory.record_deployment(&req, 900);
    assert_eq!(factory.get_swarm_markets(sid), vec![1]);
    assert_eq!(factory.get_call_swarm(1), Some((sid, 1)));
    assert_eq!(factory.get_market(1).unwrap(), 900);
}

#[test]
fn market_refusals() {
    let mut market = PredictionMarket::new();
    assert_eq!(market.stake_on_call(30, 9, 700, 1, 10).err(), Some(MarketError::NotInitialized));
    let mut low = args(1_000);
    low.stake_amount = 50;
    assert_eq!(market.check_constructor(100, &low, 0), Some(MarketError::InvalidStakeAmount));
    let mut free = args(1_000);
    free.start_price = 0;
    assert_eq!(market.check_constructor(100, &free, 0), Some(MarketError::InvalidStakeAmount));
    let mut one = args(1_000);
    one.outcome_count = 1;
    assert_eq!(market.check_constructor(100, &one, 0), Some(MarketError::InvalidOutcomeCount));
    assert_eq!(market.check_constructor(100, &args(1_000), 1_000), Some(MarketError::InvalidEndTime));
    assert_eq!(market.check_constructor(100, &args(1_000), 0), None);
    market.__constructor(9, 2, 4, 5, 100, 500, 100, args(1_000), 0);
    assert_eq!(market.check_constructor(100, &args(1_000), 0), Some(MarketError::AlreadyInitialized));

    assert_eq!(market.stake_on_call(30, 8, 200, 1, 10).err(), Some(MarketError::InvalidCallId));
    assert_eq!(market.stake_on_call(30, 9, 50, 1, 10).err(), Some(MarketError::InvalidStakeAmount));
    assert_eq!(market.stake_on_call(30, 9, 200, 3, 10).err(), Some(MarketError::InvalidPosition));
    assert_eq!(market.stake_on_call(30, 9, 600, 1, 10).err(), Some(MarketError::InvalidStakeAmount));
    assert_eq!(market.stake_on_call(30, 9, 200, 1, 900).err(), Some(MarketError::StakingCutoffActive));
    assert_eq!(market.stake_on_call(30, 9, 200, 1, 1_000).err(), Some(MarketError::CallEnded));
    assert_eq!(market.stake_on_call(30, 9, i128::MAX, 1, 1_000).err(), Some(MarketError::CallEnded));
    assert_eq!(market.check_stake(30, 9, 600, 1, 10), Some(MarketError::InvalidStakeAmount));
    assert_eq!(market.check_stake(30, 9, 200, 1, 10), None);

    assert_eq!(market.resolve_call(9, 1, 110, 999).err(), Some(MarketError::CallNotEnded));
    assert_eq!(market.resolve_call(9, 3, 110, 1_000).err(), Some(MarketError::InvalidOutcome));
    assert_eq!(market.resolve_call(8, 1, 110, 1_000).err(), Some(MarketError::InvalidCallId));
    market.mark_settled(9).unwrap();
    assert_eq!(market.mark_settled(9), Err(MarketError::CallSettled));

    let mut locked = PredictionMarket::new();
    locked.__constructor(9, 2, 4, 5, 100, 0, 0, args(1_000), 0);
    locked.acquire_lock();
    assert_eq!(locked.stake_on_call(30, 9, 200, 1, 10).err(), Some(MarketError::Unauthorized));
    // refused before any total is computed, however large the amount
    assert_eq!(locked.check_stake_precheck(9, i128::MAX, 1, 10), Some(MarketError::Unauthorized));
    assert_eq!(locked.stake_on_call(30, 9, i128::MAX, 1, 10).err(), Some(MarketError::Unauthorized));
    locked.release_lock();
    locked.mark_settled(9).unwrap();
    assert_eq!(locked.stake_on_call(30, 9, 200, 1, 10).err(), Some(MarketError::CallSettled));
    assert_eq!(PredictionMarket::new().get_call(9).err(), Some(MarketError::NotInitialized));
}

#[test]
fn governance_refusals() {
    let mut gov = Governance::new();
    assert_eq!(gov.vote(21, 1, true, 0), Err(GovernanceError::NotInitialized));
    gov.initialize(1, 2, 1000, 10, 1000, 5000).unwrap();
    assert_eq!(gov.initialize(1, 2, 1000, 10, 1000, 5000), Err(GovernanceError::AlreadyInitialized));
    assert_eq!(gov.set_reputation(7, 20, 5, 0), Err(GovernanceError::Unauthorized));
    gov.set_reputation(1, 20, 5, 0).unwrap();
    gov.set_reputation(1, 23, 1, 0).unwrap();
    assert_eq!(gov.propose_change(23, 22, "f".to_string(), 0).err(), Some(GovernanceError::InsufficientReputation));
    assert_eq!(gov.vote(21, 1, true, 0), Err(GovernanceError::ProposalNotFound));
    let pid = gov.propose_change(20, 22, "f".to_string(), 0).unwrap();
    assert_eq!(gov.vote(21, pid, true, 11), Err(GovernanceError::VotingPeriodEnded));
    assert_eq!(gov.execute_proposal(1, pid, 10), Err(GovernanceError::ProposalInactive));
    assert_eq!(gov.execute_proposal(1, pid, 11), Err(GovernanceError::QuorumNotMet));
    assert_eq!(gov.delegate_votes(21, 21), Err(GovernanceError::SelfDelegation));
}

#[test]
fn governance_passes_then_refuses_second_execution() {
    let mut gov = Governance::new();
    // no quorum, a simple majority passes
    gov.initialize(1, 1, 1000, 10, 0, 5000).unwrap();
    gov.set_reputation(1, 20, 5, 0).unwrap();
    gov.set_reputation(1, 21, 3, 0).unwrap();
    gov.set_reputation(1, 24, 2, 0).unwrap();
    let pid = gov.propose_change(20, 22, "set_param".to_string(), 0).unwrap();
    gov.vote(21, pid, false, 1).unwrap();
    gov.vote(24, pid, true, 1).unwrap();
    assert_eq!(gov.execute_proposal(1, pid, 11), Err(GovernanceError::ProposalNotPassed));

    let pid2 = gov.propose_change(20, 22, "set_param".to_string(), 0).unwrap();
    gov.vote(21, pid2, true, 1).unwrap();
    gov.execute_proposal(1, pid2, 11).unwrap();
    assert_eq!(gov.invocations.len(), 1);
    assert_eq!(gov.invocations[0].target, 22);
    assert_eq!(gov.execute_proposal(1, pid2, 12), Err(GovernanceError::AlreadyExecuted));
    assert_eq!(gov.vote(24, pid2, true, 5), Err(GovernanceError::AlreadyExecuted));
}

#[test]
fn orderbook_refusals() {
    let mut book = Orderbook::new();
    assert_eq!(book.get_config_view().err(), Some(OrderbookError::NotInitialized));
    book.initialize(1).unwrap();
    assert_eq!(book.initialize(1), Err(OrderbookError::AlreadyInitialized));
    assert_eq!(book.place_bid(40, 7, 1, 0, 5000, 0), Err(OrderbookError::InvalidAmount));
    assert_eq!(book.place_ask(40, 7, 1, 10, 0, 0), Err(OrderbookError::InvalidPrice));
    assert_eq!(book.place_ask(40, 7, 1, 10, 10_001, 0), Err(OrderbookError::InvalidPrice));
    assert_eq!(book.cancel_order(40, 3), Err(OrderbookError::OrderNotFound));
    let id = book.place_bid(40, 7, 1, 10, 5000, 0).unwrap();
    assert_eq!(book.cancel_order(41, id), Err(OrderbookError::Unauthorized));
}

fn header(block_number: u64) -> BlockHeader {
    BlockHeader {
        parent_hash: [1u8; 32],
        state_root: [2u8; 32],
        transactions_root: [3u8; 32],
        receipts_root: [4u8; 32],
        block_number,
        timestamp: 5,
    }
}

#[test]
fn relay_refusals() {
    let env = Env::default();
    let mut relay = CrossChainOracleRelay::new();
    assert_eq!(relay.submit_block_header(&env, 10, header(1)), Err(OracleRelayError::NotInitialized));
    relay.initialize(1, 2, 3, 1, 0, 4, vec![10]).unwrap();
    assert_eq!(relay.initialize(1, 2, 3, 1, 0, 4, vec![10]), Err(OracleRelayError::AlreadyInitialized));
    assert_eq!(relay.submit_block_header(&env, 11, header(1)), Err(OracleRelayError::UnauthorizedRelayer));
    relay.submit_block_header(&env, 10, header(1)).unwrap();
    assert_eq!(relay.submit_block_header(&env, 10, header(1)), Err(OracleRelayError::BlockAlreadyRelayed));
    let name = "ethereum:1".to_string();
    assert_eq!(
        relay.relay_price(&env, 10, name.clone(), 0, 1, vec![[5u8; 32]], [0u8; 32], 0),
        Err(OracleRelayError::PriceOutOfRange)
    );
    assert_eq!(
        relay.relay_price(&env, 11, name.clone(), 5, 1, vec![[5u8; 32]], [0u8; 32], 0),
        Err(OracleRelayError::UnauthorizedRelayer)
    );
    assert_eq!(
        relay.relay_price(&env, 10, name.clone(), 5, 2, vec![[5u8; 32]], [0u8; 32], 0),
        Err(OracleRelayError::InvalidBlockHeader)
    );
    assert_eq!(relay.check_relay(10, 5, 1), None);
    assert_eq!(relay.check_relay(10, 5, 2), Some(OracleRelayError::InvalidBlockHeader));
    assert_eq!(relay.check_relay(10, 0, 1), Some(OracleRelayError::PriceOutOfRange));
    relay.relay_price(&env, 10, name.clone(), 5, 1, vec![[5u8; 32]], [0u8; 32], 77).unwrap();
    let source = relay.get_cross_chain_source(name).unwrap();
    assert_eq!((source.latest_block, source.last_relayed_at, source.last_price), (1, 77, 5));
    assert_eq!(relay.get_trusted_block_hash(1), Some(backit_contracts::oracle_relay::compute_block_hash(&env, &header(1))));
}

#[test]
fn registry_limits_and_refusals() {
    let stats = CreatorStats { total_resolved: 20, total_correct: 15 };
    let global = GlobalStats { total_unique_stakers: 10, total_stake_volume: 100_000 };
    // accuracy 7500 bps, factor 1.375, volume factor 1.5: 1000 * 1.375 * 1.5 = 2062 (rounded down)
    assert_eq!(reputation_limit(1_000, 5_000, &stats, &global, 15_000), Some(2_062));
    assert_eq!(effective_stake_limit(1_000, 5_000, 0, &stats, &global, 15_000), 2_062);
    assert_eq!(effective_stake_limit(1_000, 5_000, 2_000, &stats, &global, 15_000), 2_000);
    let newcomer = CreatorStats { total_resolved: 3, total_correct: 3 };
    assert_eq!(reputation_limit(1_000, 5_000, &newcomer, &global, 15_000), Some(1_000));
    assert_eq!(reputation_limit(0, 5_000, &stats, &global, 15_000), None);
    assert_eq!(volume_factor_bps(&global, 1_000_000), 20_000);
    assert_eq!(volume_factor_bps(&GlobalStats { total_unique_stakers: 0, total_stake_volume: 0 }, 5), 10_000);

    let registry = CallRegistry {
        config: None,
        max_duration: Some(100),
        creator_stats: BTreeMap::new(),
        global_stats: global,
        user_stake_volumes: BTreeMap::new(),
        events: Vec::new(),
    };
    assert_eq!(registry.get_max_duration(), 100);
    registry.assert_duration_within_limit(50, 150);
}
