use backit_contracts::factory::PredictionMarketFactory;
use backit_contracts::governance::Governance;
use backit_contracts::oracle_relay::{BlockHeader, CrossChainOracleRelay};
use backit_contracts::orderbook::Orderbook;
use backit_contracts::prediction_market::{ConditionType, MarketInitArgs, PredictionMarket};
use backit_contracts::AccountId;
use soroban_sdk::Env;

const ADMIN: AccountId = 1;
const CREATOR: AccountId = 2;
const STAKER: AccountId = 3;
const OUTCOME_MANAGER: AccountId = 4;
const FACTORY: AccountId = 5;
const TOKEN: AccountId = 6;
const NATIVE_XLM: AccountId = 99;

fn market_args(stake_token: AccountId, end_ts: u64, pair: &[u8], hash_byte: u8, condition: ConditionType) -> MarketInitArgs {
    MarketInitArgs {
        stake_token,
        stake_amount: 1_000_000,
        start_price: 100_000_000,
        end_ts,
        token_address: stake_token,
        pair_id: pair.to_vec(),
        metadata_hash: vec![hash_byte; 32],
        condition,
        outcome_count: 2,
    }
}

fn copy_args(a: &MarketInitArgs) -> MarketInitArgs {
    MarketInitArgs {
        stake_token: a.stake_token,
        stake_amount: a.stake_amount,
        start_price: a.start_price,
        end_ts: a.end_ts,
        token_address: a.token_address,
        pair_id: a.pair_id.clone(),
        metadata_hash: a.metadata_hash.clone(),
        condition: a.condition,
        outcome_count: a.outcome_count,
    }
}

fn factory_with_token() -> PredictionMarketFactory {
    let mut factory = PredictionMarketFactory::new();
    factory.initialize(ADMIN, OUTCOME_MANAGER, vec![7u8; 32], 100_000).unwrap();
    factory.whitelist_token(TOKEN).unwrap();
    factory
}

/// Deploy a market through the factory the way the host does: validate,
/// then construct the market and record where it lives.
fn deploy(env: &Env, factory: &mut PredictionMarketFactory, args: MarketInitArgs, now: u64, address: AccountId) -> PredictionMarket {
    let req = factory.deploy_market(env, CREATOR, args, now, NATIVE_XLM).unwrap();
    let mut market = PredictionMarket::new();
    market
        .__constructor(
            req.call_id,
            req.creator,
            req.outcome_manager,
            FACTORY,
            req.min_stake,
            req.max_stake_per_user,
            req.staking_cutoff_secs,
            copy_args(&req.args),
            now,
        );
    factory.record_deployment(&req, address);
    market
}

#[test]
fn test_initialize_and_relay() {
    let env = Env::default();
    let relayer: AccountId = 10;
    let mut relay = CrossChainOracleRelay::new();
    relay.initialize(ADMIN, OUTCOME_MANAGER, 11, 1, 0, 12, vec![relayer]).unwrap();

    let header = BlockHeader {
        parent_hash: [1u8; 32],
        state_root: [2u8; 32],
        transactions_root: [3u8; 32],
        receipts_root: [4u8; 32],
        block_number: 100,
        timestamp: 1234567890,
    };
    relay.submit_block_header(&env, relayer, header).unwrap();

    let proof = vec![[5u8; 32]];
    let root = [0u8; 32];
    relay
        .relay_price(&env, relayer, "ethereum:1".to_string(), 1_000_000_000, 100, proof, root, 0)
        .unwrap();

    let source = relay.get_cross_chain_source("ethereum:1".to_string());
    assert!(source.is_some());
    assert_eq!(source.unwrap().last_price, 1_000_000_000);
}

#[test]
fn test_test_initialize() {
    let mut gov = Governance::new();
    gov.initialize(ADMIN, 10, 5000, 1000, 1000, 5000).unwrap();
    let result = gov.initialize(ADMIN, 10, 5000, 1000, 1000, 5000);
    assert!(result.is_err());
}

#[test]
fn test_propose_and_vote() {
    let proposer: AccountId = 20;
    let voter: AccountId = 21;
    let target: AccountId = 22;
    let mut gov = Governance::new();
    gov.initialize(ADMIN, 1, 1000, 1000, 1000, 5000).unwrap();

    gov.set_reputation(ADMIN, proposer, 5, 1_000_000_000).unwrap();
    gov.set_reputation(ADMIN, voter, 3, 500_000_000).unwrap();

    let pid = gov.propose_change(proposer, target, "set_param".to_string(), 0).unwrap();
    assert_eq!(pid, 1);

    gov.vote(voter, pid, true, 0).unwrap();

    let proposal = gov.get_proposal_view(1).unwrap();
    assert!(proposal.for_votes > 0);
}

#[test]
fn initialize_orderbook() {
    let mut book = Orderbook::new();
    book.initialize(ADMIN).unwrap();
    let config = book.get_config_view().unwrap();
    assert_eq!(config.admin, ADMIN);
    assert_eq!(config.fee_bps, 30);
}

#[test]
fn market_constructor_and_stake() {
    let now: u64 = 0;
    let end_ts = now + 3600;
    let args = market_args(TOKEN, end_ts, b"PAIR", 2, ConditionType::TargetAbove(105_000_000));
    let mut market = PredictionMarket::new();
    market
        .__constructor(1, CREATOR, OUTCOME_MANAGER, FACTORY, 100_000, 0, 300, args, now);

    market.stake_on_call(STAKER, 1, 2_000_000, 1, now).unwrap();

    let stakes = market.get_outcome_stakes(1).unwrap();
    assert_eq!(*stakes.get(&1u32).unwrap(), 2_000_000);
    assert_eq!(market.get_staker_stake(1, STAKER, 1).unwrap(), 2_000_000);
}

#[test]
fn market_resolve_requires_outcome_manager() {
    let now: u64 = 0;
    let end_ts = now + 100;
    let mut args = market_args(TOKEN, end_ts, b"P", 3, ConditionType::PercentUp(1));
    args.token_address = 77;
    let mut market = PredictionMarket::new();
    market
        .__constructor(42, CREATOR, OUTCOME_MANAGER, FACTORY, 100_000, 0, 0, args, now);

    let result = market.resolve_call(42, 1, 110_000_000, end_ts + 1);
    assert!(result.is_ok());
}

#[test]
fn multiple_concurrent_markets() {
    let env = Env::default();
    let mut factory = factory_with_token();
    let now: u64 = 0;
    let base_ts = now + 7200;

    let mut markets = Vec::new();
    for i in 0..3u32 {
        let end_ts = base_ts + i as u64 * 100;
        let args = market_args(TOKEN, end_ts, b"XLM-USDC", 1, ConditionType::PercentUp(5));
        let address: AccountId = 1000 + i as u64;
        let market = deploy(&env, &mut factory, args, now, address);
        markets.push((address, market));
    }

    assert_eq!(factory.get_market_count(), 3);
    let page = factory.get_all_markets(0, 10);
    assert_eq!(page.len(), 3);

    for (address, market) in &markets {
        let call_id = market.get_call_id().unwrap();
        assert_eq!(factory.get_market(call_id).unwrap(), *address);
    }
}

#[test]
fn stress_test_twenty_markets() {
    let env = Env::default();
    let mut factory = factory_with_token();
    let now: u64 = 0;
    let base_ts = now + 10_000;

    for i in 0..20u64 {
        let end_ts = base_ts + i;
        let args = market_args(TOKEN, end_ts, b"XLM-USDC", 1, ConditionType::PercentUp(5));
        deploy(&env, &mut factory, args, now, 2000 + i);
    }

    assert_eq!(factory.get_market_count(), 20);

    let page_a = factory.get_all_markets(0, 10);
    let page_b = factory.get_all_markets(10, 10);
    assert_eq!(page_a.len(), 10);
    assert_eq!(page_b.len(), 10);

    for i in 1..=20u64 {
        assert!(factory.get_market(i).is_ok());
    }
}

#[test]
fn factory_pagination_bounds() {
    let env = Env::default();
    let mut factory = factory_with_token();
    let now: u64 = 0;
    let end_ts = now + 5000;

    for i in 0..5u64 {
        let args = market_args(TOKEN, end_ts, b"XLM-USDC", 1, ConditionType::PercentUp(5));
        deploy(&env, &mut factory, args, now, 3000 + i);
    }

    assert_eq!(factory.get_all_markets(100, 10).len(), 0);
    assert_eq!(factory.get_all_markets(3, 2).len(), 2);
}
