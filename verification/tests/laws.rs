use std::collections::BTreeMap;
use backit_contracts::call_registry::{
    accuracy_bps, effective_stake_limit, reputation_limit, CallRegistry, CreatorStats, GlobalStats,
};
use backit_contracts::factory::{market_deploy_salt, FactoryError, PredictionMarketFactory};
use backit_contracts::governance::Governance;
use backit_contracts::oracle_relay::{compute_block_hash, verify_merkle_proof, BlockHeader};
use backit_contracts::orderbook::Orderbook;
use backit_contracts::outcome_manager::compute_payout;
use backit_contracts::prediction_market::{ConditionType, EscrowTransfer, MarketInitArgs, PredictionMarket};
use backit_contracts::AccountId;
use soroban_sdk::Env;

fn args(end_ts: u64) -> MarketInitArgs {
    MarketInitArgs {
        stake_token: 6,
        stake_amount: 1_000_000,
        start_price: 100_000_000,
        end_ts,
        token_address: 6,
        pair_id: b"XLM-USDC".to_vec(),
        metadata_hash: vec![1u8; 32],
        condition: ConditionType::TargetAbove(105_000_000),
        outcome_count: 3,
    }
}

#[test]
fn payout_single_winner_exact() {
    // fee = 1_000 * 200 / 10_000 = 20; the only winner takes 500 + 980.
    assert_eq!(compute_payout(500, 500, 1_000, 200), Some(1_480));
}

#[test]
fn payout_formula_exact_value() {
    // fee = 500 * 100 / 10_000 = 5, net = 495, prize = 100 * 495 / 1_000 = 49.
    assert_eq!(compute_payout(100, 1_000, 500, 100), Some(149));
}

#[test]
fn payout_full_fee_returns_only_stake() {
    assert_eq!(compute_payout(100, 1_000, 500, 10_000), Some(100));
}

#[test]
fn payout_negative_losing_pool_rounds_toward_zero() {
    // fee = -7 * 100 / 10_000 = 0 (toward zero), prize = 3 * -7 / 2 = -10.
    assert_eq!(compute_payout(3, 2, -7, 100), Some(-7));
}

#[test]
fn payout_overflow_is_none() {
    assert_eq!(compute_payout(i128::MAX / 2, i128::MAX / 2, i128::MAX / 2, 0), None);
    assert_eq!(compute_payout(i128::MAX, 1, 0, 0), Some(i128::MAX));
    assert_eq!(compute_payout(i128::MAX, 1, 1, 0), None);
}

#[test]
fn payouts_distribute_pool_within_rounding() {
    let stakes: [i128; 3] = [1, 1, 1];
    let tw: i128 = 3;
    let tl: i128 = 10;
    let fee_bps: u32 = 0;
    let total: i128 = stakes.iter().map(|&s| compute_payout(s, tw, tl, fee_bps).unwrap()).sum();
    // each claim gets 1 + 10 / 3 = 4; the pool is 13, one unit is lost to rounding.
    assert_eq!(total, 12);
    assert!((tw + tl) - (stakes.len() as i128) < total && total <= tw + tl);
}

#[test]
fn market_salt_is_sha256_of_prefixed_id() {
    let env = Env::default();
    let salt = market_deploy_salt(&env, 1);
    assert_eq!(
        salt,
        [
            54, 53, 158, 51, 100, 26, 127, 236, 144, 15, 117, 78, 190, 240, 231, 1, 149, 136, 240, 71, 165, 50,
            49, 75, 189, 176, 163, 13, 181, 253, 9, 96
        ]
    );
}

#[test]
fn block_hash_is_sha256_of_encoding() {
    let env = Env::default();
    let header = BlockHeader {
        parent_hash: [1u8; 32],
        state_root: [2u8; 32],
        transactions_root: [3u8; 32],
        receipts_root: [4u8; 32],
        block_number: 100,
        timestamp: 1234567890,
    };
    assert_eq!(
        compute_block_hash(&env, &header),
        [
            152, 65, 16, 86, 75, 30, 90, 206, 254, 145, 88, 219, 148, 250, 163, 103, 155, 140, 138, 48, 228, 158,
            171, 48, 138, 39, 241, 92, 231, 87, 62, 103
        ]
    );
}

#[test]
fn merkle_proof_folds_with_sha256() {
    let env = Env::default();
    let root = verify_merkle_proof(&env, &vec![[5u8; 32], [6u8; 32]], &[0u8; 32]);
    assert_eq!(
        root,
        [
            240, 67, 67, 34, 121, 109, 141, 129, 148, 96, 182, 103, 187, 250, 22, 138, 46, 124, 78, 54, 156, 178,
            97, 232, 207, 228, 138, 206, 44, 149, 113, 132
        ]
    );
    assert_eq!(verify_merkle_proof(&env, &vec![[9u8; 32]], &[0u8; 32]), [9u8; 32]);
}

#[test]
fn consecutive_pages_concatenate() {
    let env = Env::default();
    let mut factory = PredictionMarketFactory::new();
    factory.initialize(1, 4, vec![7u8; 32], 100_000).unwrap();
    factory.whitelist_token(6).unwrap();
    for i in 0..7u64 {
        let req = factory.deploy_market(&env, 2, args(5_000), 0, 99).unwrap();
        assert_eq!(req.call_id, i + 1);
        factory.record_deployment(&req, 500 + i);
    }
    let mut joined = factory.get_all_markets(2, 3);
    joined.extend(factory.get_all_markets(5, 4));
    assert_eq!(joined, factory.get_all_markets(2, 7));
    assert_eq!(joined, vec![502, 503, 504, 505, 506]);
    assert_eq!(factory.get_all_markets(6, u32::MAX), vec![506]);
    assert_eq!(factory.get_market(3).unwrap(), 502);
}

#[test]
fn escrow_deposits_match_recorded_stake() {
    let mut market = PredictionMarket::new();
    market.__constructor(9, 2, 4, 5, 100, 0, 0, args(1_000), 0);
    market.stake_on_call(30, 9, 700, 1, 10).unwrap();
    market.stake_on_call(31, 9, 300, 2, 20).unwrap();
    market.stake_on_call(30, 9, 200, 1, 30).unwrap();
    market.release_escrow(9, 30, 50).unwrap();
    let deposited: i128 = market
        .transfers
        .iter()
        .map(|t| match t {
            EscrowTransfer::Deposit { amount, .. } => *amount,
            EscrowTransfer::Release { .. } => 0,
        })
        .sum();
    let stakes = market.get_outcome_stakes(9).unwrap();
    let recorded: i128 = stakes.values().sum();
    assert_eq!(deposited, 1_200);
    assert_eq!(recorded, 1_200);
    assert_eq!(market.get_staker_stake(9, 30, 1).unwrap(), 900);
}

#[test]
fn revote_changes_side_but_not_tallies() {
    let mut gov = Governance::new();
    gov.initialize(1, 1, 1000, 1000, 1000, 5000).unwrap();
    gov.set_reputation(1, 20, 5, 1_000_000_000).unwrap();
    gov.set_reputation(1, 21, 3, 500_000_000).unwrap();
    let pid = gov.propose_change(20, 22, "set_param".to_string(), 0).unwrap();
    gov.vote(21, pid, true, 0).unwrap();
    let first = gov.get_proposal_view(pid).unwrap();
    // power = 3 * 1_000_000 + 500_000_000 / 1_000_000
    assert_eq!(first.for_votes, 3_000_500);
    assert_eq!(first.against_votes, 0);
    gov.vote(21, pid, false, 0).unwrap();
    let second = gov.get_proposal_view(pid).unwrap();
    assert_eq!(second.for_votes, 3_000_500);
    assert_eq!(second.against_votes, 0);
    let votes = gov.get_votes(pid);
    assert_eq!(votes.len(), 1);
    assert!(!votes[0].support);
    assert_eq!(votes[0].power, second.for_votes + second.against_votes);
}

#[test]
fn taker_fills_maker_partially() {
    let mut book = Orderbook::new();
    book.initialize(1).unwrap();
    let seller: AccountId = 40;
    let buyer: AccountId = 41;
    let ask = book.place_ask(seller, 7, 1, 100, 5000, 0).unwrap();
    let bid = book.place_bid(buyer, 7, 1, 60, 6000, 1).unwrap();
    assert_eq!((ask, bid), (1, 2));
    let (bids, asks) = book.get_orderbook(7, 1);
    assert_eq!(asks.len(), 1);
    assert_eq!(asks[0].filled, 60);
    assert!(asks[0].active);
    assert_eq!(bids.len(), 1);
    assert_eq!(bids[0].filled, 0);
    // a price-incompatible bid does not match
    book.place_bid(buyer, 7, 1, 10, 4000, 2).unwrap();
    let (_, asks) = book.get_orderbook(7, 1);
    assert_eq!(asks[0].filled, 60);
}

#[test]
fn own_orders_never_match() {
    let mut book = Orderbook::new();
    book.initialize(1).unwrap();
    book.place_ask(40, 7, 1, 100, 5000, 0).unwrap();
    book.place_bid(40, 7, 1, 100, 5000, 0).unwrap();
    let (bids, asks) = book.get_orderbook(7, 1);
    assert_eq!(asks[0].filled, 0);
    assert_eq!(bids[0].filled, 0);
}

#[test]
fn at_most_twenty_makers_fill_one_taker() {
    let mut book = Orderbook::new();
    book.initialize(1).unwrap();
    for i in 0..25u64 {
        book.place_ask(100 + i, 7, 1, 1, 5000, 0).unwrap();
    }
    book.place_bid(40, 7, 1, 1_000, 5000, 0).unwrap();
    let (_, asks) = book.get_orderbook(7, 1);
    // twenty asks were filled and left the book, five remain.
    assert_eq!(asks.len(), 5);
    assert!(asks.iter().all(|o| o.filled == 0));
}

#[test]
fn cancel_removes_order_from_book() {
    let mut book = Orderbook::new();
    book.initialize(1).unwrap();
    let id = book.place_ask(40, 7, 1, 100, 5000, 0).unwrap();
    assert!(book.cancel_order(41, id).is_err());
    book.cancel_order(40, id).unwrap();
    let (_, asks) = book.get_orderbook(7, 1);
    assert!(asks.is_empty());
    assert!(book.cancel_order(40, id).is_err());
    assert_eq!(book.get_user_orders(40).len(), 1);
}

#[test]
fn registry_limit_grows_with_accuracy_and_respects_ceiling() {
    let global = GlobalStats { total_unique_stakers: 4, total_stake_volume: 40_000 };
    let worse = CreatorStats { total_resolved: 10, total_correct: 2 };
    let better = CreatorStats { total_resolved: 10, total_correct: 9 };
    assert_eq!(accuracy_bps(&worse), 2_000);
    assert_eq!(accuracy_bps(&better), 9_000);
    assert_eq!(accuracy_bps(&CreatorStats { total_resolved: 0, total_correct: 0 }), 0);
    // factor 1 + 0.2 * 1.0 and 1 + 0.9 * 1.0, volume factor 1.0 (user at the average)
    let low = reputation_limit(10_000, 10_000, &worse, &global, 10_000).unwrap();
    let high = reputation_limit(10_000, 10_000, &better, &global, 10_000).unwrap();
    assert_eq!((low, high), (12_000, 19_000));
    assert!(low <= high);
    assert_eq!(effective_stake_limit(10_000, 10_000, 15_000, &better, &global, 10_000), 15_000);
    assert_eq!(effective_stake_limit(0, 10_000, 0, &better, &global, 10_000), i128::MAX);
}

#[test]
fn outcome_totals_equal_staker_sums() {
    let mut market = PredictionMarket::new();
    market.__constructor(9, 2, 4, 5, 100, 0, 0, args(1_000), 0);
    market.stake_on_call(30, 9, 700, 1, 10).unwrap();
    market.stake_on_call(31, 9, 300, 1, 20).unwrap();
    market.stake_on_call(30, 9, 200, 2, 30).unwrap();
    let call = market.get_call(9).unwrap();
    for p in 1..=3u32 {
        let total = call.outcome_stakes.get(&p).copied().unwrap_or(0);
        let sum: i128 = call.stakes.get(&p).map(|t| t.values().sum()).unwrap_or(0);
        assert_eq!(total, sum);
    }
    assert_eq!(call.outcome_stakes.get(&1), Some(&1_000));
}

#[test]
fn paused_factory_refuses_until_unpaused_and_new_code_is_used() {
    let env = Env::default();
    let mut factory = PredictionMarketFactory::new();
    factory.initialize(1, 4, vec![7u8; 32], 100_000).unwrap();
    factory.whitelist_token(6).unwrap();
    factory.pause().unwrap();
    factory.whitelist_token(8).unwrap();
    factory.set_market_wasm_hash(vec![9u8; 32]).unwrap();
    assert_eq!(factory.deploy_market(&env, 2, args(5_000), 0, 99).err(), Some(FactoryError::ContractPaused));
    factory.unpause().unwrap();
    let req = factory.deploy_market(&env, 2, args(5_000), 0, 99).unwrap();
    assert_eq!(req.wasm_hash, vec![9u8; 32]);
}

#[test]
fn filled_orders_are_inactive() {
    let mut book = Orderbook::new();
    book.initialize(1).unwrap();
    let ask = book.place_ask(40, 7, 1, 50, 5000, 0).unwrap();
    book.place_bid(41, 7, 1, 80, 5000, 0).unwrap();
    let o = book.get_order(ask).unwrap();
    assert_eq!(o.filled, 50);
    assert!(!o.active);
}

#[test]
fn duration_predicate_matches_the_check() {
    let registry = CallRegistry {
        config: None,
        max_duration: None,
        creator_stats: BTreeMap::new(),
        global_stats: GlobalStats { total_unique_stakers: 0, total_stake_volume: 0 },
        user_stake_volumes: BTreeMap::new(),
        events: Vec::new(),
    };
    assert!(!registry.duration_within_limit(10, 10));
    assert!(registry.duration_within_limit(10, 10 + 2_592_000));
    assert!(!registry.duration_within_limit(10, 11 + 2_592_000));
}
