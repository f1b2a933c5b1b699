//! Relay of prices from other chains: trusted relayers submit block headers,
//! whose hashes become trusted, and then relay prices for blocks whose
//! header is trusted.
use vstd::prelude::*;
use std::collections::BTreeMap;
use soroban_sdk::Env;
use crate::AccountId;
use crate::crypto::{be_bytes_u64, push_be_u64, push_bytes, sha256, sha256_digest};

verus! {

broadcast use vstd::std_specs::btree::group_btree_axioms, vstd::laws_cmp::group_laws_cmp;

/// Largest price accepted from a relayer.
pub const MAX_RELAYED_PRICE: i128 = 1_000_000_000_000_000_000;

/// Errors of the relay, in the order of their error codes (from 1).
#[derive(Clone, Copy, Debug, PartialEq, Eq, Structural)]
pub enum OracleRelayError {
    AlreadyInitialized,
    NotInitialized,
    Unauthorized,
    UnauthorizedRelayer,
    InvalidBlockHeader,
    MerkleProofVerificationFailed,
    PriceOutOfRange,
    InsufficientSignatures,
    BlockAlreadyRelayed,
}

/// Header of a block of the source chain.
#[derive(Clone, Copy, Debug)]
pub struct BlockHeader {
    pub parent_hash: [u8; 32],
    pub state_root: [u8; 32],
    pub transactions_root: [u8; 32],
    pub receipts_root: [u8; 32],
    pub block_number: u64,
    pub timestamp: u64,
}

/// Relay configuration.
pub struct OracleRelayConfig {
    pub admin: AccountId,
    pub outcome_manager: AccountId,
    pub stellar_oracle: AccountId,
    pub min_signatures: u32,
    pub fee_per_submission: i128,
    pub fee_token: AccountId,
    pub trusted_relayers: Vec<AccountId>,
}

/// The latest price relayed from one source chain.
pub struct CrossChainSource {
    pub chain_name: String,
    pub latest_block: u64,
    pub last_relayed_at: u64,
    pub last_price: i128,
}

/// Events the relay publishes.
pub enum OracleRelayEvent {
    HeaderSubmitted { relayer: AccountId, block_number: u64, block_hash: [u8; 32] },
    PriceRelayed { chain_name: String, price: i128, block_number: u64 },
}

/// The stored state of the relay, plus its published events.
pub struct CrossChainOracleRelay {
    pub config: Option<OracleRelayConfig>,
    /// Trusted block hash per block number.
    pub trusted_hashes: BTreeMap<u64, [u8; 32]>,
    /// Block numbers whose header was relayed.
    pub relayed_blocks: BTreeMap<u64, bool>,
    /// Latest source per chain name (names are distinct).
    pub sources: Vec<CrossChainSource>,
    pub events: Vec<OracleRelayEvent>,
}

/// The name of the chain the relay lists in its overview of sources.
pub open spec fn ethereum_source_name() -> Seq<char> {
    seq!['e', 't', 'h', 'e', 'r', 'e', 'u', 'm', ':', '1']
}

/// The bytes hashed into a block's hash: `"eth_block:"`, the block number
/// in big-endian, the four roots and the timestamp in big-endian.
pub open spec fn block_hash_preimage(h: BlockHeader) -> Seq<u8> {
    seq![101u8, 116u8, 104u8, 95u8, 98u8, 108u8, 111u8, 99u8, 107u8, 58u8] + be_bytes_u64(
        h.block_number,
    ) + h.parent_hash@ + h.state_root@ + h.transactions_root@ + h.receipts_root@ + be_bytes_u64(
        h.timestamp,
    )
}

/// The hash of a block header.
pub open spec fn block_hash(h: BlockHeader) -> Seq<u8> {
    sha256_digest(block_hash_preimage(h))
}

/// Folding a proof into a root: the first element, then repeatedly
/// `sha256("merkle:" ++ acc ++ next)`.
pub open spec fn merkle_fold(proof: Seq<[u8; 32]>) -> Seq<u8>
    decreases proof.len(),
{
    if proof.len() <= 1 {
        if proof.len() == 1 {
            proof[0]@
        } else {
            Seq::empty()
        }
    } else {
        sha256_digest(
            seq![109u8, 101u8, 114u8, 107u8, 108u8, 101u8, 58u8] + merkle_fold(proof.drop_last())
                + proof.last()@,
        )
    }
}

/// Position of the source named `name`, if any.
pub open spec fn source_index(sources: Seq<CrossChainSource>, name: Seq<char>) -> Option<int> {
    if exists|i: int| 0 <= i < sources.len() && sources[i].chain_name@ == name {
        Some(choose|i: int| 0 <= i < sources.len() && sources[i].chain_name@ == name)
    } else {
        None
    }
}

/// Two sources hold the same data.
pub open spec fn same_source(a: CrossChainSource, b: CrossChainSource) -> bool {
    &&& a.chain_name@ == b.chain_name@
    &&& a.latest_block == b.latest_block
    &&& a.last_relayed_at == b.last_relayed_at
    &&& a.last_price == b.last_price
}

/// A copy of a source.
pub fn copy_source(s: &CrossChainSource) -> (r: CrossChainSource)
    ensures
        same_source(r, *s),
{
    CrossChainSource {
        chain_name: s.chain_name.clone(),
        latest_block: s.latest_block,
        last_relayed_at: s.last_relayed_at,
        last_price: s.last_price,
    }
}

/// The hash of `header`: SHA-256 of its canonical encoding.
pub fn compute_block_hash(env: &Env, header: &BlockHeader) -> (hash: [u8; 32])
    ensures
        hash@ == block_hash(*header),
{
    let mut raw: Vec<u8> = vec![101u8, 116u8, 104u8, 95u8, 98u8, 108u8, 111u8, 99u8, 107u8, 58u8];
    push_be_u64(&mut raw, header.block_number);
    push_bytes(&mut raw, header.parent_hash.as_slice());
    push_bytes(&mut raw, header.state_root.as_slice());
    push_bytes(&mut raw, header.transactions_root.as_slice());
    push_bytes(&mut raw, header.receipts_root.as_slice());
    push_be_u64(&mut raw, header.timestamp);
    proof {
        assert(raw@ =~= block_hash_preimage(*header));
    }
    sha256(env, raw.as_slice())
}

/// Fold a non-empty Merkle proof into a root, which is returned. The root
/// is not compared with `_expected_root`; an empty proof aborts the relay
/// with `MerkleProofVerificationFailed` before this is reached.
pub fn verify_merkle_proof(env: &Env, proof: &Vec<[u8; 32]>, _expected_root: &[u8; 32]) -> (r: [u8; 32])
    requires
        proof@.len() > 0,
    ensures
        r@ == merkle_fold(proof@),
{
    let mut computed: [u8; 32] = proof[0];
    let mut i: usize = 1;
    while i < proof.len()
        invariant
            1 <= i <= proof@.len(),
            computed@ == merkle_fold(proof@.subrange(0, i as int)),
        decreases proof@.len() - i,
    {
        let next = proof[i];
        let mut combined: Vec<u8> = vec![109u8, 101u8, 114u8, 107u8, 108u8, 101u8, 58u8];
        push_bytes(&mut combined, computed.as_slice());
        push_bytes(&mut combined, next.as_slice());
        proof {
            let pre = proof@.subrange(0, i + 1);
            assert(pre.drop_last() =~= proof@.subrange(0, i as int));
            assert(pre.last() == next);
            assert(combined@ =~= seq![109u8, 101u8, 114u8, 107u8, 108u8, 101u8, 58u8] + merkle_fold(
                pre.drop_last(),
            ) + pre.last()@);
        }
        computed = sha256(env, combined.as_slice());
        i = i + 1;
    }
    proof {
        assert(proof@.subrange(0, proof@.len() as int) =~= proof@);
    }
    computed
}

/// The error a price relay is refused with, if any (checked in this order).
pub open spec fn relay_error(
    r: CrossChainOracleRelay,
    relayer: AccountId,
    price: i128,
    block_number: u64,
) -> Option<OracleRelayError> {
    if r.config is None {
        Some(OracleRelayError::NotInitialized)
    } else if price <= 0 || price > MAX_RELAYED_PRICE {
        Some(OracleRelayError::PriceOutOfRange)
    } else if !r.config->0.trusted_relayers@.contains(relayer) {
        Some(OracleRelayError::UnauthorizedRelayer)
    } else if !r.trusted_hashes@.contains_key(block_number) {
        Some(OracleRelayError::InvalidBlockHeader)
    } else {
        None
    }
}

impl CrossChainOracleRelay {
    /// Chain names of the stored sources are distinct.
    pub open spec fn wf(self) -> bool {
        forall|i: int, j: int|
            0 <= i < j < self.sources@.len() ==> self.sources@[i].chain_name@
                != self.sources@[j].chain_name@
    }

    /// A fresh, unconfigured relay.
    pub fn new() -> (r: Self)
        ensures
            r.wf(),
            r.config is None,
            r.trusted_hashes@ == Map::<u64, [u8; 32]>::empty(),
            r.relayed_blocks@ == Map::<u64, bool>::empty(),
            r.sources@.len() == 0,
            r.events@.len() == 0,
    {
        CrossChainOracleRelay {
            config: None,
            trusted_hashes: BTreeMap::new(),
            relayed_blocks: BTreeMap::new(),
            sources: Vec::new(),
            events: Vec::new(),
        }
    }

    /// Configure the relay; fails if already configured.
    pub fn initialize(
        &mut self,
        admin: AccountId,
        outcome_manager: AccountId,
        stellar_oracle: AccountId,
        min_signatures: u32,
        fee_per_submission: i128,
        fee_token: AccountId,
        trusted_relayers: Vec<AccountId>,
    ) -> (r: Result<(), OracleRelayError>)
        ensures
            old(self).config is Some ==> r == Err::<(), OracleRelayError>(OracleRelayError::AlreadyInitialized)
                && *final(self) == *old(self),
            old(self).config is None ==> r is Ok && *final(self) == (CrossChainOracleRelay {
                config: Some(
                    OracleRelayConfig {
                        admin,
                        outcome_manager,
                        stellar_oracle,
                        min_signatures,
                        fee_per_submission,
                        fee_token,
                        trusted_relayers,
                    },
                ),
                ..*old(self)
            }),
    {
        if self.config.is_some() {
            return Err(OracleRelayError::AlreadyInitialized);
        }
        self.config = Some(
            OracleRelayConfig {
                admin,
                outcome_manager,
                stellar_oracle,
                min_signatures,
                fee_per_submission,
                fee_token,
                trusted_relayers,
            },
        );
        Ok(())
    }

    /// Whether `relayer` is one of the configured trusted relayers.
    fn is_trusted_relayer(&self, relayer: AccountId) -> (b: bool)
        requires
            self.config is Some,
        ensures
            b == self.config->0.trusted_relayers@.contains(relayer),
    {
        let relayers = &self.config.as_ref().unwrap().trusted_relayers;
        let mut i: usize = 0;
        while i < relayers.len()
            invariant
                0 <= i <= relayers@.len(),
                self.config is Some,
                relayers@ == self.config->0.trusted_relayers@,
                forall|j: int| 0 <= j < i ==> relayers@[j] != relayer,
            decreases relayers@.len() - i,
        {
            if relayers[i] == relayer {
                return true;
            }
            i = i + 1;
        }
        false
    }

    /// Trust `hash` as the hash of block `block_number`.
    pub fn add_trusted_hash(&mut self, block_number: u64, hash: [u8; 32])
        ensures
            final(self).trusted_hashes@ == old(self).trusted_hashes@.insert(block_number, hash),
            *final(self) == (CrossChainOracleRelay { trusted_hashes: final(self).trusted_hashes, ..*old(self) }),
    {
        self.trusted_hashes.insert(block_number, hash);
    }

    /// The trusted hash of block `block_number`, if any.
    pub fn get_trusted_hash(&self, block_number: u64) -> (r: Option<[u8; 32]>)
        ensures
            r == (if self.trusted_hashes@.contains_key(block_number) {
                Some(self.trusted_hashes@[block_number])
            } else {
                None
            }),
    {
        match self.trusted_hashes.get(&block_number) {
            Some(h) => Some(*h),
            None => None,
        }
    }

    /// Record that block `block_number`'s header was relayed.
    pub fn mark_block_relayed(&mut self, block_number: u64)
        ensures
            final(self).relayed_blocks@ == old(self).relayed_blocks@.insert(block_number, true),
            *final(self) == (CrossChainOracleRelay { relayed_blocks: final(self).relayed_blocks, ..*old(self) }),
    {
        self.relayed_blocks.insert(block_number, true);
    }

    /// Whether block `block_number`'s header was relayed.
    pub fn is_block_relayed(&self, block_number: u64) -> (b: bool)
        ensures
            b == (self.relayed_blocks@.contains_key(block_number) && self.relayed_blocks@[block_number]),
    {
        match self.relayed_blocks.get(&block_number) {
            Some(v) => *v,
            None => false,
        }
    }

    /// Submit the header of a source-chain block (by a trusted relayer):
    /// its hash becomes the trusted hash of its block number, which counts
    /// as relayed from then on.
    pub fn submit_block_header(&mut self, env: &Env, relayer: AccountId, header: BlockHeader) -> (r:
        Result<(), OracleRelayError>)
        ensures
            old(self).config is None ==> r == Err::<(), OracleRelayError>(OracleRelayError::NotInitialized)
                && *final(self) == *old(self),
            old(self).config is Some && !old(self).config->0.trusted_relayers@.contains(relayer) ==> r
                == Err::<(), OracleRelayError>(OracleRelayError::UnauthorizedRelayer) && *final(self)
                == *old(self),
            old(self).config is Some && old(self).config->0.trusted_relayers@.contains(relayer)
                && old(self).relayed_blocks@.contains_key(header.block_number) && old(self).relayed_blocks@[header.block_number]
                ==> r == Err::<(), OracleRelayError>(OracleRelayError::BlockAlreadyRelayed) && *final(self) == *old(self),
            old(self).config is Some && old(self).config->0.trusted_relayers@.contains(relayer)
                && !(old(self).relayed_blocks@.contains_key(header.block_number)
                && old(self).relayed_blocks@[header.block_number]) ==> r is Ok,
            r is Ok ==> {
                &&& old(self).config is Some
                &&& old(self).config->0.trusted_relayers@.contains(relayer)
                &&& !(old(self).relayed_blocks@.contains_key(header.block_number) && old(self).relayed_blocks@[header.block_number])
                &&& final(self).trusted_hashes@.contains_key(header.block_number)
                &&& final(self).trusted_hashes@[header.block_number]@ == block_hash(header)
                &&& final(self).trusted_hashes@.remove(header.block_number) == old(self).trusted_hashes@.remove(header.block_number)
                &&& final(self).relayed_blocks@ == old(self).relayed_blocks@.insert(header.block_number, true)
                &&& final(self).events@.len() == old(self).events@.len() + 1
                &&& final(self).events@.subrange(0, old(self).events@.len() as int) == old(self).events@
                &&& final(self).events@.last() matches OracleRelayEvent::HeaderSubmitted { relayer: er, block_number: eb, block_hash: eh }
                    && er == relayer && eb == header.block_number && eh@ == block_hash(header)
                &&& final(self).config == old(self).config
                &&& final(self).sources == old(self).sources
            },
            old(self).config is Some && old(self).config->0.trusted_relayers@.contains(relayer)
                && !(old(self).relayed_blocks@.contains_key(header.block_number) && old(self).relayed_blocks@[header.block_number])
                ==> r is Ok,
    {
        if self.config.is_none() {
            return Err(OracleRelayError::NotInitialized);
        }
        if !self.is_trusted_relayer(relayer) {
            return Err(OracleRelayError::UnauthorizedRelayer);
        }
        if self.is_block_relayed(header.block_number) {
            return Err(OracleRelayError::BlockAlreadyRelayed);
        }
        let block_hash = compute_block_hash(env, &header);
        self.add_trusted_hash(header.block_number, block_hash);
        self.mark_block_relayed(header.block_number);
        self.events.push(
            OracleRelayEvent::HeaderSubmitted { relayer, block_number: header.block_number, block_hash },
        );
        proof {
            assert(self.trusted_hashes@.remove(header.block_number) =~= old(self).trusted_hashes@.remove(header.block_number));
            assert(self.events@.subrange(0, old(self).events@.len() as int) =~= old(self).events@);
        }
        Ok(())
    }

    /// Position of the source named `chain_name`, if any.
    fn find_source(&self, chain_name: &String) -> (r: Option<usize>)
        requires
            self.wf(),
        ensures
            r is None ==> source_index(self.sources@, chain_name@) is None,
            r is Some ==> source_index(self.sources@, chain_name@) == Some(r->0 as int)
                && r->0 < self.sources@.len(),
    {
        let mut i: usize = 0;
        while i < self.sources.len()
            invariant
                0 <= i <= self.sources@.len(),
                self.wf(),
                forall|j: int| 0 <= j < i ==> self.sources@[j].chain_name@ != chain_name@,
            decreases self.sources@.len() - i,
        {
            if self.sources[i].chain_name == *chain_name {
                proof {
                    let k = choose|k: int| 0 <= k < self.sources@.len() && self.sources@[k].chain_name@ == chain_name@;
                    assert(k == i as int) by {
                        if k < i {
                        } else if k > i {
                            assert(self.sources@[i as int].chain_name@ != self.sources@[k].chain_name@);
                        }
                    }
                }
                return Some(i);
            }
            i = i + 1;
        }
        None
    }

    /// The latest source stored under `chain_name`, if any.
    pub fn get_source(&self, chain_name: &String) -> (r: Option<CrossChainSource>)
        requires
            self.wf(),
        ensures
            source_index(self.sources@, chain_name@) is None ==> r is None,
            source_index(self.sources@, chain_name@) is Some ==> r is Some && same_source(
                r->0,
                self.sources@[source_index(self.sources@, chain_name@)->0],
            ),
    {
        match self.find_source(chain_name) {
            Some(i) => Some(copy_source(&self.sources[i])),
            None => None,
        }
    }

    /// Store `source` under `chain_name`, replacing any previous one.
    pub fn set_source(&mut self, chain_name: &String, source: CrossChainSource)
        requires
            old(self).wf(),
            source.chain_name@ == chain_name@,
        ensures
            final(self).wf(),
            source_index(final(self).sources@, chain_name@) is Some,
            same_source(final(self).sources@[source_index(final(self).sources@, chain_name@)->0], source),
            forall|name: Seq<char>| name != chain_name@ ==> #[trigger] source_index(final(self).sources@, name) == source_index(old(self).sources@, name),
            forall|k: int| 0 <= k < old(self).sources@.len() && old(self).sources@[k].chain_name@ != chain_name@
                ==> k < final(self).sources@.len() && final(self).sources@[k] == #[trigger] old(self).sources@[k],
            *final(self) == (CrossChainOracleRelay { sources: final(self).sources, ..*old(self) }),
    {
        match self.find_source(chain_name) {
            Some(i) => {
                self.sources.set(i, source);
                proof {
                    assert forall|name: Seq<char>| name != chain_name@ implies #[trigger] source_index(self.sources@, name) == source_index(old(self).sources@, name) by {
                        if exists|k: int| 0 <= k < old(self).sources@.len() && old(self).sources@[k].chain_name@ == name {
                            let k = choose|k: int| 0 <= k < old(self).sources@.len() && old(self).sources@[k].chain_name@ == name;
                            assert(self.sources@[k].chain_name@ == name);
                        }
                        if exists|k: int| 0 <= k < self.sources@.len() && self.sources@[k].chain_name@ == name {
                            let k = choose|k: int| 0 <= k < self.sources@.len() && self.sources@[k].chain_name@ == name;
                            assert(old(self).sources@[k].chain_name@ == name);
                        }
                    }
                    assert(self.sources@[i as int].chain_name@ == chain_name@);
                }
            },
            None => {
                self.sources.push(source);
                proof {
                    let n = old(self).sources@.len() as int;
                    assert(self.sources@[n].chain_name@ == chain_name@);
                    assert forall|name: Seq<char>| name != chain_name@ implies #[trigger] source_index(self.sources@, name) == source_index(old(self).sources@, name) by {
                        if exists|k: int| 0 <= k < old(self).sources@.len() && old(self).sources@[k].chain_name@ == name {
                            let k = choose|k: int| 0 <= k < old(self).sources@.len() && old(self).sources@[k].chain_name@ == name;
                            assert(self.sources@[k].chain_name@ == name);
                        }
                        if exists|k: int| 0 <= k < self.sources@.len() && self.sources@[k].chain_name@ == name {
                            let k = choose|k: int| 0 <= k < self.sources@.len() && self.sources@[k].chain_name@ == name;
                            assert(k < n);
                            assert(old(self).sources@[k].chain_name@ == name);
                        }
                    }
                }
            },
        }
    }

    /// Why relaying `price` at block `block_number` by `relayer` is refused,
    /// if it is; past these checks an empty proof aborts the relay.
    pub fn check_relay(&self, relayer: AccountId, price: i128, block_number: u64) -> (r: Option<OracleRelayError>)
        ensures
            r == relay_error(*self, relayer, price, block_number),
    {
        if self.config.is_none() {
            return Some(OracleRelayError::NotInitialized);
        }
        if price <= 0 || price > MAX_RELAYED_PRICE {
            return Some(OracleRelayError::PriceOutOfRange);
        }
        if !self.is_trusted_relayer(relayer) {
            return Some(OracleRelayError::UnauthorizedRelayer);
        }
        if self.get_trusted_hash(block_number).is_none() {
            return Some(OracleRelayError::InvalidBlockHeader);
        }
        None
    }

    /// Relay `price` for chain `chain_name` at block `block_number` (by a
    /// trusted relayer), at time `now`. The price must lie in
    /// `1..=MAX_RELAYED_PRICE` and the block's header must be trusted (see
    /// `check_relay`); the proof is then folded and the source of the chain
    /// records the price, block and time.
    pub fn relay_price(
        &mut self,
        env: &Env,
        relayer: AccountId,
        chain_name: String,
        price: i128,
        block_number: u64,
        merkle_proof: Vec<[u8; 32]>,
        expected_root: [u8; 32],
        now: u64,
    ) -> (r: Result<(), OracleRelayError>)
        requires
            old(self).wf(),
            relay_error(*old(self), relayer, price, block_number) is None ==> merkle_proof@.len() > 0,
        ensures
            final(self).wf(),
            relay_error(*old(self), relayer, price, block_number) matches Some(e)
                ==> r == Err::<(), OracleRelayError>(e) && *final(self) == *old(self),
            r is Ok ==> {
                &&& old(self).config is Some
                &&& 0 < price <= MAX_RELAYED_PRICE
                &&& old(self).config->0.trusted_relayers@.contains(relayer)
                &&& old(self).trusted_hashes@.contains_key(block_number)
            },
            relay_error(*old(self), relayer, price, block_number) is None ==> {
                &&& r is Ok
                &&& source_index(final(self).sources@, chain_name@) is Some
                &&& same_source(
                    final(self).sources@[source_index(final(self).sources@, chain_name@)->0],
                    CrossChainSource { chain_name, latest_block: block_number, last_relayed_at: now, last_price: price },
                )
                &&& final(self).events@.len() == old(self).events@.len() + 1
                &&& final(self).events@.subrange(0, old(self).events@.len() as int) == old(self).events@
                &&& final(self).events@.last() matches OracleRelayEvent::PriceRelayed { chain_name: en, price: ep, block_number: eb }
                    && en@ == chain_name@ && ep == price && eb == block_number
                &&& final(self).config == old(self).config
                &&& final(self).trusted_hashes@ == old(self).trusted_hashes@
                &&& final(self).relayed_blocks@ == old(self).relayed_blocks@
            },
    {
        if self.config.is_none() {
            return Err(OracleRelayError::NotInitialized);
        }
        if price <= 0 || price > MAX_RELAYED_PRICE {
            return Err(OracleRelayError::PriceOutOfRange);
        }
        if !self.is_trusted_relayer(relayer) {
            return Err(OracleRelayError::UnauthorizedRelayer);
        }
        if self.get_trusted_hash(block_number).is_none() {
            return Err(OracleRelayError::InvalidBlockHeader);
        }
        let _root = verify_merkle_proof(env, &merkle_proof, &expected_root);
        let source = CrossChainSource {
            chain_name: chain_name.clone(),
            latest_block: block_number,
            last_relayed_at: now,
            last_price: price,
        };
        self.set_source(&chain_name, source);
        let ghost before = self.events@;
        self.events.push(OracleRelayEvent::PriceRelayed { chain_name, price, block_number });
        proof {
            assert(self.events@.subrange(0, old(self).events@.len() as int) =~= old(self).events@);
        }
        Ok(())
    }

    /// The latest source relayed for `chain_name`, if any.
    pub fn get_cross_chain_source(&self, chain_name: String) -> (r: Option<CrossChainSource>)
        requires
            self.wf(),
        ensures
            source_index(self.sources@, chain_name@) is None ==> r is None,
            source_index(self.sources@, chain_name@) is Some ==> r is Some && same_source(
                r->0,
                self.sources@[source_index(self.sources@, chain_name@)->0],
            ),
    {
        self.get_source(&chain_name)
    }

    /// The sources the relay lists: the `ethereum:1` source when configured
    /// and present, otherwise none.
    pub fn get_all_sources(&self) -> (r: Vec<CrossChainSource>)
        requires
            self.wf(),
        ensures
            self.config is None ==> r@.len() == 0,
            self.config is Some && source_index(self.sources@, ethereum_source_name()) is None ==> r@.len() == 0,
            self.config is Some && source_index(self.sources@, ethereum_source_name()) is Some
                ==> r@.len() == 1 && same_source(r@[0], self.sources@[source_index(self.sources@, ethereum_source_name())->0]),
    {
        let mut v: Vec<CrossChainSource> = Vec::new();
        if self.config.is_none() {
            return v;
        }
        let eth = String::from_str("ethereum:1");
        proof {
            reveal_strlit("ethereum:1");
            assert(eth@ =~= ethereum_source_name());
        }
        match self.get_source(&eth) {
            Some(s) => v.push(s),
            None => {},
        }
        v
    }

    /// The trusted hash of block `block_number`, if any.
    pub fn get_trusted_block_hash(&self, block_number: u64) -> (r: Option<[u8; 32]>)
        ensures
            r == (if self.trusted_hashes@.contains_key(block_number) {
                Some(self.trusted_hashes@[block_number])
            } else {
                None
            }),
    {
        self.get_trusted_hash(block_number)
    }

    /// The Stellar oracle to ask for its latest price when falling back from
    /// relayed prices.
    pub fn fallback_to_stellar_oracle(&self) -> (r: Result<AccountId, OracleRelayError>)
        ensures
            self.config is None ==> r == Err::<AccountId, OracleRelayError>(OracleRelayError::NotInitialized),
            self.config is Some ==> r == Ok::<AccountId, OracleRelayError>(self.config->0.stellar_oracle),
    {
        match &self.config {
            Some(c) => Ok(c.stellar_oracle),
            None => Err(OracleRelayError::NotInitialized),
        }
    }
}

/// The fallback price: the price the Stellar oracle replied with, or
/// `InvalidBlockHeader` when it replied with an error value (`None`). An
/// oracle call that fails outright aborts the invocation before this.
pub fn stellar_oracle_reply(reply: Option<i128>) -> (r: Result<i128, OracleRelayError>)
    ensures
        r == (match reply {
            Some(p) => Ok(p),
            None => Err(OracleRelayError::InvalidBlockHeader),
        }),
{
    match reply {
        Some(p) => Ok(p),
        None => Err(OracleRelayError::InvalidBlockHeader),
    }
}

} // verus!
