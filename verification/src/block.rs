//! Blocks: a sequence of transactions, chained to the previous block by its
//! hash and sealed by a nonce whose digest meets the difficulty target.

use vstd::prelude::*;
use crate::clock::epoch_millis;
use crate::digest::{
    has_zero_prefix, hex_digest, hex_digest_of, is_hex_digest, lemma_target_prefix, meets_target,
    TARGET_HEXT,
};
use crate::encoding::{block_encoding, encode_block};
use crate::error::Error;
use crate::transaction::{Transaction, TransactionModel, transactions_view};

verus! {

/// A block of the chain.
#[derive(Debug, Clone, PartialEq, Eq)]
pub struct Block {
    timestamp: u128,
    transactions: Vec<Transaction>,
    prev_block_hash: String,
    hash: String,
    height: usize,
    nonce: i32,
}

/// Mathematical model of a [`Block`].
pub ghost struct BlockModel {
    /// Milliseconds since the Unix epoch at which the block was built.
    pub timestamp: int,
    pub transactions: Seq<TransactionModel>,
    /// Hash of the preceding block; empty in the first block of a chain.
    pub prev_block_hash: Seq<char>,
    pub hash: Seq<char>,
    /// Number of blocks that precede this one.
    pub height: int,
    pub nonce: int,
}

impl View for Block {
    type V = BlockModel;

    closed spec fn view(&self) -> BlockModel {
        BlockModel {
            timestamp: self.timestamp as int,
            transactions: transactions_view(self.transactions@),
            prev_block_hash: self.prev_block_hash@,
            hash: self.hash@,
            height: self.height as int,
            nonce: self.nonce as int,
        }
    }
}

/// The digest of a block's hashed part: previous hash, transactions,
/// timestamp, difficulty target and nonce. `None` where the encoding fails or
/// is too long to be hashed.
pub open spec fn block_digest(
    prev_hash: Seq<char>,
    transactions: Seq<TransactionModel>,
    timestamp: int,
    nonce: int,
) -> Option<Seq<char>> {
    match block_encoding(prev_hash, transactions, timestamp, TARGET_HEXT as int, nonce) {
        Some(bytes) => hex_digest_of(bytes),
        None => None,
    }
}

/// Whether the nonce search ends at `nonce`: its digest meets the target, or
/// it has no digest.
pub open spec fn search_stops(
    prev_hash: Seq<char>,
    transactions: Seq<TransactionModel>,
    timestamp: int,
    nonce: int,
) -> bool {
    match block_digest(prev_hash, transactions, timestamp, nonce) {
        Some(hash) => meets_target(hash),
        None => true,
    }
}

/// Whether `nonce` is the first at which the search from zero ends.
pub open spec fn first_stop(
    prev_hash: Seq<char>,
    transactions: Seq<TransactionModel>,
    timestamp: int,
    nonce: int,
) -> bool {
    &&& 0 <= nonce <= i32::MAX
    &&& search_stops(prev_hash, transactions, timestamp, nonce)
    &&& forall|m: int|
        0 <= m < nonce ==> !#[trigger] search_stops(prev_hash, transactions, timestamp, m)
}

/// Whether no nonce ends the search.
pub open spec fn search_exhausted(
    prev_hash: Seq<char>,
    transactions: Seq<TransactionModel>,
    timestamp: int,
) -> bool {
    forall|m: int|
        0 <= m <= i32::MAX ==> !#[trigger] search_stops(prev_hash, transactions, timestamp, m)
}

/// Whether the nonce search over the given contents fails with `e`: with
/// `Error::Encoding` where the first nonce that ends the search has no digest,
/// with `Error::NonceSpaceExhausted` where no nonce ends it, and with no other
/// error.
pub open spec fn search_fails_with(
    e: Error,
    prev_hash: Seq<char>,
    transactions: Seq<TransactionModel>,
    timestamp: int,
) -> bool {
    ||| {
        &&& e == Error::Encoding
        &&& exists|n: int|
            #[trigger] first_stop(prev_hash, transactions, timestamp, n) && block_digest(
                prev_hash,
                transactions,
                timestamp,
                n,
            ).is_none()
    }
    ||| {
        &&& e == Error::NonceSpaceExhausted
        &&& search_exhausted(prev_hash, transactions, timestamp)
    }
}

/// Whether the hash of a block is the digest of its contents, has the form
/// of a digest and meets the difficulty target.
pub open spec fn sealed(b: BlockModel) -> bool {
    &&& block_digest(b.prev_block_hash, b.transactions, b.timestamp, b.nonce) == Some(b.hash)
    &&& is_hex_digest(b.hash)
    &&& meets_target(b.hash)
}

/// Whether a block is what the nonce search gives for its contents: it is
/// sealed, by the least nonce that seals it.
pub open spec fn mined(b: BlockModel) -> bool {
    &&& sealed(b)
    &&& first_stop(b.prev_block_hash, b.transactions, b.timestamp, b.nonce)
}

/// The canonical encoding of a block's hashed part.
fn prepare_hash_data(
    prev_block_hash: &String,
    transactions: &Vec<Transaction>,
    timestamp: u128,
    nonce: i32,
) -> (res: Result<Vec<u8>, Error>)
    ensures
        match res {
            Ok(bytes) => block_encoding(
                prev_block_hash@,
                transactions_view(transactions@),
                timestamp as int,
                TARGET_HEXT as int,
                nonce as int,
            ) == Some(bytes@),
            Err(e) => {
                &&& e == Error::Encoding
                &&& block_encoding(
                    prev_block_hash@,
                    transactions_view(transactions@),
                    timestamp as int,
                    TARGET_HEXT as int,
                    nonce as int,
                ).is_none()
            },
        },
{
    match encode_block(prev_block_hash, transactions, timestamp, TARGET_HEXT, nonce) {
        Ok(bytes) => Ok(bytes),
        Err(_) => Err(Error::Encoding),
    }
}

/// The digest of a block's hashed part, or `Error::Encoding` where it has
/// none.
fn digest_at(
    prev_block_hash: &String,
    transactions: &Vec<Transaction>,
    timestamp: u128,
    nonce: i32,
) -> (res: Result<String, Error>)
    ensures
        match res {
            Ok(hash) => {
                &&& block_digest(
                    prev_block_hash@,
                    transactions_view(transactions@),
                    timestamp as int,
                    nonce as int,
                ) == Some(hash@)
                &&& is_hex_digest(hash@)
            },
            Err(e) => {
                &&& e == Error::Encoding
                &&& block_digest(
                    prev_block_hash@,
                    transactions_view(transactions@),
                    timestamp as int,
                    nonce as int,
                ).is_none()
            },
        },
{
    let bytes = prepare_hash_data(prev_block_hash, transactions, timestamp, nonce)?;
    match hex_digest(bytes.as_slice()) {
        Some(hash) => Ok(hash),
        None => Err(Error::Encoding),
    }
}

/// Searches the nonces from zero upwards for the first whose digest meets the
/// difficulty target, and returns it with that digest. The search ends with
/// `Error::Encoding` at the first nonce that has no digest, and with
/// `Error::NonceSpaceExhausted` where no nonce ends it.
pub fn run_proof_of_work(
    prev_block_hash: &String,
    transactions: &Vec<Transaction>,
    timestamp: u128,
) -> (res: Result<(i32, String), Error>)
    ensures
        match res {
            Ok((nonce, hash)) => {
                &&& first_stop(
                    prev_block_hash@,
                    transactions_view(transactions@),
                    timestamp as int,
                    nonce as int,
                )
                &&& block_digest(
                    prev_block_hash@,
                    transactions_view(transactions@),
                    timestamp as int,
                    nonce as int,
                ) == Some(hash@)
                &&& is_hex_digest(hash@)
                &&& meets_target(hash@)
            },
            Err(e) => search_fails_with(
                e,
                prev_block_hash@,
                transactions_view(transactions@),
                timestamp as int,
            ),
        },
{
    let mut nonce: i32 = 0;
    loop
        invariant
            0 <= nonce,
            forall|m: int|
                0 <= m < nonce ==> !#[trigger] search_stops(
                    prev_block_hash@,
                    transactions_view(transactions@),
                    timestamp as int,
                    m,
                ),
        decreases i32::MAX - nonce,
    {
        match digest_at(prev_block_hash, transactions, timestamp, nonce) {
            Ok(hash) => {
                if has_zero_prefix(hash.as_str()) {
                    return Ok((nonce, hash));
                }
            },
            Err(e) => {
                assert(first_stop(
                    prev_block_hash@,
                    transactions_view(transactions@),
                    timestamp as int,
                    nonce as int,
                ));
                return Err(e);
            },
        }
        if nonce == i32::MAX {
            return Err(Error::NonceSpaceExhausted);
        }
        nonce += 1;
    }
}

impl Block {
    /// The transactions of the block, in their order.
    pub fn get_transaction(&self) -> (res: &Vec<Transaction>)
        ensures
            transactions_view(res@) == self@.transactions,
    {
        &self.transactions
    }

    /// The hash of the preceding block.
    pub fn get_prev_hash(&self) -> (res: String)
        ensures
            res@ == self@.prev_block_hash,
    {
        self.prev_block_hash.clone()
    }

    /// The hash of the block.
    pub fn get_hash(&self) -> (res: String)
        ensures
            res@ == self@.hash,
    {
        self.hash.clone()
    }

    /// The number of blocks that precede this one.
    pub fn get_height(&self) -> (res: usize)
        ensures
            res == self@.height,
    {
        self.height
    }

    /// The time at which the block was built, in milliseconds since the Unix
    /// epoch.
    pub fn get_timestamp(&self) -> (res: u128)
        ensures
            res == self@.timestamp,
    {
        self.timestamp
    }

    /// The nonce that seals the block.
    pub fn get_nonce(&self) -> (res: i32)
        ensures
            res == self@.nonce,
    {
        self.nonce
    }

    /// Puts together a block that was mined elsewhere. Nothing is checked:
    /// `validate` tells whether its contents meet the difficulty target.
    pub fn from_parts(
        timestamp: u128,
        transactions: Vec<Transaction>,
        prev_block_hash: String,
        hash: String,
        height: usize,
        nonce: i32,
    ) -> (res: Block)
        ensures
            res@.timestamp == timestamp,
            res@.transactions == transactions_view(transactions@),
            res@.prev_block_hash == prev_block_hash@,
            res@.hash == hash@,
            res@.height == height,
            res@.nonce == nonce,
    {
        Block { timestamp, transactions, prev_block_hash, hash, height, nonce }
    }

    /// Mines the first block of a chain: it holds the one transaction
    /// `coinbase`, has height 0 and no previous hash.
    pub fn new_genesis_block(coinbase: Transaction) -> (res: Result<Block, Error>)
        ensures
            match res {
                Ok(b) => {
                    &&& b@.transactions == seq![coinbase@]
                    &&& b@.prev_block_hash == Seq::<char>::empty()
                    &&& b@.height == 0
                    &&& mined(b@)
                },
                Err(e) => e == Error::Clock || e == Error::Encoding || e
                    == Error::NonceSpaceExhausted,
            },
    {
        let ghost model = coinbase@;
        let mut data: Vec<Transaction> = Vec::new();
        data.push(coinbase);
        assert(transactions_view(data@) =~= seq![model]);
        Block::new_block(data, String::new(), 0)
    }

    /// Mines a block over `data` that follows the block with the hash
    /// `prev_block_hash`, stamped with the current time.
    pub fn new_block(data: Vec<Transaction>, prev_block_hash: String, height: usize) -> (res:
        Result<Block, Error>)
        ensures
            match res {
                Ok(b) => {
                    &&& b@.transactions == transactions_view(data@)
                    &&& b@.prev_block_hash == prev_block_hash@
                    &&& b@.height == height
                    &&& mined(b@)
                },
                Err(e) => e == Error::Clock || e == Error::Encoding || e
                    == Error::NonceSpaceExhausted,
            },
    {
        match epoch_millis() {
            Ok(timestamp) => Block::new_block_at(data, prev_block_hash, height, timestamp),
            Err(e) => Err(e),
        }
    }

    /// Mines a block over `data` that follows the block with the hash
    /// `prev_block_hash`, stamped with `timestamp`.
    pub fn new_block_at(
        data: Vec<Transaction>,
        prev_block_hash: String,
        height: usize,
        timestamp: u128,
    ) -> (res: Result<Block, Error>)
        ensures
            match res {
                Ok(b) => {
                    &&& b@.timestamp == timestamp
                    &&& b@.transactions == transactions_view(data@)
                    &&& b@.prev_block_hash == prev_block_hash@
                    &&& b@.height == height
                    &&& mined(b@)
                },
                Err(e) => search_fails_with(
                    e,
                    prev_block_hash@,
                    transactions_view(data@),
                    timestamp as int,
                ),
            },
    {
        match run_proof_of_work(&prev_block_hash, &data, timestamp) {
            Ok((nonce, hash)) => Ok(
                Block { timestamp, transactions: data, prev_block_hash, hash, height, nonce },
            ),
            Err(e) => Err(e),
        }
    }

    /// Computes the digest of the block's contents anew and tells whether it
    /// meets the difficulty target. The stored hash is not looked at.
    pub fn validate(&self) -> (res: Result<bool, Error>)
        ensures
            match res {
                Ok(valid) => {
                    &&& block_digest(
                        self@.prev_block_hash,
                        self@.transactions,
                        self@.timestamp,
                        self@.nonce,
                    ) matches Some(hash)
                    &&& valid == meets_target(hash)
                },
                Err(e) => {
                    &&& e == Error::Encoding
                    &&& block_digest(
                        self@.prev_block_hash,
                        self@.transactions,
                        self@.timestamp,
                        self@.nonce,
                    ).is_none()
                },
            },
    {
        let hash = digest_at(&self.prev_block_hash, &self.transactions, self.timestamp, self.nonce)?;
        Ok(has_zero_prefix(hash.as_str()))
    }
}

/// The hash of a sealed block is 64 characters long and starts with the four
/// characters `0000`.
pub proof fn lemma_sealed_hash_prefix(b: BlockModel)
    requires
        sealed(b),
    ensures
        b.hash.len() == 64,
        b.hash.subrange(0, 4) == "0000"@,
{
    lemma_target_prefix(b.hash);
}

/// The hash of a sealed block is a function of its previous hash, its
/// transactions, its timestamp and its nonce: two sealed blocks that agree on
/// these have the same hash.
pub proof fn lemma_hash_determined_by_contents(a: BlockModel, b: BlockModel)
    requires
        sealed(a),
        sealed(b),
        a.prev_block_hash == b.prev_block_hash,
        a.transactions == b.transactions,
        a.timestamp == b.timestamp,
        a.nonce == b.nonce,
    ensures
        a.hash == b.hash,
{
}

/// The nonce search is deterministic: two mined blocks that agree on previous
/// hash, transactions and timestamp have the same nonce and the same hash.
pub proof fn lemma_mined_determined_by_contents(a: BlockModel, b: BlockModel)
    requires
        mined(a),
        mined(b),
        a.prev_block_hash == b.prev_block_hash,
        a.transactions == b.transactions,
        a.timestamp == b.timestamp,
    ensures
        a.nonce == b.nonce,
        a.hash == b.hash,
{
    if a.nonce < b.nonce {
        assert(search_stops(b.prev_block_hash, b.transactions, b.timestamp, a.nonce));
    } else if b.nonce < a.nonce {
        assert(search_stops(a.prev_block_hash, a.transactions, a.timestamp, b.nonce));
    }
}

} // verus!
