//! Blocks: the header that is sealed by proof of work, and the block that
//! carries the seal and the transactions.

use vstd::prelude::*;
use crate::codec::{i32_bytes, i64_bytes, prefixed, push_bytes, push_i32, push_i64};
use crate::errors::CoreError;
use crate::hashing::{sha256, sha256_digest, DIGEST_LEN};
use crate::hexfmt::{decode_hex, hex_bytes, is_hex_text};
use crate::base58fmt::base58_bytes;
use crate::blockchain::{
    get_previous_hash, get_previous_id, previous_hash, previous_id, zero_hash, Chain,
};
use crate::merkle::{
    byte_strings, get_merkle_root, lemma_root_of_three, merkle_root, pair_hash,
};
use crate::net::NetBlockView;
use crate::pow::{is_genuine, is_solution, proof_of_work};
use crate::transactions::{
    coinbase, copy_bytes, is_coinbase_for, Transaction, TransactionView,
};
use crate::utils::get_current_timestamp;

verus! {

/// What is sealed: the block's number, its time, the hash of the block
/// before it and the Merkle root of its transactions' ids.
#[derive(Debug, Clone, PartialEq, Eq)]
pub struct Header {
    pub id: i32,
    pub timestamp: i64,
    pub previous_hash: Vec<u8>,
    pub merkle_root: Vec<u8>,
}

/// A sealed block: the header, the solution of its proof of work and the
/// transactions, the coinbase transaction first.
#[derive(Debug, Clone, PartialEq, Eq)]
pub struct Block {
    pub header: Header,
    pub hash: Vec<u8>,
    pub nonce: i64,
    pub transactions: Vec<Transaction>,
}

/// The mathematical value of a `Header`.
pub struct HeaderView {
    pub id: i32,
    pub timestamp: i64,
    pub previous_hash: Seq<u8>,
    pub merkle_root: Seq<u8>,
}

/// The mathematical value of a `Block`.
pub struct BlockView {
    pub header: HeaderView,
    pub hash: Seq<u8>,
    pub nonce: i64,
    pub transactions: Seq<TransactionView>,
}

impl View for Header {
    type V = HeaderView;

    open spec fn view(&self) -> HeaderView {
        HeaderView {
            id: self.id,
            timestamp: self.timestamp,
            previous_hash: self.previous_hash@,
            merkle_root: self.merkle_root@,
        }
    }
}

/// The values of the transactions that a list holds.
pub open spec fn transaction_views(list: Seq<Transaction>) -> Seq<TransactionView> {
    Seq::new(list.len(), |i: int| list[i]@)
}

impl View for Block {
    type V = BlockView;

    open spec fn view(&self) -> BlockView {
        BlockView {
            header: self.header@,
            hash: self.hash@,
            nonce: self.nonce,
            transactions: transaction_views(self.transactions@),
        }
    }
}

/// The canonical bytes of a header: the id in four bytes, the timestamp in
/// eight, then the two hashes as byte strings.
pub open spec fn header_bytes(header: HeaderView) -> Seq<u8> {
    i32_bytes(header.id) + i64_bytes(header.timestamp) + prefixed(header.previous_hash)
        + prefixed(header.merkle_root)
}

/// The hash of a header: the SHA-256 of its canonical bytes.
pub open spec fn header_hash(header: HeaderView) -> Seq<u8> {
    sha256_digest(header_bytes(header))
}

impl Header {
    /// Builds a header from the text form of its hashes.
    ///
    /// Fails with `SerializeError` where one of them is not hexadecimal.
    pub fn from(id: i32, timestamp: i64, previous_hash: &String, merkle_root: &String) -> (header:
        Result<Header, CoreError>)
        ensures
            header is Ok <==> is_hex_text(previous_hash@) && is_hex_text(merkle_root@),
            header matches Ok(h) ==> h@ == (HeaderView {
                id,
                timestamp,
                previous_hash: hex_bytes(previous_hash@),
                merkle_root: hex_bytes(merkle_root@),
            }),
            header matches Err(e) ==> e == CoreError::SerializeError,
    {
        let previous_hash = match decode_hex(previous_hash.as_str()) {
            Ok(bytes) => bytes,
            Err(e) => { return Err(e); },
        };
        let merkle_root = match decode_hex(merkle_root.as_str()) {
            Ok(bytes) => bytes,
            Err(e) => { return Err(e); },
        };
        Ok(Header { id, timestamp, previous_hash, merkle_root })
    }

    /// The canonical bytes of the header.
    pub fn encode(&self) -> (bytes: Vec<u8>)
        ensures
            bytes@ == header_bytes(self@),
    {
        let mut out: Vec<u8> = Vec::new();
        push_i32(&mut out, self.id);
        push_i64(&mut out, self.timestamp);
        push_bytes(&mut out, self.previous_hash.as_slice());
        push_bytes(&mut out, self.merkle_root.as_slice());
        assert(out@ =~= header_bytes(self@));
        out
    }

    /// The hash of the header.
    pub fn hash(&self) -> (digest: Vec<u8>)
        ensures
            digest@ == header_hash(self@),
    {
        let encoded = self.encode();
        sha256(encoded.as_slice())
    }
}

impl Block {
    /// Builds a block from the text form of its hashes.
    ///
    /// Fails with `SerializeError` where one of them is not hexadecimal.
    pub fn from(
        id: i32,
        timestamp: i64,
        previous_hash: String,
        merkle_root: String,
        hash: String,
        nonce: i64,
        transactions: Vec<Transaction>,
    ) -> (block: Result<Block, CoreError>)
        ensures
            block is Ok <==> is_hex_text(previous_hash@) && is_hex_text(merkle_root@)
                && is_hex_text(hash@),
            block matches Ok(b) ==> b@ == (BlockView {
                header: HeaderView {
                    id,
                    timestamp,
                    previous_hash: hex_bytes(previous_hash@),
                    merkle_root: hex_bytes(merkle_root@),
                },
                hash: hex_bytes(hash@),
                nonce,
                transactions: transaction_views(transactions@),
            }),
            block matches Err(e) ==> e == CoreError::SerializeError,
    {
        let header = match Header::from(id, timestamp, &previous_hash, &merkle_root) {
            Ok(header) => header,
            Err(e) => { return Err(e); },
        };
        let hash = match decode_hex(hash.as_str()) {
            Ok(bytes) => bytes,
            Err(e) => { return Err(e); },
        };
        Ok(Block { header, hash, nonce, transactions })
    }
}

/// Mines a header: searches for a nonce that seals the header's hash at the
/// given difficulty, with at most `max_attempts` random nonces.
pub fn mine(header: &Header, difficulty: usize, max_attempts: u64) -> (found: Option<
    (Vec<u8>, i64),
>)
    ensures
        found matches Some((sealed, nonce)) ==> is_solution(
            header_hash(header@),
            difficulty as nat,
            sealed@,
            nonce,
        ) && sealed@.len() == DIGEST_LEN,
        max_attempts == 0 ==> found is None,
        max_attempts > 0 && difficulty == 0 ==> found is Some,
{
    let digest = header.hash();
    proof_of_work(&digest, difficulty, max_attempts)
}

/// Checks the seal of a header: whether `mined_hash` is the hash that
/// `nonce` gives for the header's hash.
pub fn verify(header: &Header, mined_hash: &Vec<u8>, nonce: i64) -> (genuine: bool)
    ensures
        genuine == is_genuine(header_hash(header@), mined_hash@, nonce),
{
    let digest = header.hash();
    crate::pow::verify(digest.as_slice(), mined_hash.as_slice(), nonce)
}

/// The ids of a list of transactions, in its order.
pub open spec fn ids_of(transactions: Seq<TransactionView>) -> Seq<Seq<u8>> {
    Seq::new(transactions.len(), |i: int| transactions[i].id)
}

/// The header of the block that follows the tip with the given id and hash
/// and carries the given transactions.
pub open spec fn assembled_header(
    previous_id: i32,
    previous_hash: Seq<u8>,
    transactions: Seq<TransactionView>,
    timestamp: i64,
) -> HeaderView {
    HeaderView {
        id: (previous_id + 1) as i32,
        timestamp,
        previous_hash,
        merkle_root: merkle_root(ids_of(transactions)),
    }
}

/// Whether `block` is a block assembled on the given tip from the given
/// transactions: its header is the assembled one, its transactions are the
/// given ones in their order, and its hash and nonce seal the header at the
/// given difficulty.
pub open spec fn is_assembled(
    block: BlockView,
    previous_id: i32,
    previous_hash: Seq<u8>,
    transactions: Seq<TransactionView>,
    timestamp: i64,
    difficulty: nat,
) -> bool {
    &&& block.header == assembled_header(previous_id, previous_hash, transactions, timestamp)
    &&& block.transactions == transactions
    &&& is_solution(header_hash(block.header), difficulty, block.hash, block.nonce)
}

/// Whether `block` is a block assembled on the given tip for a miner: from
/// a coinbase transaction for the miner followed by the pending
/// transactions, at some time.
pub open spec fn is_new_block(
    block: BlockView,
    previous_id: i32,
    previous_hash: Seq<u8>,
    miner_address: Seq<u8>,
    pending: Seq<TransactionView>,
    difficulty: nat,
) -> bool {
    exists|reward: TransactionView, timestamp: i64|
        is_coinbase_for(reward, miner_address) && #[trigger] is_assembled(
            block,
            previous_id,
            previous_hash,
            seq![reward] + pending,
            timestamp,
            difficulty,
        )
}

/// Builds the header of the block that follows the tip with the given id
/// and hash: the next id, and the Merkle root of the transactions' ids.
pub fn build_header(
    previous_id: i32,
    previous_hash: Vec<u8>,
    transactions: &Vec<Transaction>,
    timestamp: i64,
) -> (header: Header)
    requires
        previous_id < i32::MAX,
    ensures
        header@ == assembled_header(
            previous_id,
            previous_hash@,
            transaction_views(transactions@),
            timestamp,
        ),
{
    let mut ids: Vec<Vec<u8>> = Vec::new();
    let mut i: usize = 0;
    while i < transactions.len()
        invariant
            i <= transactions@.len(),
            ids@.len() == i,
            forall|j: int| 0 <= j < i ==> (#[trigger] ids@[j])@ == transactions@[j]@.id,
        decreases transactions@.len() - i,
    {
        ids.push(copy_bytes(transactions[i].id.as_slice()));
        i = i + 1;
    }
    assert(byte_strings(ids@) =~= ids_of(transaction_views(transactions@)));
    let merkle_root = get_merkle_root(&ids);
    Header { id: previous_id + 1, timestamp, previous_hash, merkle_root }
}

/// Assembles a block on the tip of `chain`: the coinbase transaction first,
/// then the pending transactions in their order, under a header sealed by
/// proof of work.
///
/// Fails with `SerializeError` where the stored hash of the tip is not
/// hexadecimal. Gives no block where the search ends without a solution.
pub fn assemble(
    chain: &Chain,
    reward: Transaction,
    pending: Vec<Transaction>,
    timestamp: i64,
    difficulty: usize,
    max_attempts: u64,
) -> (sealed: Result<Option<Block>, CoreError>)
    requires
        previous_id(chain@) < i32::MAX,
    ensures
        sealed is Ok <==> previous_hash(chain@) is Some,
        sealed matches Err(e) ==> e == CoreError::SerializeError,
        sealed matches Ok(found) ==> {
            &&& found matches Some(block) ==> is_assembled(
                block@,
                previous_id(chain@),
                previous_hash(chain@).unwrap(),
                seq![reward@] + transaction_views(pending@),
                timestamp,
                difficulty as nat,
            )
            &&& max_attempts == 0 ==> found is None
            &&& max_attempts > 0 && difficulty == 0 ==> found is Some
        },
{
    let id = get_previous_id(chain);
    let mut transactions = pending;
    transactions.insert(0, reward);
    assert(transaction_views(transactions@) =~= seq![reward@] + transaction_views(pending@));
    let tip_hash = match get_previous_hash(chain) {
        Ok(hash) => hash,
        Err(e) => { return Err(e); },
    };
    let header = build_header(id, tip_hash, &transactions, timestamp);
    match mine(&header, difficulty, max_attempts) {
        Some((hash, nonce)) => Ok(Some(Block { header, hash, nonce, transactions })),
        None => Ok(None),
    }
}

/// Assembles a block for the node's wallet at the current time.
///
/// Fails with `WalletError` where the node has no wallet, and with
/// `SerializeError` where the wallet's address is not Base58 or the stored
/// hash of the tip is not hexadecimal. Gives no block where the search ends
/// without a solution.
pub fn new(
    chain: &Chain,
    pending: Vec<Transaction>,
    wallet_address: Option<&String>,
    difficulty: usize,
    max_attempts: u64,
) -> (sealed: Result<Option<Block>, CoreError>)
    requires
        previous_id(chain@) < i32::MAX,
    ensures
        sealed is Ok <==> wallet_address is Some && base58_bytes(wallet_address.unwrap()@) is Some
            && previous_hash(chain@) is Some,
        sealed matches Err(e) ==> e == (if wallet_address is None {
            CoreError::WalletError
        } else {
            CoreError::SerializeError
        }),
        sealed matches Ok(found) ==> {
            &&& found matches Some(block) ==> is_new_block(
                block@,
                previous_id(chain@),
                previous_hash(chain@).unwrap(),
                base58_bytes(wallet_address.unwrap()@).unwrap(),
                transaction_views(pending@),
                difficulty as nat,
            )
            &&& max_attempts == 0 ==> found is None
            &&& max_attempts > 0 && difficulty == 0 ==> found is Some
        },
{
    let reward = match coinbase(wallet_address) {
        Ok(tx) => tx,
        Err(e) => { return Err(e); },
    };
    let timestamp = get_current_timestamp();
    let ghost reward_view = reward@;
    let ghost pending_views = transaction_views(pending@);
    let sealed = assemble(chain, reward, pending, timestamp, difficulty, max_attempts);
    proof {
        if sealed is Ok && sealed.unwrap() is Some {
            assert(is_assembled(
                sealed.unwrap().unwrap()@,
                previous_id(chain@),
                previous_hash(chain@).unwrap(),
                seq![reward_view] + pending_views,
                timestamp,
                difficulty as nat,
            ));
        }
    }
    sealed
}

/// The first block: assembled on an empty chain, a block has id 1 and
/// builds on the zero hash.
pub proof fn lemma_genesis_block(
    block: BlockView,
    transactions: Seq<TransactionView>,
    timestamp: i64,
    difficulty: nat,
)
    requires
        is_assembled(
            block,
            previous_id(Seq::<NetBlockView>::empty()),
            previous_hash(Seq::<NetBlockView>::empty()).unwrap(),
            transactions,
            timestamp,
            difficulty,
        ),
    ensures
        block.header.id == 1,
        block.header.previous_hash == zero_hash(),
{
}

/// A block assembled from a coinbase transaction and two pending ones has
/// the coinbase transaction first, and its Merkle root pairs the first two
/// ids and the third id with itself.
pub proof fn lemma_block_of_three(
    block: BlockView,
    previous_id: i32,
    previous_hash: Seq<u8>,
    reward: TransactionView,
    first: TransactionView,
    second: TransactionView,
    timestamp: i64,
    difficulty: nat,
)
    requires
        is_assembled(
            block,
            previous_id,
            previous_hash,
            seq![reward] + seq![first, second],
            timestamp,
            difficulty,
        ),
    ensures
        block.transactions.len() == 3,
        block.transactions[0] == reward,
        block.transactions[1] == first,
        block.transactions[2] == second,
        block.header.merkle_root == pair_hash(
            pair_hash(reward.id, first.id),
            pair_hash(second.id, second.id),
        ),
{
    let transactions = seq![reward] + seq![first, second];
    assert(ids_of(transactions) =~= seq![reward.id, first.id, second.id]);
    lemma_root_of_three(reward.id, first.id, second.id);
}

} // verus!
