//! The node: the chain and the pending transactions, and what the node
//! decides when a transaction or a block arrives and when it mines.
//!
//! Every operation either completes or leaves the node as it was.

use vstd::prelude::*;
use crate::base58fmt::base58_bytes;
use crate::blockchain::{
    add_block, get_previous_hash, get_previous_id, previous_hash, previous_id, Chain,
};
use crate::blocks::{header_hash, is_assembled, is_new_block, BlockView, Header, HeaderView};
use crate::crypto::public_key_of;
use crate::errors::{CoreError, ServerError};
use crate::hexfmt::{decode_hex, hex_bytes, is_hex_text, lemma_hex_round_trip};
use crate::net::{
    addresses_fit, net_block_of, net_transaction_views, NetBlock, NetBlockView, NetTransaction,
    NetTransactionView,
};
use crate::pow::{
    has_leading_zeros, is_genuine, is_solution, leading_zero_nibbles,
    lemma_leading_zero_nibbles_weaken, DIFFICULTY,
};
use crate::transactions::{
    bytes_equal, decodable, decoded, is_creation_outcome, read_db, signature_valid,
    transaction_id, TransactionContentView, TransactionView,
};

verus! {

/// The state of a node: the chain and the transactions that wait for a
/// block, in the order of their arrival.
#[derive(Debug, Clone, PartialEq, Eq)]
pub struct NodeState {
    pub chain: Chain,
    pub pending: Vec<NetTransaction>,
}

/// The mathematical value of a `NodeState`.
pub struct NodeStateView {
    pub chain: Seq<NetBlockView>,
    pub pending: Seq<NetTransactionView>,
}

impl View for NodeState {
    type V = NodeStateView;

    open spec fn view(&self) -> NodeStateView {
        NodeStateView { chain: self.chain@, pending: net_transaction_views(self.pending@) }
    }
}

impl NodeState {
    /// A node without blocks and without pending transactions.
    pub fn new() -> (node: NodeState)
        ensures
            node@.chain == Seq::<NetBlockView>::empty(),
            node@.pending == Seq::<NetTransactionView>::empty(),
    {
        let node = NodeState { chain: Chain::new(), pending: Vec::new() };
        assert(node@.pending =~= Seq::<NetTransactionView>::empty());
        node
    }
}

/// The answer to a request for the index.
pub fn get_index() -> (text: String)
    ensures
        text@ == "Get /"@,
{
    "Get /".to_owned()
}

/// Whether a transaction that arrives is accepted: its fields can be
/// decoded, its id is the one derived from it, and its signature validates.
pub open spec fn acceptable(net: NetTransactionView) -> bool {
    &&& decodable(net)
    &&& decoded(net).id == transaction_id(decoded(net).transaction)
    &&& signature_valid(decoded(net).transaction)
}

/// A transaction created with the private key that belongs to the sender's
/// public key is acceptable in its text form, where the addresses' texts are
/// short enough to be decoded.
pub proof fn lemma_created_transaction_is_acceptable(
    net: NetTransaction,
    private_key: Seq<u8>,
    content: TransactionContentView,
)
    requires
        is_creation_outcome(Ok(net), private_key, content),
        public_key_of(private_key) == Some(content.sender_pubkey),
        addresses_fit(net@),
    ensures
        acceptable(net@),
{
}

/// Takes in a transaction that arrived: an acceptable transaction joins the
/// pending ones, behind those that wait already.
///
/// Fails with `ServerError::CoreError` where a field cannot be decoded, and
/// with `InvalidTransaction` where the id is not the derived one or the
/// signature does not validate.
pub fn post_transaction(node: &mut NodeState, tx_body: NetTransaction) -> (taken: Result<
    (),
    ServerError,
>)
    ensures
        taken is Ok <==> acceptable(tx_body@),
        taken is Ok ==> final(node)@ == (NodeStateView {
            chain: old(node)@.chain,
            pending: old(node)@.pending.push(tx_body@),
        }),
        taken matches Err(e) ==> final(node)@ == old(node)@ && e == (if decodable(tx_body@) {
            ServerError::InvalidTransaction
        } else {
            ServerError::CoreError
        }),
{
    let tx = match crate::transactions::from(
        &tx_body.id,
        &tx_body.sender_addr,
        &tx_body.sender_pubkey,
        &tx_body.receiver_addr,
        tx_body.amount,
        tx_body.timestamp,
        &tx_body.signature,
    ) {
        Ok(tx) => tx,
        Err(e) => { return Err(ServerError::from(e)); },
    };
    if !tx.has_derived_id() || !tx.is_valid() {
        return Err(ServerError::InvalidTransaction);
    }
    node.pending.push(tx_body);
    assert(node@.pending =~= old(node)@.pending.push(tx_body@));
    Ok(())
}

/// The header that the fields of a text block stand for.
pub open spec fn header_of(block: NetBlockView) -> HeaderView {
    HeaderView {
        id: block.id,
        timestamp: block.timestamp,
        previous_hash: hex_bytes(block.previous_hash),
        merkle_root: hex_bytes(block.merkle_root),
    }
}

/// What the validation of a block that arrives gives: `CoreError` where a
/// hash of the header is not hexadecimal, `SerializeError` where the block's
/// hash is not, `InvalidBlock` where hash and nonce do not solve the proof
/// of work for the block's own header at the node's difficulty, and
/// acceptance else.
pub open spec fn validation(block: NetBlockView) -> Result<(), ServerError> {
    if !(is_hex_text(block.previous_hash) && is_hex_text(block.merkle_root)) {
        Err(ServerError::CoreError)
    } else if !is_hex_text(block.hash) {
        Err(ServerError::SerializeError)
    } else if !is_solution(
        header_hash(header_of(block)),
        DIFFICULTY as nat,
        hex_bytes(block.hash),
        block.nonce,
    ) {
        Err(ServerError::InvalidBlock)
    } else {
        Ok(())
    }
}

/// A block whose hash and nonce do not seal its own header is rejected as
/// invalid, however well-formed its fields are: where the hash is not the
/// one that the nonce gives, and where it is but has not the leading zero
/// nibbles of the node's difficulty. An accepted block is sealed: its hash
/// is the one that its nonce gives and has those leading zero nibbles.
pub proof fn lemma_unsealed_block_is_rejected(block: NetBlockView)
    ensures
        is_hex_text(block.previous_hash) && is_hex_text(block.merkle_root) && is_hex_text(
            block.hash,
        ) && !is_genuine(header_hash(header_of(block)), hex_bytes(block.hash), block.nonce)
            ==> validation(block) == Err::<(), ServerError>(ServerError::InvalidBlock),
        is_hex_text(block.previous_hash) && is_hex_text(block.merkle_root) && is_hex_text(
            block.hash,
        ) && !leading_zero_nibbles(hex_bytes(block.hash), DIFFICULTY as nat) ==> validation(block)
            == Err::<(), ServerError>(ServerError::InvalidBlock),
        validation(block) is Ok ==> is_genuine(
            header_hash(header_of(block)),
            hex_bytes(block.hash),
            block.nonce,
        ) && leading_zero_nibbles(hex_bytes(block.hash), DIFFICULTY as nat),
{
}

/// Validates a block that arrived: recomputes the hash of its header,
/// checks that the block's hash is the one that its nonce gives, and that
/// it has the leading zero nibbles of the node's difficulty.
pub fn validate_incoming(block: &NetBlock) -> (verdict: Result<(), ServerError>)
    ensures
        verdict == validation(block@),
{
    let header = match Header::from(
        block.id,
        block.timestamp,
        &block.previous_hash,
        &block.merkle_root,
    ) {
        Ok(header) => header,
        Err(e) => { return Err(ServerError::from(e)); },
    };
    let mined_hash = match decode_hex(block.hash.as_str()) {
        Ok(bytes) => bytes,
        Err(_) => { return Err(ServerError::SerializeError); },
    };
    if crate::blocks::verify(&header, &mined_hash, block.nonce) && has_leading_zeros(
        mined_hash.as_slice(),
        DIFFICULTY,
    ) {
        Ok(())
    } else {
        Err(ServerError::InvalidBlock)
    }
}

/// Takes in a block that arrived: a block that passes validation becomes
/// the tip of the chain. The answer tells whether the block built on the
/// tip that the chain had; a block that does not is taken in all the same,
/// and the caller learns of it.
pub fn post_block(node: &mut NodeState, block: NetBlock) -> (taken: Result<bool, ServerError>)
    ensures
        taken is Ok <==> validation(block@) is Ok,
        taken matches Ok(linked) ==> linked == is_linked(old(node)@.chain, block@) && final(node)@
            == (NodeStateView {
            chain: old(node)@.chain.push(block@),
            pending: old(node)@.pending,
        }),
        taken matches Err(e) ==> validation(block@) == Err::<(), ServerError>(e) && final(node)@
            == old(node)@,
{
    match validate_incoming(&block) {
        Ok(()) => {},
        Err(e) => { return Err(e); },
    }
    let linked = links_to_tip(&node.chain, &block);
    add_block(&mut node.chain, block);
    Ok(linked)
}

/// Whether a block builds on the tip of a chain: its id is the next one and
/// its previous hash is the tip's.
pub open spec fn is_linked(chain: Seq<NetBlockView>, block: NetBlockView) -> bool {
    &&& block.id == previous_id(chain) + 1
    &&& is_hex_text(block.previous_hash)
    &&& previous_hash(chain) == Some(hex_bytes(block.previous_hash))
}

/// Tells whether a block builds on the tip of the chain. The validation of
/// a block does not ask for this; a node may, to learn of a block that it
/// accepted out of line.
pub fn links_to_tip(chain: &Chain, block: &NetBlock) -> (linked: bool)
    ensures
        linked == is_linked(chain@, block@),
{
    let tip_id = get_previous_id(chain);
    if tip_id == i32::MAX || block.id != tip_id + 1 {
        return false;
    }
    let claimed = match decode_hex(block.previous_hash.as_str()) {
        Ok(bytes) => bytes,
        Err(_) => { return false; },
    };
    match get_previous_hash(chain) {
        Ok(tip_hash) => bytes_equal(tip_hash.as_slice(), claimed.as_slice()),
        Err(_) => false,
    }
}

/// A block assembled on a chain builds on its tip.
pub proof fn lemma_assembled_block_is_linked(
    chain: Seq<NetBlockView>,
    block: BlockView,
    transactions: Seq<TransactionView>,
    timestamp: i64,
    difficulty: nat,
)
    requires
        previous_id(chain) < i32::MAX,
        previous_hash(chain) is Some,
        is_assembled(
            block,
            previous_id(chain),
            previous_hash(chain).unwrap(),
            transactions,
            timestamp,
            difficulty,
        ),
    ensures
        is_linked(chain, net_block_of(block)),
{
    lemma_hex_round_trip(block.header.previous_hash);
}

/// A block assembled at the node's difficulty or a higher one passes
/// validation when it arrives in text form.
pub proof fn lemma_assembled_block_is_accepted(
    block: BlockView,
    previous_id: i32,
    previous_hash: Seq<u8>,
    transactions: Seq<TransactionView>,
    timestamp: i64,
    difficulty: nat,
)
    requires
        is_assembled(block, previous_id, previous_hash, transactions, timestamp, difficulty),
        difficulty >= DIFFICULTY,
    ensures
        validation(net_block_of(block)) == Ok::<(), ServerError>(()),
{
    lemma_leading_zero_nibbles_weaken(block.hash, difficulty, DIFFICULTY as nat);
    lemma_hex_round_trip(block.header.previous_hash);
    lemma_hex_round_trip(block.header.merkle_root);
    lemma_hex_round_trip(block.hash);
    assert(header_of(net_block_of(block)) == block.header);
}

/// The transactions that decodable text transactions stand for.
pub open spec fn decoded_all(pending: Seq<NetTransactionView>) -> Seq<TransactionView> {
    Seq::new(pending.len(), |i: int| decoded(pending[i]))
}

/// Whether `tip` is the text form of a block newly assembled on `chain` for
/// a miner from the pending transactions.
pub open spec fn is_mined_tip(
    tip: NetBlockView,
    chain: Seq<NetBlockView>,
    miner_address: Seq<u8>,
    pending: Seq<NetTransactionView>,
    difficulty: nat,
) -> bool {
    exists|block: BlockView|
        tip == net_block_of(block) && #[trigger] is_new_block(
            block,
            previous_id(chain),
            previous_hash(chain).unwrap(),
            miner_address,
            decoded_all(pending),
            difficulty,
        )
}

/// Whether the node can mine: every pending transaction can be decoded, the
/// wallet's address is Base58 and the tip's hash hexadecimal.
pub open spec fn can_mine(node: NodeStateView, wallet_address: Option<Seq<char>>) -> bool {
    &&& forall|i: int| 0 <= i < node.pending.len() ==> decodable(#[trigger] node.pending[i])
    &&& wallet_address matches Some(address)
    &&& base58_bytes(address) is Some
    &&& previous_hash(node.chain) is Some
}

/// Every row can be decoded exactly where every value of a row can.
proof fn lemma_all_decodable(rows: Seq<NetTransaction>)
    ensures
        (forall|i: int| 0 <= i < rows.len() ==> decodable(#[trigger] rows[i]@)) <==> (forall|i: int|
            0 <= i < net_transaction_views(rows).len() ==> decodable(
                #[trigger] net_transaction_views(rows)[i],
            )),
{
    let views = net_transaction_views(rows);
    if forall|i: int| 0 <= i < rows.len() ==> decodable(#[trigger] rows[i]@) {
        assert forall|i: int| 0 <= i < views.len() implies decodable(#[trigger] views[i]) by {
            assert(decodable(rows[i]@));
        }
    }
    if forall|i: int| 0 <= i < views.len() ==> decodable(#[trigger] views[i]) {
        assert forall|i: int| 0 <= i < rows.len() implies decodable(#[trigger] rows[i]@) by {
            assert(decodable(views[i]));
        }
    }
}

/// Mines the pending transactions into a block for the node's wallet.
///
/// Where the search finds a solution, the block becomes the tip, the pending
/// transactions are cleared, and the answer is `true`. Where it ends without
/// one, the answer is `false`. Fails with `WalletError` where every pending
/// transaction can be decoded and the node has no wallet, and with
/// `SerializeError` where the node cannot mine for another reason.
pub fn mine_pending(
    node: &mut NodeState,
    wallet_address: Option<&String>,
    difficulty: usize,
    max_attempts: u64,
) -> (sealed: Result<bool, CoreError>)
    requires
        previous_id(old(node)@.chain) < i32::MAX,
    ensures
        sealed is Ok <==> can_mine(
            old(node)@,
            match wallet_address {
                Some(address) => Some(address@),
                None => None,
            },
        ),
        sealed matches Err(e) ==> e == (if wallet_address is None && (forall|i: int|
            0 <= i < old(node)@.pending.len() ==> decodable(#[trigger] old(node)@.pending[i])) {
            CoreError::WalletError
        } else {
            CoreError::SerializeError
        }),
        sealed == Ok::<bool, CoreError>(true) ==> {
            &&& final(node)@.pending.len() == 0
            &&& final(node)@.chain.len() == old(node)@.chain.len() + 1
            &&& final(node)@.chain.drop_last() == old(node)@.chain
            &&& is_mined_tip(
                final(node)@.chain.last(),
                old(node)@.chain,
                base58_bytes(wallet_address.unwrap()@).unwrap(),
                old(node)@.pending,
                difficulty as nat,
            )
        },
        sealed != Ok::<bool, CoreError>(true) ==> final(node)@ == old(node)@,
        sealed is Ok && max_attempts > 0 && difficulty == 0 ==> sealed == Ok::<bool, CoreError>(true),
        sealed is Ok && max_attempts == 0 ==> sealed == Ok::<bool, CoreError>(false),
{
    proof {
        lemma_all_decodable(node.pending@);
    }
    let pending = match read_db(&node.pending) {
        Ok(list) => list,
        Err(e) => { return Err(e); },
    };
    assert(crate::blocks::transaction_views(pending@) =~= decoded_all(node@.pending));
    let found = match crate::blocks::new(
        &node.chain,
        pending,
        wallet_address,
        difficulty,
        max_attempts,
    ) {
        Ok(found) => found,
        Err(e) => { return Err(e); },
    };
    match found {
        Some(block) => {
            let ghost block_view = block@;
            let net = NetBlock::from_block(block);
            add_block(&mut node.chain, net);
            node.pending.clear();
            proof {
                assert(node@.chain.drop_last() =~= old(node)@.chain);
                assert(node@.chain.last() == net_block_of(block_view));
                assert(is_new_block(
                    block_view,
                    previous_id(old(node)@.chain),
                    previous_hash(old(node)@.chain).unwrap(),
                    base58_bytes(wallet_address.unwrap()@).unwrap(),
                    decoded_all(old(node)@.pending),
                    difficulty as nat,
                ));
            }
            Ok(true)
        },
        None => Ok(false),
    }
}

} // verus!
