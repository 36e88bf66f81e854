//! The shapes in which transactions, blocks and wallets travel between nodes
//! and rest in storage: hashes, keys and signatures as hexadecimal text,
//! addresses as Base58 text.

use vstd::prelude::*;
use crate::base58fmt::{base58_text, encode_address, BASE58_MAX_LEN};
use crate::blocks::{Block, BlockView};
use crate::hexfmt::{hex_text, lemma_hex_round_trip, to_hex};
use crate::transactions::{decodable, decoded, Transaction, TransactionView};

verus! {

/// A transaction as text.
#[derive(Debug, Clone, PartialEq, Eq)]
pub struct NetTransaction {
    pub id: String,
    pub sender_addr: String,
    pub sender_pubkey: String,
    pub receiver_addr: String,
    pub amount: u32,
    pub timestamp: i64,
    pub signature: String,
}

/// A block as text.
#[derive(Debug, Clone, PartialEq, Eq)]
pub struct NetBlock {
    pub id: i32,
    pub timestamp: i64,
    pub previous_hash: String,
    pub merkle_root: String,
    pub hash: String,
    pub nonce: i64,
    pub transactions: Vec<NetTransaction>,
}

/// A key pair as hexadecimal text.
#[derive(Debug, Clone, PartialEq, Eq)]
pub struct NetKeyPair {
    pub private_key: String,
    pub public_key: String,
}

/// A wallet as text.
#[derive(Debug, Clone, PartialEq, Eq)]
pub struct NetWallet {
    pub keypair: NetKeyPair,
    pub address: String,
}

/// A peer: where it listens.
#[derive(Debug, Clone, PartialEq, Eq)]
pub struct Node {
    pub address: String,
    pub port: u32,
}

/// The mathematical value of a `Node`.
pub struct NodeView {
    pub address: Seq<char>,
    pub port: u32,
}

impl View for Node {
    type V = NodeView;

    open spec fn view(&self) -> NodeView {
        NodeView { address: self.address@, port: self.port }
    }
}

/// The mathematical value of a `NetTransaction`.
pub struct NetTransactionView {
    pub id: Seq<char>,
    pub sender_addr: Seq<char>,
    pub sender_pubkey: Seq<char>,
    pub receiver_addr: Seq<char>,
    pub amount: u32,
    pub timestamp: i64,
    pub signature: Seq<char>,
}

/// The mathematical value of a `NetBlock`.
pub struct NetBlockView {
    pub id: i32,
    pub timestamp: i64,
    pub previous_hash: Seq<char>,
    pub merkle_root: Seq<char>,
    pub hash: Seq<char>,
    pub nonce: i64,
    pub transactions: Seq<NetTransactionView>,
}

/// The mathematical value of a `NetKeyPair`.
pub struct NetKeyPairView {
    pub private_key: Seq<char>,
    pub public_key: Seq<char>,
}

/// The mathematical value of a `NetWallet`.
pub struct NetWalletView {
    pub keypair: NetKeyPairView,
    pub address: Seq<char>,
}

impl View for NetTransaction {
    type V = NetTransactionView;

    open spec fn view(&self) -> NetTransactionView {
        NetTransactionView {
            id: self.id@,
            sender_addr: self.sender_addr@,
            sender_pubkey: self.sender_pubkey@,
            receiver_addr: self.receiver_addr@,
            amount: self.amount,
            timestamp: self.timestamp,
            signature: self.signature@,
        }
    }
}

/// The values of the text transactions that a list holds.
pub open spec fn net_transaction_views(list: Seq<NetTransaction>) -> Seq<NetTransactionView> {
    Seq::new(list.len(), |i: int| list[i]@)
}

impl View for NetBlock {
    type V = NetBlockView;

    open spec fn view(&self) -> NetBlockView {
        NetBlockView {
            id: self.id,
            timestamp: self.timestamp,
            previous_hash: self.previous_hash@,
            merkle_root: self.merkle_root@,
            hash: self.hash@,
            nonce: self.nonce,
            transactions: net_transaction_views(self.transactions@),
        }
    }
}

impl View for NetKeyPair {
    type V = NetKeyPairView;

    open spec fn view(&self) -> NetKeyPairView {
        NetKeyPairView { private_key: self.private_key@, public_key: self.public_key@ }
    }
}

impl View for NetWallet {
    type V = NetWalletView;

    open spec fn view(&self) -> NetWalletView {
        NetWalletView { keypair: self.keypair@, address: self.address@ }
    }
}

/// The text form of a transaction.
pub open spec fn net_transaction_of(tx: TransactionView) -> NetTransactionView {
    NetTransactionView {
        id: hex_text(tx.id),
        sender_addr: base58_text(tx.transaction.content.sender_addr),
        sender_pubkey: hex_text(tx.transaction.content.sender_pubkey),
        receiver_addr: base58_text(tx.transaction.content.receiver_addr),
        amount: tx.transaction.content.amount,
        timestamp: tx.transaction.content.timestamp,
        signature: hex_text(tx.transaction.signature),
    }
}

/// The text form of a block: of its hashes and of each transaction in order.
pub open spec fn net_block_of(block: BlockView) -> NetBlockView {
    NetBlockView {
        id: block.header.id,
        timestamp: block.header.timestamp,
        previous_hash: hex_text(block.header.previous_hash),
        merkle_root: hex_text(block.header.merkle_root),
        hash: hex_text(block.hash),
        nonce: block.nonce,
        transactions: Seq::new(
            block.transactions.len(),
            |i: int| net_transaction_of(block.transactions[i]),
        ),
    }
}

/// Whether the addresses of a text transaction are short enough to be
/// decoded.
pub open spec fn addresses_fit(net: NetTransactionView) -> bool {
    &&& net.sender_addr.len() <= BASE58_MAX_LEN
    &&& net.receiver_addr.len() <= BASE58_MAX_LEN
}

impl NetTransaction {
    /// Writes a transaction as text.
    ///
    /// Where the addresses' texts are short enough to be decoded, the text
    /// form can be decoded and stands for the transaction again.
    pub fn from_transaction(tx: &Transaction) -> (net: NetTransaction)
        ensures
            net@ == net_transaction_of(tx@),
            addresses_fit(net@) ==> decodable(net@) && decoded(net@) == tx@,
    {
        proof {
            lemma_hex_round_trip(tx@.id);
            lemma_hex_round_trip(tx@.transaction.content.sender_pubkey);
            lemma_hex_round_trip(tx@.transaction.signature);
        }
        NetTransaction {
            id: to_hex(tx.id.as_slice()),
            sender_addr: encode_address(tx.transaction.content.sender_addr.as_slice()),
            sender_pubkey: to_hex(tx.transaction.content.sender_pubkey.as_slice()),
            receiver_addr: encode_address(tx.transaction.content.receiver_addr.as_slice()),
            amount: tx.transaction.content.amount,
            timestamp: tx.transaction.content.timestamp,
            signature: to_hex(tx.transaction.signature.as_slice()),
        }
    }
}

impl NetBlock {
    /// Writes a block as text.
    ///
    /// Each transaction whose addresses' texts are short enough to be
    /// decoded stands for the block's transaction again.
    pub fn from_block(block: Block) -> (net: NetBlock)
        ensures
            net@ == net_block_of(block@),
            forall|i: int|
                0 <= i < net@.transactions.len() && addresses_fit(#[trigger] net@.transactions[i])
                    ==> decodable(net@.transactions[i]) && decoded(net@.transactions[i])
                    == block@.transactions[i],
    {
        let previous_hash = to_hex(block.header.previous_hash.as_slice());
        let merkle_root = to_hex(block.header.merkle_root.as_slice());
        let hash = to_hex(block.hash.as_slice());
        let mut net_txs: Vec<NetTransaction> = Vec::new();
        let mut i: usize = 0;
        while i < block.transactions.len()
            invariant
                i <= block.transactions@.len(),
                net_txs@.len() == i,
                forall|j: int|
                    0 <= j < i && addresses_fit((#[trigger] net_txs@[j])@) ==> decodable(
                        net_txs@[j]@,
                    ) && decoded(net_txs@[j]@) == block.transactions@[j]@,
                forall|j: int|
                    0 <= j < i ==> (#[trigger] net_txs@[j])@ == net_transaction_of(
                        block.transactions@[j]@,
                    ),
            decreases block.transactions@.len() - i,
        {
            net_txs.push(NetTransaction::from_transaction(&block.transactions[i]));
            i = i + 1;
        }
        let net = NetBlock {
            id: block.header.id,
            timestamp: block.header.timestamp,
            previous_hash,
            merkle_root,
            hash,
            nonce: block.nonce,
            transactions: net_txs,
        };
        assert(net@.transactions =~= net_block_of(block@).transactions);
        assert forall|i: int|
            0 <= i < net@.transactions.len() && addresses_fit(
                #[trigger] net@.transactions[i],
            ) implies decodable(net@.transactions[i]) && decoded(net@.transactions[i])
            == block@.transactions[i] by {
            assert(net@.transactions[i] == net_txs@[i]@);
        }
        net
    }
}

} // verus!
