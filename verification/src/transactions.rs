//! Transactions: their canonical bytes, their signature and their id.

use vstd::prelude::*;
use vstd::slice::slice_to_vec;
use crate::codec::{
    field_at, from_twos_complement, i64_bytes, int_at, lemma_bytes_of_int_at,
    lemma_field_at_of_prefixed, lemma_from_twos_complement_round_trip, lemma_int_at_of_bytes,
    lemma_le_bytes_len, lemma_occurs_at_concat, lemma_prefixed_of_field_at, lemma_radix_pow_values,
    lemma_twos_complement_round_trip, occurs_at, prefixed, push_bytes, push_i64, push_u32,
    radix_pow, read_bytes, read_i64, read_u32, twos_complement, u32_bytes,
};
use crate::crypto::{
    public_key_of, schnorr_accepts, schnorr_sign, schnorr_signature, schnorr_verify, SIGNATURE_LEN,
};
use crate::base58fmt::{base58_bytes, decode_address};
use crate::errors::CoreError;
use crate::hashing::{sha256, sha256_digest, DIGEST_LEN};
use crate::hexfmt::{decode_hex, hex_bytes, is_hex_text};
use crate::net::{addresses_fit, net_transaction_of, NetTransaction, NetTransactionView};
use crate::utils::get_current_timestamp;

verus! {

/// What a transaction says: who pays whom how much, and when.
#[derive(Debug, Clone, PartialEq, Eq)]
pub struct TransactionContent {
    /// Address of the sender: the hash of its public key.
    pub sender_addr: Vec<u8>,
    /// Public key of the sender, in compressed form.
    pub sender_pubkey: Vec<u8>,
    /// Address of the receiver.
    pub receiver_addr: Vec<u8>,
    /// The amount that changes hands.
    pub amount: u32,
    /// Milliseconds since the Unix epoch.
    pub timestamp: i64,
}

/// A transaction content with the signature made over it.
#[derive(Debug, Clone, PartialEq, Eq)]
pub struct TransactionSigned {
    pub content: TransactionContent,
    pub signature: Vec<u8>,
}

/// A signed transaction under its id.
#[derive(Debug, Clone, PartialEq, Eq)]
pub struct Transaction {
    pub id: Vec<u8>,
    pub transaction: TransactionSigned,
}

/// The mathematical value of a `TransactionContent`.
pub struct TransactionContentView {
    pub sender_addr: Seq<u8>,
    pub sender_pubkey: Seq<u8>,
    pub receiver_addr: Seq<u8>,
    pub amount: u32,
    pub timestamp: i64,
}

/// The mathematical value of a `TransactionSigned`.
pub struct TransactionSignedView {
    pub content: TransactionContentView,
    pub signature: Seq<u8>,
}

/// The mathematical value of a `Transaction`.
pub struct TransactionView {
    pub id: Seq<u8>,
    pub transaction: TransactionSignedView,
}

impl View for TransactionContent {
    type V = TransactionContentView;

    open spec fn view(&self) -> TransactionContentView {
        TransactionContentView {
            sender_addr: self.sender_addr@,
            sender_pubkey: self.sender_pubkey@,
            receiver_addr: self.receiver_addr@,
            amount: self.amount,
            timestamp: self.timestamp,
        }
    }
}

impl View for TransactionSigned {
    type V = TransactionSignedView;

    open spec fn view(&self) -> TransactionSignedView {
        TransactionSignedView { content: self.content@, signature: self.signature@ }
    }
}

impl View for Transaction {
    type V = TransactionView;

    open spec fn view(&self) -> TransactionView {
        TransactionView { id: self.id@, transaction: self.transaction@ }
    }
}

/// The canonical bytes of a content: the three byte strings, the amount in
/// four bytes and the timestamp in eight.
pub open spec fn content_bytes(content: TransactionContentView) -> Seq<u8> {
    prefixed(content.sender_addr) + prefixed(content.sender_pubkey) + prefixed(
        content.receiver_addr,
    ) + u32_bytes(content.amount) + i64_bytes(content.timestamp)
}

/// The canonical bytes of a signed transaction: the content's, then the
/// signature.
pub open spec fn signed_bytes(signed: TransactionSignedView) -> Seq<u8> {
    content_bytes(signed.content) + prefixed(signed.signature)
}

/// The canonical bytes of a transaction: the id, then the signed transaction.
pub open spec fn transaction_bytes(tx: TransactionView) -> Seq<u8> {
    prefixed(tx.id) + signed_bytes(tx.transaction)
}

/// The digest that is signed: the SHA-256 of the content's canonical bytes.
pub open spec fn signing_digest(content: TransactionContentView) -> Seq<u8> {
    sha256_digest(content_bytes(content))
}

/// The id of a signed transaction: the SHA-256 of its canonical bytes.
pub open spec fn transaction_id(signed: TransactionSignedView) -> Seq<u8> {
    sha256_digest(signed_bytes(signed))
}

/// Whether the signature of `signed` is accepted for its content under the
/// sender's public key.
pub open spec fn signature_valid(signed: TransactionSignedView) -> bool {
    schnorr_accepts(signing_digest(signed.content), signed.signature, signed.content.sender_pubkey)
}

impl TransactionContent {
    /// Appends the canonical bytes of the content to `out`.
    pub fn encode_into(&self, out: &mut Vec<u8>)
        ensures
            final(out)@ == old(out)@ + content_bytes(self@),
    {
        let ghost start = out@;
        push_bytes(out, self.sender_addr.as_slice());
        push_bytes(out, self.sender_pubkey.as_slice());
        push_bytes(out, self.receiver_addr.as_slice());
        push_u32(out, self.amount);
        push_i64(out, self.timestamp);
        assert(out@ =~= start + content_bytes(self@));
    }

    /// The canonical bytes of the content.
    pub fn encode(&self) -> (bytes: Vec<u8>)
        ensures
            bytes@ == content_bytes(self@),
    {
        let mut out: Vec<u8> = Vec::new();
        self.encode_into(&mut out);
        assert(out@ =~= content_bytes(self@));
        out
    }

    /// Signs the content: a Schnorr signature with `private_key` over the
    /// SHA-256 of the canonical bytes.
    ///
    /// Succeeds exactly where `private_key` is a secret key, and fails with
    /// `CryptoError` elsewhere. A signature made with the key that belongs
    /// to the sender's public key is valid for this content.
    pub fn get_signature(&self, private_key: &[u8]) -> (signature: Result<Vec<u8>, CoreError>)
        ensures
            signature is Ok <==> public_key_of(private_key@) is Some,
            signature is Ok <==> schnorr_signature(signing_digest(self@), private_key@) is Some,
            signature matches Ok(sig) ==> {
                &&& schnorr_signature(signing_digest(self@), private_key@) == Some(sig@)
                &&& sig@.len() == SIGNATURE_LEN
                &&& public_key_of(private_key@) == Some(self@.sender_pubkey) ==> signature_valid(
                    TransactionSignedView { content: self@, signature: sig@ },
                )
            },
            signature matches Err(e) ==> e == CoreError::CryptoError,
    {
        let encoded = self.encode();
        let digest = sha256(encoded.as_slice());
        match schnorr_sign(digest.as_slice(), private_key) {
            Ok(sig) => Ok(sig),
            Err(e) => Err(CoreError::from(e)),
        }
    }
}

impl TransactionSigned {
    /// Appends the canonical bytes of the signed transaction to `out`.
    pub fn encode_into(&self, out: &mut Vec<u8>)
        ensures
            final(out)@ == old(out)@ + signed_bytes(self@),
    {
        let ghost start = out@;
        self.content.encode_into(out);
        push_bytes(out, self.signature.as_slice());
        assert(out@ =~= start + signed_bytes(self@));
    }

    /// The canonical bytes of the signed transaction.
    pub fn encode(&self) -> (bytes: Vec<u8>)
        ensures
            bytes@ == signed_bytes(self@),
    {
        let mut out: Vec<u8> = Vec::new();
        self.encode_into(&mut out);
        assert(out@ =~= signed_bytes(self@));
        out
    }

    /// The id of the signed transaction: the SHA-256 of its canonical bytes.
    pub fn get_id(&self) -> (id: Vec<u8>)
        ensures
            id@ == transaction_id(self@),
            id@.len() == DIGEST_LEN,
    {
        let encoded = self.encode();
        sha256(encoded.as_slice())
    }
}

impl Transaction {
    /// The canonical bytes of the transaction.
    pub fn encode(&self) -> (bytes: Vec<u8>)
        ensures
            bytes@ == transaction_bytes(self@),
    {
        let mut out: Vec<u8> = Vec::new();
        push_bytes(&mut out, self.id.as_slice());
        self.transaction.encode_into(&mut out);
        assert(out@ =~= transaction_bytes(self@));
        out
    }

    /// Whether the signature validates against the sender's public key.
    ///
    /// Bytes that are no public key or no signature make the transaction
    /// invalid; they are no error.
    pub fn is_valid(&self) -> (valid: bool)
        ensures
            valid == signature_valid(self@.transaction),
    {
        let encoded = self.transaction.content.encode();
        let digest = sha256(encoded.as_slice());
        match schnorr_verify(
            digest.as_slice(),
            self.transaction.signature.as_slice(),
            self.transaction.content.sender_pubkey.as_slice(),
        ) {
            Ok(()) => true,
            Err(_) => false,
        }
    }

    /// Whether the id is the one derived from the signed transaction.
    pub fn has_derived_id(&self) -> (derived: bool)
        ensures
            derived == (self@.id == transaction_id(self@.transaction)),
    {
        let id = self.transaction.get_id();
        bytes_equal(id.as_slice(), self.id.as_slice())
    }
}

/// Whether two byte strings are the same.
pub fn bytes_equal(left: &[u8], right: &[u8]) -> (same: bool)
    ensures
        same == (left@ == right@),
{
    if left.len() != right.len() {
        return false;
    }
    let mut i: usize = 0;
    while i < left.len()
        invariant
            i <= left@.len(),
            left@.len() == right@.len(),
            forall|j: int| 0 <= j < i ==> left@[j] == right@[j],
        decreases left@.len() - i,
    {
        if left[i] != right[i] {
            return false;
        }
        i = i + 1;
    }
    assert(left@ =~= right@);
    true
}

/// A copy of a byte string.
pub fn copy_bytes(bytes: &[u8]) -> (copy: Vec<u8>)
    ensures
        copy@ == bytes@,
{
    slice_to_vec(bytes)
}

/// What the creation of a transaction gives: the content signed with
/// `private_key` under its derived id, or `CryptoError` where the key is no
/// secret key.
pub open spec fn creation(private_key: Seq<u8>, content: TransactionContentView) -> Result<
    TransactionView,
    CoreError,
> {
    match schnorr_signature(signing_digest(content), private_key) {
        Some(signature) => {
            let signed = TransactionSignedView { content, signature };
            Ok(TransactionView { id: transaction_id(signed), transaction: signed })
        },
        None => Err(CoreError::CryptoError),
    }
}

/// Creates a transaction with the given timestamp: builds the content, signs
/// it with the sender's private key and derives the id.
///
/// Succeeds exactly where `sender_privkey` is a secret key. A transaction
/// created with the private key that belongs to `sender_pubkey` is valid.
pub fn new_at(
    sender_privkey: &[u8],
    sender_pubkey: Vec<u8>,
    sender_addr: Vec<u8>,
    receiver_addr: Vec<u8>,
    amount: u32,
    timestamp: i64,
) -> (created: Result<Transaction, CoreError>)
    ensures
        ({
            let content = TransactionContentView {
                sender_addr: sender_addr@,
                sender_pubkey: sender_pubkey@,
                receiver_addr: receiver_addr@,
                amount,
                timestamp,
            };
            match created {
                Ok(tx) => {
                    &&& creation(sender_privkey@, content) == Ok::<TransactionView, CoreError>(tx@)
                    &&& public_key_of(sender_privkey@) == Some(sender_pubkey@) ==> signature_valid(
                        tx@.transaction,
                    )
                },
                Err(e) => creation(sender_privkey@, content) == Err::<TransactionView, CoreError>(e),
            }
        }),
        created is Ok <==> public_key_of(sender_privkey@) is Some,
{
    let content = TransactionContent { sender_addr, sender_pubkey, receiver_addr, amount, timestamp };
    let signature = match content.get_signature(sender_privkey) {
        Ok(signature) => signature,
        Err(e) => { return Err(e); },
    };
    let signed = TransactionSigned { content, signature };
    let id = signed.get_id();
    Ok(Transaction { id, transaction: signed })
}

/// Whether `outcome` is what the creation of a transaction with `content`
/// gives, in text form: the created transaction as text, which is valid
/// where the private key belongs to the sender's public key, or the error of
/// the creation.
pub open spec fn is_creation_outcome(
    outcome: Result<NetTransaction, CoreError>,
    private_key: Seq<u8>,
    content: TransactionContentView,
) -> bool {
    match outcome {
        Ok(net) => {
            &&& creation(private_key, content) matches Ok(tx)
            &&& net@ == net_transaction_of(tx)
            &&& public_key_of(private_key) == Some(content.sender_pubkey) ==> signature_valid(
                tx.transaction,
            )
            &&& addresses_fit(net@) ==> decodable(net@) && decoded(net@) == tx
        },
        Err(e) => creation(private_key, content) == Err::<TransactionView, CoreError>(e),
    }
}

/// Creates a transaction stamped with the current time and gives its text
/// form: what `new_at` creates for some timestamp.
///
/// Succeeds exactly where `sender_privkey` is a secret key. With the private
/// key that belongs to `sender_pubkey` the transaction is valid, and where
/// the addresses' texts are short enough to be decoded, the text form stands
/// for it.
pub fn new(
    sender_privkey: &[u8],
    sender_pubkey: Vec<u8>,
    sender_addr: Vec<u8>,
    receiver_addr: Vec<u8>,
    amount: u32,
) -> (created: Result<NetTransaction, CoreError>)
    ensures
        created is Ok <==> public_key_of(sender_privkey@) is Some,
        created matches Err(e) ==> e == CoreError::CryptoError,
        exists|timestamp: i64|
            is_creation_outcome(
                created,
                sender_privkey@,
                TransactionContentView {
                    sender_addr: sender_addr@,
                    sender_pubkey: sender_pubkey@,
                    receiver_addr: receiver_addr@,
                    amount,
                    timestamp,
                },
            ),
{
    let timestamp = get_current_timestamp();
    let ghost content = TransactionContentView {
        sender_addr: sender_addr@,
        sender_pubkey: sender_pubkey@,
        receiver_addr: receiver_addr@,
        amount,
        timestamp,
    };
    let created = match new_at(
        sender_privkey,
        sender_pubkey,
        sender_addr,
        receiver_addr,
        amount,
        timestamp,
    ) {
        Ok(tx) => Ok(NetTransaction::from_transaction(&tx)),
        Err(e) => Err(e),
    };
    assert(is_creation_outcome(created, sender_privkey@, content));
    created
}

/// Whether every field of a text transaction can be decoded.
pub open spec fn decodable(net: NetTransactionView) -> bool {
    &&& is_hex_text(net.id)
    &&& base58_bytes(net.sender_addr) is Some
    &&& is_hex_text(net.sender_pubkey)
    &&& base58_bytes(net.receiver_addr) is Some
    &&& is_hex_text(net.signature)
}

/// The transaction that a decodable text transaction stands for.
pub open spec fn decoded(net: NetTransactionView) -> TransactionView {
    TransactionView {
        id: hex_bytes(net.id),
        transaction: TransactionSignedView {
            content: TransactionContentView {
                sender_addr: base58_bytes(net.sender_addr).unwrap(),
                sender_pubkey: hex_bytes(net.sender_pubkey),
                receiver_addr: base58_bytes(net.receiver_addr).unwrap(),
                amount: net.amount,
                timestamp: net.timestamp,
            },
            signature: hex_bytes(net.signature),
        },
    }
}

/// Builds a transaction from the text form of its fields.
///
/// Fails with `SerializeError` where a hash, key or signature is not
/// hexadecimal or an address is not Base58.
pub fn from(
    id: &String,
    sender_addr: &String,
    sender_pubkey: &String,
    receiver_addr: &String,
    amount: u32,
    timestamp: i64,
    signature: &String,
) -> (tx: Result<Transaction, CoreError>)
    ensures
        ({
            let net = NetTransactionView {
                id: id@,
                sender_addr: sender_addr@,
                sender_pubkey: sender_pubkey@,
                receiver_addr: receiver_addr@,
                amount,
                timestamp,
                signature: signature@,
            };
            &&& tx is Ok <==> decodable(net)
            &&& tx matches Ok(t) ==> t@ == decoded(net)
            &&& tx matches Err(e) ==> e == CoreError::SerializeError
        }),
{
    let id = match decode_hex(id.as_str()) {
        Ok(bytes) => bytes,
        Err(e) => { return Err(e); },
    };
    let sender_addr = match decode_address(sender_addr.as_str()) {
        Ok(bytes) => bytes,
        Err(e) => { return Err(e); },
    };
    let sender_pubkey = match decode_hex(sender_pubkey.as_str()) {
        Ok(bytes) => bytes,
        Err(e) => { return Err(e); },
    };
    let receiver_addr = match decode_address(receiver_addr.as_str()) {
        Ok(bytes) => bytes,
        Err(e) => { return Err(e); },
    };
    let signature = match decode_hex(signature.as_str()) {
        Ok(bytes) => bytes,
        Err(e) => { return Err(e); },
    };
    Ok(
        Transaction {
            id,
            transaction: TransactionSigned {
                content: TransactionContent {
                    sender_addr,
                    sender_pubkey,
                    receiver_addr,
                    amount,
                    timestamp,
                },
                signature,
            },
        },
    )
}

/// Builds the transactions that the rows of the pending store stand for, in
/// the order of the rows.
///
/// Fails with `SerializeError` where a row cannot be decoded.
pub fn read_db(rows: &Vec<NetTransaction>) -> (transactions: Result<Vec<Transaction>, CoreError>)
    ensures
        transactions is Ok <==> forall|i: int| 0 <= i < rows@.len() ==> decodable(#[trigger] rows@[i]@),
        transactions matches Ok(list) ==> {
            &&& list@.len() == rows@.len()
            &&& forall|i: int| 0 <= i < list@.len() ==> (#[trigger] list@[i])@ == decoded(rows@[i]@)
        },
        transactions matches Err(e) ==> e == CoreError::SerializeError,
{
    let mut list: Vec<Transaction> = Vec::new();
    let mut i: usize = 0;
    while i < rows.len()
        invariant
            i <= rows@.len(),
            list@.len() == i,
            forall|j: int| 0 <= j < i ==> decodable(#[trigger] rows@[j]@),
            forall|j: int| 0 <= j < i ==> (#[trigger] list@[j])@ == decoded(rows@[j]@),
        decreases rows@.len() - i,
    {
        let row = &rows[i];
        let tx = match from(
            &row.id,
            &row.sender_addr,
            &row.sender_pubkey,
            &row.receiver_addr,
            row.amount,
            row.timestamp,
            &row.signature,
        ) {
            Ok(tx) => tx,
            Err(e) => {
                assert(!decodable(rows@[i as int]@));
                return Err(e);
            },
        };
        list.push(tx);
        i = i + 1;
    }
    Ok(list)
}

/// The amount that a coinbase transaction credits.
pub const COINBASE_REWARD: u32 = 50;

/// The marker that stands for sender, public key and signature of a coinbase
/// transaction: the ASCII bytes of the word `coinbase`.
pub open spec fn coinbase_marker() -> Seq<u8> {
    seq![99u8, 111u8, 105u8, 110u8, 98u8, 97u8, 115u8, 101u8]
}

/// The signed part of the coinbase transaction for a miner and a time.
pub open spec fn coinbase_signed(miner_address: Seq<u8>, timestamp: i64) -> TransactionSignedView {
    TransactionSignedView {
        content: TransactionContentView {
            sender_addr: coinbase_marker(),
            sender_pubkey: coinbase_marker(),
            receiver_addr: miner_address,
            amount: COINBASE_REWARD,
            timestamp,
        },
        signature: coinbase_marker(),
    }
}

/// The coinbase transaction for a miner and a time, under its derived id.
pub open spec fn coinbase_transaction(miner_address: Seq<u8>, timestamp: i64) -> TransactionView {
    TransactionView {
        id: transaction_id(coinbase_signed(miner_address, timestamp)),
        transaction: coinbase_signed(miner_address, timestamp),
    }
}

/// The marker of a coinbase transaction.
pub fn marker() -> (bytes: Vec<u8>)
    ensures
        bytes@ == coinbase_marker(),
{
    let mut bytes: Vec<u8> = Vec::new();
    bytes.push(99u8);
    bytes.push(111u8);
    bytes.push(105u8);
    bytes.push(110u8);
    bytes.push(98u8);
    bytes.push(97u8);
    bytes.push(115u8);
    bytes.push(101u8);
    assert(bytes@ =~= coinbase_marker());
    bytes
}

/// Builds the coinbase transaction that credits `miner_address` at the given
/// time. It carries the marker in place of a signature.
pub fn coinbase_at(miner_address: Vec<u8>, timestamp: i64) -> (tx: Transaction)
    ensures
        tx@ == coinbase_transaction(miner_address@, timestamp),
{
    let signed = TransactionSigned {
        content: TransactionContent {
            sender_addr: marker(),
            sender_pubkey: marker(),
            receiver_addr: miner_address,
            amount: COINBASE_REWARD,
            timestamp,
        },
        signature: marker(),
    };
    let id = signed.get_id();
    Transaction { id, transaction: signed }
}

/// Whether `tx` is the coinbase transaction for a miner at some time.
pub open spec fn is_coinbase_for(tx: TransactionView, miner_address: Seq<u8>) -> bool {
    exists|timestamp: i64| tx == #[trigger] coinbase_transaction(miner_address, timestamp)
}

/// Builds the coinbase transaction for the node's wallet, stamped with the
/// current time.
///
/// Fails with `WalletError` where the node has no wallet, and with
/// `SerializeError` where the wallet's address is not Base58.
pub fn coinbase(wallet_address: Option<&String>) -> (tx: Result<Transaction, CoreError>)
    ensures
        wallet_address is None ==> (tx matches Err(e) && e == CoreError::WalletError),
        wallet_address matches Some(address) ==> match base58_bytes(address@) {
            None => (tx matches Err(e) && e == CoreError::SerializeError),
            Some(miner) => (tx matches Ok(t) && is_coinbase_for(t@, miner)),
        },
{
    let address = match wallet_address {
        Some(address) => address,
        None => { return Err(CoreError::WalletError); },
    };
    let miner = match decode_address(address.as_str()) {
        Ok(bytes) => bytes,
        Err(e) => { return Err(e); },
    };
    let timestamp = get_current_timestamp();
    let ghost miner_bytes = miner@;
    let tx = coinbase_at(miner, timestamp);
    assert(tx@ == coinbase_transaction(miner_bytes, timestamp));
    Ok(tx)
}

/// The content that is read at `pos`, and the position behind it, if `data`
/// holds all of it.
pub open spec fn content_at(data: Seq<u8>, pos: int) -> Option<(TransactionContentView, int)> {
    match field_at(data, pos) {
        Some((sender_addr, pos1)) => match field_at(data, pos1) {
            Some((sender_pubkey, pos2)) => match field_at(data, pos2) {
                Some((receiver_addr, pos3)) => match (int_at(data, pos3, 4), int_at(data, pos3 + 4, 8)) {
                    (Some(amount), Some(timestamp)) => Some(
                        (
                            TransactionContentView {
                                sender_addr,
                                sender_pubkey,
                                receiver_addr,
                                amount: amount as u32,
                                timestamp: from_twos_complement(timestamp, 8) as i64,
                            },
                            pos3 + 12,
                        ),
                    ),
                    _ => None,
                },
                None => None,
            },
            None => None,
        },
        None => None,
    }
}

/// The transaction that is read from the start of `data`, if `data` holds
/// all of it. What follows the transaction is not looked at.
pub open spec fn transaction_at_start(data: Seq<u8>) -> Option<TransactionView> {
    match field_at(data, 0) {
        Some((id, pos1)) => match content_at(data, pos1) {
            Some((content, pos2)) => match field_at(data, pos2) {
                Some((signature, _)) => Some(
                    TransactionView {
                        id,
                        transaction: TransactionSignedView { content, signature },
                    },
                ),
                None => None,
            },
            None => None,
        },
        None => None,
    }
}

/// Where a content is read, its canonical bytes stand.
pub proof fn lemma_content_at_sound(data: Seq<u8>, pos: int)
    requires
        content_at(data, pos) is Some,
    ensures
        occurs_at(content_bytes(content_at(data, pos).unwrap().0), data, pos),
        content_at(data, pos).unwrap().1 == pos + content_bytes(
            content_at(data, pos).unwrap().0,
        ).len(),
{
    let content = content_at(data, pos).unwrap().0;
    let (sender_addr, pos1) = field_at(data, pos).unwrap();
    let (sender_pubkey, pos2) = field_at(data, pos1).unwrap();
    let (receiver_addr, pos3) = field_at(data, pos2).unwrap();
    let amount = int_at(data, pos3, 4).unwrap();
    let timestamp = int_at(data, pos3 + 4, 8).unwrap();
    lemma_prefixed_of_field_at(data, pos);
    lemma_prefixed_of_field_at(data, pos1);
    lemma_prefixed_of_field_at(data, pos2);
    lemma_bytes_of_int_at(data, pos3, 4);
    lemma_bytes_of_int_at(data, pos3 + 4, 8);
    lemma_radix_pow_values();
    lemma_from_twos_complement_round_trip(timestamp, 8);
    lemma_le_bytes_len(amount, 4);
    lemma_le_bytes_len(timestamp, 8);
    let a = prefixed(sender_addr);
    let b = prefixed(sender_pubkey);
    let c = prefixed(receiver_addr);
    let d = u32_bytes(content.amount);
    let e = i64_bytes(content.timestamp);
    lemma_occurs_at_concat(a, b, data, pos);
    lemma_occurs_at_concat(a + b, c, data, pos);
    lemma_occurs_at_concat(a + b + c, d, data, pos);
    lemma_occurs_at_concat(a + b + c + d, e, data, pos);
}

/// Where the canonical bytes of a content stand, that content is read.
pub proof fn lemma_content_at_complete(content: TransactionContentView, data: Seq<u8>, pos: int)
    requires
        data.len() < radix_pow(8),
        occurs_at(content_bytes(content), data, pos),
    ensures
        content_at(data, pos) == Some((content, pos + content_bytes(content).len())),
{
    let a = prefixed(content.sender_addr);
    let b = prefixed(content.sender_pubkey);
    let c = prefixed(content.receiver_addr);
    let d = u32_bytes(content.amount);
    let e = i64_bytes(content.timestamp);
    lemma_occurs_at_concat(a + b + c + d, e, data, pos);
    lemma_occurs_at_concat(a + b + c, d, data, pos);
    lemma_occurs_at_concat(a + b, c, data, pos);
    lemma_occurs_at_concat(a, b, data, pos);
    lemma_field_at_of_prefixed(content.sender_addr, data, pos);
    let pos1 = pos + a.len();
    lemma_field_at_of_prefixed(content.sender_pubkey, data, pos1);
    let pos2 = pos1 + b.len();
    lemma_field_at_of_prefixed(content.receiver_addr, data, pos2);
    let pos3 = pos2 + c.len();
    lemma_radix_pow_values();
    lemma_le_bytes_len(content.amount as nat, 4);
    lemma_int_at_of_bytes(content.amount as nat, 4, data, pos3);
    lemma_twos_complement_round_trip(content.timestamp as int, 8);
    lemma_le_bytes_len(twos_complement(content.timestamp as int, 8), 8);
    lemma_int_at_of_bytes(twos_complement(content.timestamp as int, 8), 8, data, pos3 + 4);
}

/// What is read from the start of `data` has its canonical bytes there.
pub proof fn lemma_transaction_at_start_sound(data: Seq<u8>)
    requires
        transaction_at_start(data) is Some,
    ensures
        occurs_at(transaction_bytes(transaction_at_start(data).unwrap()), data, 0),
{
    let tx = transaction_at_start(data).unwrap();
    let (id, pos1) = field_at(data, 0).unwrap();
    let (content, pos2) = content_at(data, pos1).unwrap();
    lemma_prefixed_of_field_at(data, 0);
    lemma_content_at_sound(data, pos1);
    lemma_prefixed_of_field_at(data, pos2);
    lemma_occurs_at_concat(content_bytes(content), prefixed(tx.transaction.signature), data, pos1);
    lemma_occurs_at_concat(prefixed(id), signed_bytes(tx.transaction), data, 0);
}

/// A transaction whose canonical bytes stand at the start of `data` is the
/// one that is read from it.
pub proof fn lemma_transaction_at_start_complete(tx: TransactionView, data: Seq<u8>)
    requires
        data.len() < radix_pow(8),
        occurs_at(transaction_bytes(tx), data, 0),
    ensures
        transaction_at_start(data) == Some(tx),
{
    lemma_occurs_at_concat(prefixed(tx.id), signed_bytes(tx.transaction), data, 0);
    lemma_field_at_of_prefixed(tx.id, data, 0);
    let pos1 = prefixed(tx.id).len() as int;
    lemma_occurs_at_concat(
        content_bytes(tx.transaction.content),
        prefixed(tx.transaction.signature),
        data,
        pos1,
    );
    lemma_content_at_complete(tx.transaction.content, data, pos1);
    let pos2 = pos1 + content_bytes(tx.transaction.content).len();
    lemma_field_at_of_prefixed(tx.transaction.signature, data, pos2);
}

/// Reading the canonical bytes of a transaction, whatever follows them,
/// gives the transaction back.
pub proof fn lemma_transaction_round_trip(tx: TransactionView, rest: Seq<u8>)
    requires
        transaction_bytes(tx).len() + rest.len() < radix_pow(8),
    ensures
        transaction_at_start(transaction_bytes(tx) + rest) == Some(tx),
{
    let data = transaction_bytes(tx) + rest;
    assert(data.subrange(0, transaction_bytes(tx).len() as int) =~= transaction_bytes(tx));
    lemma_transaction_at_start_complete(tx, data);
}

/// Reads a content at `pos` and gives the position behind it.
fn read_content(data: &[u8], pos: usize) -> (read: Option<(TransactionContent, usize)>)
    ensures
        read is Some <==> content_at(data@, pos as int) is Some,
        read matches Some((content, next)) ==> content_at(data@, pos as int) == Some(
            (content@, next as int),
        ),
{
    let (sender_addr, pos1) = match read_bytes(data, pos) {
        Some(field) => field,
        None => { return None; },
    };
    let (sender_pubkey, pos2) = match read_bytes(data, pos1) {
        Some(field) => field,
        None => { return None; },
    };
    let (receiver_addr, pos3) = match read_bytes(data, pos2) {
        Some(field) => field,
        None => { return None; },
    };
    let amount = match read_u32(data, pos3) {
        Some(amount) => amount,
        None => { return None; },
    };
    let total = data.len();
    assert(pos3 + 4 <= total);
    let timestamp = match read_i64(data, pos3 + 4) {
        Some(timestamp) => timestamp,
        None => { return None; },
    };
    Some(
        (
            TransactionContent { sender_addr, sender_pubkey, receiver_addr, amount, timestamp },
            pos3 + 12,
        ),
    )
}

impl Transaction {
    /// Reads a transaction from its canonical bytes. Bytes that follow the
    /// transaction are ignored.
    ///
    /// Succeeds exactly where `data` begins with the canonical bytes of a
    /// transaction, and gives that transaction; fails with `SerializeError`
    /// elsewhere.
    pub fn from_bytes(data: &Vec<u8>) -> (read: Result<Transaction, CoreError>)
        ensures
            read matches Ok(tx) ==> transaction_at_start(data@) == Some(tx@) && occurs_at(
                transaction_bytes(tx@),
                data@,
                0,
            ),
            read matches Err(e) ==> e == CoreError::SerializeError && transaction_at_start(data@)
                is None && forall|tx: TransactionView|
                !occurs_at(#[trigger] transaction_bytes(tx), data@, 0),
    {
        let bytes = data.as_slice();
        let total = bytes.len();
        proof {
            lemma_radix_pow_values();
            assert(data@.len() == total);
            if transaction_at_start(data@) is Some {
                lemma_transaction_at_start_sound(data@);
            } else {
                assert forall|tx: TransactionView|
                    !occurs_at(#[trigger] transaction_bytes(tx), data@, 0) by {
                    if occurs_at(transaction_bytes(tx), data@, 0) {
                        lemma_transaction_at_start_complete(tx, data@);
                    }
                }
            }
        }
        let (id, pos1) = match read_bytes(bytes, 0) {
            Some(field) => field,
            None => { return Err(CoreError::SerializeError); },
        };
        let (content, pos2) = match read_content(bytes, pos1) {
            Some(read) => read,
            None => { return Err(CoreError::SerializeError); },
        };
        let (signature, _pos3) = match read_bytes(bytes, pos2) {
            Some(field) => field,
            None => { return Err(CoreError::SerializeError); },
        };
        Ok(Transaction { id, transaction: TransactionSigned { content, signature } })
    }
}

} // verus!
