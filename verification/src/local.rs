//! What the node does for its own user: it makes and shows wallets and
//! creates the user's transactions.

use vstd::prelude::*;
use crate::base58fmt::{base58_bytes, base58_text, decode_address, encode_address};
use crate::crypto::public_key_of;
use crate::errors::ServerError;
use crate::hexfmt::{hex_bytes, hex_text, to_hex};
use crate::net::{
    addresses_fit, net_transaction_of, NetKeyPair, NetKeyPairView, NetTransaction, NetWallet, NetWalletView,
};
use crate::transactions::{
    creation, decodable, decoded, is_creation_outcome, signature_valid, TransactionContentView,
};
use crate::wallet::{address_of, is_stored_wallet, Wallet, WalletView};

verus! {

/// The text form of a wallet: the keys as hexadecimal text, the address as
/// Base58 text.
pub open spec fn wallet_text_of(wallet: WalletView) -> NetWalletView {
    NetWalletView {
        keypair: NetKeyPairView {
            private_key: hex_text(wallet.keypair.private_key),
            public_key: hex_text(wallet.keypair.public_key),
        },
        address: base58_text(wallet.address),
    }
}

/// Whether a wallet holds a secret key, its public key and the address of
/// that public key.
pub open spec fn is_sound_wallet(wallet: WalletView) -> bool {
    &&& public_key_of(wallet.keypair.private_key) == Some(wallet.keypair.public_key)
    &&& wallet.address == address_of(wallet.keypair.public_key)
}

/// Whether `net` is the text form of some sound wallet.
pub open spec fn is_sound_wallet_text(net: NetWalletView) -> bool {
    exists|wallet: WalletView| #[trigger] is_sound_wallet(wallet) && net == wallet_text_of(wallet)
}

impl NetWallet {
    /// Writes a wallet as text.
    pub fn from_wallet(wallet: &Wallet) -> (net: NetWallet)
        ensures
            net@ == wallet_text_of(wallet@),
    {
        NetWallet {
            keypair: NetKeyPair {
                private_key: to_hex(wallet.keypair.private_key.as_slice()),
                public_key: to_hex(wallet.keypair.public_key.as_slice()),
            },
            address: encode_address(wallet.address.as_slice()),
        }
    }
}

/// Makes a new wallet and gives it as text, to be shown and stored.
pub fn get_new_wallet() -> (net: NetWallet)
    ensures
        is_sound_wallet_text(net@),
{
    let wallet = crate::wallet::get_new_wallet();
    assert(is_sound_wallet(wallet@));
    NetWallet::from_wallet(&wallet)
}

/// Shows the wallet for `address` with the key pair stored under it: the
/// keys in lower-case hexadecimal text, the address as it was asked for.
///
/// Fails with `ServerError::CoreError` where the stored pair and the
/// address make no wallet.
pub fn get_wallet(address: String, keypair: &NetKeyPair) -> (net: Result<NetWallet, ServerError>)
    ensures
        net is Ok <==> is_stored_wallet(address@, keypair@),
        net matches Ok(shown) ==> shown@ == (NetWalletView {
            keypair: NetKeyPairView {
                private_key: hex_text(hex_bytes(keypair@.private_key)),
                public_key: hex_text(hex_bytes(keypair@.public_key)),
            },
            address: address@,
        }),
        net matches Err(e) ==> e == ServerError::CoreError,
{
    let wallet = match crate::wallet::get_wallet(&address, keypair) {
        Ok(wallet) => wallet,
        Err(e) => { return Err(ServerError::from(e)); },
    };
    Ok(
        NetWallet {
            keypair: NetKeyPair {
                private_key: to_hex(wallet.keypair.private_key.as_slice()),
                public_key: to_hex(wallet.keypair.public_key.as_slice()),
            },
            address,
        },
    )
}

/// Whether `outcome` is what the creation of the user's transaction with
/// `content` gives: the transaction as text, which is valid where the
/// private key belongs to the sender's public key, or
/// `ServerError::CoreError` where the creation fails.
pub open spec fn is_local_outcome(
    outcome: Result<NetTransaction, ServerError>,
    private_key: Seq<u8>,
    content: TransactionContentView,
) -> bool {
    match outcome {
        Ok(net) => {
            &&& creation(private_key, content) matches Ok(tx)
            &&& net@ == net_transaction_of(tx)
            &&& public_key_of(private_key) == Some(content.sender_pubkey) ==> signature_valid(
                tx.transaction,
            )
            &&& addresses_fit(net@) ==> decodable(net@) && decoded(net@) == tx
        },
        Err(e) => creation(private_key, content) is Err && e == ServerError::CoreError,
    }
}

/// Creates the user's transaction: the sender's wallet is rebuilt from the
/// key pair stored under the sender's address, and the transaction is
/// signed with it and stamped with the current time.
///
/// Fails with `ServerError::CoreError` where the stored pair and the
/// sender's address make no wallet, and with `SerializeError` where the
/// receiver's address is not Base58; succeeds else.
pub fn post_transaction(
    keypair: &NetKeyPair,
    sender_addr: &String,
    receiver_addr: &String,
    amount: u32,
) -> (created: Result<NetTransaction, ServerError>)
    ensures
        created is Ok <==> is_stored_wallet(sender_addr@, keypair@) && base58_bytes(receiver_addr@)
            is Some,
        !is_stored_wallet(sender_addr@, keypair@) ==> (created matches Err(e) && e
            == ServerError::CoreError),
        is_stored_wallet(sender_addr@, keypair@) && base58_bytes(receiver_addr@) is None ==> (
        created matches Err(e) && e == ServerError::SerializeError),
        is_stored_wallet(sender_addr@, keypair@) && base58_bytes(receiver_addr@) is Some
            ==> exists|timestamp: i64|
            is_local_outcome(
                created,
                hex_bytes(keypair@.private_key),
                TransactionContentView {
                    sender_addr: base58_bytes(sender_addr@).unwrap(),
                    sender_pubkey: hex_bytes(keypair@.public_key),
                    receiver_addr: base58_bytes(receiver_addr@).unwrap(),
                    amount,
                    timestamp,
                },
            ),
{
    let wallet = match crate::wallet::get_wallet(sender_addr, keypair) {
        Ok(wallet) => wallet,
        Err(e) => { return Err(ServerError::from(e)); },
    };
    let receiver = match decode_address(receiver_addr.as_str()) {
        Ok(bytes) => bytes,
        Err(_) => { return Err(ServerError::SerializeError); },
    };
    let ghost key = wallet.keypair.private_key@;
    let ghost public_key = wallet.keypair.public_key@;
    let ghost sender = wallet.address@;
    let ghost receiver_bytes = receiver@;
    let made = crate::transactions::new(
        wallet.keypair.private_key.as_slice(),
        wallet.keypair.public_key,
        wallet.address,
        receiver,
        amount,
    );
    let created = match made {
        Ok(net) => Ok(net),
        Err(e) => Err(ServerError::from(e)),
    };
    proof {
        let timestamp = choose|timestamp: i64|
            is_creation_outcome(
                made,
                key,
                TransactionContentView {
                    sender_addr: sender,
                    sender_pubkey: public_key,
                    receiver_addr: receiver_bytes,
                    amount,
                    timestamp,
                },
            );
        assert(is_local_outcome(
            created,
            hex_bytes(keypair@.private_key),
            TransactionContentView {
                sender_addr: base58_bytes(sender_addr@).unwrap(),
                sender_pubkey: hex_bytes(keypair@.public_key),
                receiver_addr: base58_bytes(receiver_addr@).unwrap(),
                amount,
                timestamp,
            },
        ));
    }
    created
}

} // verus!
