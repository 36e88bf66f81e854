//! Wallets: a key pair and the address that belongs to it.

use vstd::prelude::*;
use crate::base58fmt::{base58_bytes, decode_address};
use crate::crypto::{check_secret_key, generate_keypair, public_key_of};
use crate::errors::CoreError;
use crate::hashing::{sha256, sha256_digest};
use crate::hexfmt::{decode_hex, hex_bytes, is_hex_text};
use crate::net::{NetKeyPair, NetKeyPairView};

verus! {

/// A key pair: the 32 bytes of the secret key and the compressed form of the
/// public key.
#[derive(Debug, Clone, PartialEq, Eq)]
pub struct KeyPair {
    pub private_key: Vec<u8>,
    pub public_key: Vec<u8>,
}

/// A key pair under its address.
#[derive(Debug, Clone, PartialEq, Eq)]
pub struct Wallet {
    pub keypair: KeyPair,
    pub address: Vec<u8>,
}

/// The mathematical value of a `KeyPair`.
pub struct KeyPairView {
    pub private_key: Seq<u8>,
    pub public_key: Seq<u8>,
}

/// The mathematical value of a `Wallet`.
pub struct WalletView {
    pub keypair: KeyPairView,
    pub address: Seq<u8>,
}

impl View for KeyPair {
    type V = KeyPairView;

    open spec fn view(&self) -> KeyPairView {
        KeyPairView { private_key: self.private_key@, public_key: self.public_key@ }
    }
}

impl View for Wallet {
    type V = WalletView;

    open spec fn view(&self) -> WalletView {
        WalletView { keypair: self.keypair@, address: self.address@ }
    }
}

/// The address of a public key: the SHA-256 of its compressed form.
pub open spec fn address_of(public_key: Seq<u8>) -> Seq<u8> {
    sha256_digest(public_key)
}

/// The wallet of a key pair: the pair under the address of its public key.
pub fn wallet_of(keypair: KeyPair) -> (wallet: Wallet)
    ensures
        wallet@.keypair == keypair@,
        wallet@.address == address_of(keypair@.public_key),
        wallet@.address.len() == 32,
{
    let address = sha256(keypair.public_key.as_slice());
    Wallet { keypair, address }
}

/// Draws a new key pair and gives its wallet.
pub fn get_new_wallet() -> (wallet: Wallet)
    ensures
        public_key_of(wallet@.keypair.private_key) == Some(wallet@.keypair.public_key),
        wallet@.address == address_of(wallet@.keypair.public_key),
        wallet@.keypair.private_key.len() == 32,
        wallet@.keypair.public_key.len() == 33,
        wallet@.address.len() == 32,
{
    let (private_key, public_key) = generate_keypair();
    wallet_of(KeyPair { private_key, public_key })
}

/// Whether a stored key pair and an address text make a wallet: the keys are
/// hexadecimal, the private key is a secret key, the address is Base58.
pub open spec fn is_stored_wallet(address: Seq<char>, keypair: NetKeyPairView) -> bool {
    &&& is_hex_text(keypair.private_key)
    &&& public_key_of(hex_bytes(keypair.private_key)) is Some
    &&& is_hex_text(keypair.public_key)
    &&& base58_bytes(address) is Some
}

/// Rebuilds the wallet for `address` from the key pair stored under it.
///
/// Fails with `SerializeError` where a key is not hexadecimal or the address
/// is not Base58, and with `CryptoError` where the private key is no secret
/// key; of several faults the first in the order private key, public key,
/// address is reported.
pub fn get_wallet(address: &String, keypair: &NetKeyPair) -> (wallet: Result<Wallet, CoreError>)
    ensures
        wallet is Ok <==> is_stored_wallet(address@, keypair@),
        wallet matches Ok(w) ==> w@ == (WalletView {
            keypair: KeyPairView {
                private_key: hex_bytes(keypair@.private_key),
                public_key: hex_bytes(keypair@.public_key),
            },
            address: base58_bytes(address@).unwrap(),
        }),
        wallet matches Err(e) ==> e == (if is_hex_text(keypair@.private_key) && public_key_of(
            hex_bytes(keypair@.private_key),
        ) is None {
            CoreError::CryptoError
        } else {
            CoreError::SerializeError
        }),
{
    let private_key = match decode_hex(keypair.private_key.as_str()) {
        Ok(bytes) => bytes,
        Err(e) => { return Err(e); },
    };
    match check_secret_key(private_key.as_slice()) {
        Ok(()) => {},
        Err(e) => { return Err(CoreError::from(e)); },
    }
    let public_key = match decode_hex(keypair.public_key.as_str()) {
        Ok(bytes) => bytes,
        Err(e) => { return Err(e); },
    };
    let address = match decode_address(address.as_str()) {
        Ok(bytes) => bytes,
        Err(e) => { return Err(e); },
    };
    Ok(Wallet { keypair: KeyPair { private_key, public_key }, address })
}

} // verus!
