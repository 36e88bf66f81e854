//! Schnorr signatures over secp256k1 and the node's sources of chance: the
//! calls into the `secp256k1` and `rand` crates.
//!
//! Keys and signatures cross this boundary as bytes: a secret key as its 32
//! bytes, a public key as the 33 bytes of its compressed form, a signature as
//! its 64 bytes.

use vstd::prelude::*;

verus! {

/// Length in bytes of a secret key.
pub const SECRET_KEY_LEN: usize = 32;

/// Length in bytes of a compressed public key.
pub const PUBLIC_KEY_LEN: usize = 33;

/// Length in bytes of a signature.
pub const SIGNATURE_LEN: usize = 64;

/// The compressed public key of `secret_key`, as
/// `secp256k1::PublicKey::from_secret_key` derives it, or nothing where the
/// bytes are no secret key.
pub uninterp spec fn public_key_of(secret_key: Seq<u8>) -> Option<Seq<u8>>;

/// The signature that `secp256k1`'s signing without auxiliary randomness
/// makes of `digest` under `secret_key`, or nothing where it refuses the
/// digest or the key.
pub uninterp spec fn schnorr_signature(digest: Seq<u8>, secret_key: Seq<u8>) -> Option<Seq<u8>>;

/// Whether `secp256k1` reads a public key from `public_key` and accepts
/// `signature` for `digest` under it.
pub uninterp spec fn schnorr_accepts(
    digest: Seq<u8>,
    signature: Seq<u8>,
    public_key: Seq<u8>,
) -> bool;

/// Signs a digest with `Secp256k1::sign_schnorr_no_aux_rand`.
///
/// Trusted: the outcome depends on the digest and the key alone. Signing
/// succeeds exactly where the digest has 32 bytes and the key is a secret
/// key. A signature has 64 bytes and is accepted for the same digest under
/// the public key of the signing key: that signatures made by the signing
/// algorithm pass verification is the correctness of BIP 340, which the
/// crate implements, and its tests sign and verify with fresh keys. The
/// crate takes it that signing with a secret key cannot fail, and would
/// abort if it did.
#[verifier::external_body]
pub(crate) fn schnorr_sign(digest: &[u8], secret_key: &[u8]) -> (signed: Result<
    Vec<u8>,
    secp256k1::Error,
>)
    ensures
        signed is Ok <==> schnorr_signature(digest@, secret_key@) is Some,
        signed is Ok <==> (digest@.len() == 32 && public_key_of(secret_key@) is Some),
        signed matches Ok(signature) ==> {
            &&& schnorr_signature(digest@, secret_key@) == Some(signature@)
            &&& signature@.len() == SIGNATURE_LEN
            &&& public_key_of(secret_key@) matches Some(public_key)
            &&& schnorr_accepts(digest@, signature@, public_key)
        },
{
    let secp = secp256k1::Secp256k1::signing_only();
    let message = secp256k1::Message::from_digest_slice(digest)?;
    let keypair = secp256k1::Keypair::from_seckey_slice(&secp, secret_key)?;
    Ok(secp.sign_schnorr_no_aux_rand(&message, &keypair).serialize().to_vec())
}

/// Checks a signature with `Secp256k1::verify_schnorr`, under the x-only
/// form of the public key that `PublicKey::from_slice` reads from
/// `public_key`.
///
/// Trusted: the outcome depends on the three byte strings alone. A digest
/// that has not 32 bytes, a signature that has not 64, and bytes that are no
/// public key are refused with the crate's error, as a signature that does
/// not fit is.
#[verifier::external_body]
pub(crate) fn schnorr_verify(digest: &[u8], signature: &[u8], public_key: &[u8]) -> (checked:
    Result<(), secp256k1::Error>)
    ensures
        checked is Ok <==> schnorr_accepts(digest@, signature@, public_key@),
        checked is Ok ==> digest@.len() == 32 && signature@.len() == SIGNATURE_LEN,
{
    let message = secp256k1::Message::from_digest_slice(digest)?;
    let signature = secp256k1::schnorr::Signature::from_slice(signature)?;
    let key = secp256k1::PublicKey::from_slice(public_key)?.x_only_public_key().0;
    secp256k1::Secp256k1::verification_only().verify_schnorr(&signature, &message, &key)
}

/// Checks a secret key with `secp256k1::SecretKey::from_slice`.
///
/// Trusted: the bytes are accepted exactly where they are a secret key, that
/// is where a public key can be derived from them.
#[verifier::external_body]
pub(crate) fn check_secret_key(secret_key: &[u8]) -> (checked: Result<(), secp256k1::Error>)
    ensures
        checked is Ok <==> public_key_of(secret_key@) is Some,
{
    secp256k1::SecretKey::from_slice(secret_key)?;
    Ok(())
}

/// Draws a key pair with `Secp256k1::generate_keypair` from the thread's
/// random number generator.
///
/// Trusted: whatever is drawn, the first part is a secret key of 32 bytes and
/// the second the compressed form, of 33 bytes, of its public key.
#[verifier::external_body]
pub(crate) fn generate_keypair() -> (keys: (Vec<u8>, Vec<u8>))
    ensures
        keys.0@.len() == SECRET_KEY_LEN,
        keys.1@.len() == PUBLIC_KEY_LEN,
        public_key_of(keys.0@) == Some(keys.1@),
{
    let secp = secp256k1::Secp256k1::signing_only();
    let (secret_key, public_key) = secp.generate_keypair(&mut rand::thread_rng());
    (secret_key.secret_bytes().to_vec(), public_key.serialize().to_vec())
}

/// Draws a nonce with `rand::Rng::gen` from the thread's random number
/// generator. Nothing is known of the number drawn.
#[verifier::external_body]
pub(crate) fn random_nonce() -> i64 {
    rand::Rng::gen::<i64>(&mut rand::thread_rng())
}

} // verus!
