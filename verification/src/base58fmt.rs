//! Base58 text, in which addresses travel: the calls into the `base58` crate.

use vstd::prelude::*;
use vstd::string::StrSliceExecFns;
use base58::{FromBase58, ToBase58};
use crate::errors::CoreError;

verus! {

/// The longest text, in characters, that is handed to the decoder.
pub const BASE58_MAX_LEN: usize = 132;

/// The Base58 text of `bytes`, as `base58::ToBase58::to_base58` gives it.
pub uninterp spec fn base58_text(bytes: Seq<u8>) -> Seq<char>;

/// What `base58::FromBase58::from_base58` makes of `text`: the decoded bytes,
/// or nothing where it refuses the text.
pub uninterp spec fn base58_decoded(text: Seq<char>) -> Option<Seq<u8>>;

/// The address that a text stands for: what the decoder makes of a text of
/// at most `BASE58_MAX_LEN` characters, and nothing for a longer one.
pub open spec fn base58_bytes(text: Seq<char>) -> Option<Seq<u8>> {
    if text.len() <= BASE58_MAX_LEN {
        base58_decoded(text)
    } else {
        None
    }
}

/// Calls `to_base58` on `bytes`.
///
/// Trusted: the result depends on the bytes alone. A text of at most 132
/// characters is decoded back to the bytes it was made from: encoder and
/// decoder write and read the same number in base 58, one `1` for each
/// leading zero byte, and up to that length the number and the zeros fit the
/// decoder's buffer.
#[verifier::external_body]
pub(crate) fn to_base58(bytes: &[u8]) -> (text: String)
    ensures
        text@ == base58_text(bytes@),
        text@.len() <= BASE58_MAX_LEN ==> base58_decoded(text@) == Some(bytes@),
{
    bytes.to_base58()
}

/// Calls `from_base58` on `text`.
///
/// Trusted: the outcome depends on the text alone. The decoder works in a
/// buffer of 132 bytes and indexes out of it on longer texts that begin with
/// many `1`s, so longer texts are kept from it.
#[verifier::external_body]
pub(crate) fn from_base58(text: &str) -> (decoded: Result<Vec<u8>, base58::FromBase58Error>)
    requires
        text@.len() <= BASE58_MAX_LEN,
    ensures
        decoded is Ok <==> base58_decoded(text@) is Some,
        decoded matches Ok(bytes) ==> base58_decoded(text@) == Some(bytes@),
{
    text.from_base58()
}

/// Decodes an address from its Base58 text.
///
/// A text of more than `BASE58_MAX_LEN` characters is refused without being
/// decoded.
pub fn decode_address(text: &str) -> (address: Result<Vec<u8>, CoreError>)
    ensures
        address is Ok <==> base58_bytes(text@) is Some,
        address matches Ok(bytes) ==> base58_bytes(text@) == Some(bytes@),
        address matches Err(e) ==> e == CoreError::SerializeError,
{
    if text.unicode_len() > BASE58_MAX_LEN {
        return Err(CoreError::SerializeError);
    }
    match from_base58(text) {
        Ok(bytes) => Ok(bytes),
        Err(e) => Err(CoreError::from(e)),
    }
}

/// Writes an address as Base58 text. Where the text has at most
/// `BASE58_MAX_LEN` characters, it stands for the address again.
pub fn encode_address(bytes: &[u8]) -> (text: String)
    ensures
        text@ == base58_text(bytes@),
        text@.len() <= BASE58_MAX_LEN ==> base58_bytes(text@) == Some(bytes@),
{
    to_base58(bytes)
}

} // verus!
