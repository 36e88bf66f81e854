//! The two error types of the ledger and what the errors of the codecs and of
//! the signature scheme become in them.

use vstd::prelude::*;

verus! {

/// Why an operation of the core failed.
#[derive(Debug, Clone, Copy, PartialEq, Eq, Structural)]
pub enum CoreError {
    /// Storage could not be read or written.
    IoError,
    /// A peer could not be reached.
    HttpError,
    /// The ledger store refused an operation.
    DatabaseError,
    /// Text or bytes that are not a valid encoding.
    SerializeError,
    /// A key, digest or signature that the signature scheme rejects.
    CryptoError,
    /// No wallet is known to the node.
    WalletError,
}

/// Why a request to the node was refused.
#[derive(Debug, Clone, Copy, PartialEq, Eq, Structural)]
pub enum ServerError {
    /// The core failed while the request was served.
    CoreError,
    /// The body of the request could not be read.
    BodyParseError,
    /// A field of the request is not a valid encoding.
    SerializeError,
    /// No such route.
    NotFound,
    /// The transaction's signature does not validate.
    InvalidTransaction,
    /// The block's proof of work does not validate.
    InvalidBlock,
}

/// The error of `base58::FromBase58::from_base58`.
#[verifier::external_type_specification]
#[verifier::external_body]
pub struct ExFromBase58Error(base58::FromBase58Error);

/// The error of the `secp256k1` crate.
#[verifier::external_type_specification]
#[verifier::external_body]
pub struct ExSecpError(secp256k1::Error);

impl From<base58::FromBase58Error> for CoreError {
    fn from(_e: base58::FromBase58Error) -> (err: CoreError) {
        CoreError::SerializeError
    }
}

impl vstd::std_specs::convert::FromSpecImpl<base58::FromBase58Error> for CoreError {
    open spec fn obeys_from_spec() -> bool {
        true
    }

    open spec fn from_spec(_e: base58::FromBase58Error) -> CoreError {
        CoreError::SerializeError
    }
}

impl From<secp256k1::Error> for CoreError {
    fn from(_e: secp256k1::Error) -> (err: CoreError) {
        CoreError::CryptoError
    }
}

impl vstd::std_specs::convert::FromSpecImpl<secp256k1::Error> for CoreError {
    open spec fn obeys_from_spec() -> bool {
        true
    }

    open spec fn from_spec(_e: secp256k1::Error) -> CoreError {
        CoreError::CryptoError
    }
}

impl From<CoreError> for ServerError {
    fn from(_e: CoreError) -> (err: ServerError) {
        ServerError::CoreError
    }
}

impl vstd::std_specs::convert::FromSpecImpl<CoreError> for ServerError {
    open spec fn obeys_from_spec() -> bool {
        true
    }

    open spec fn from_spec(_e: CoreError) -> ServerError {
        ServerError::CoreError
    }
}

impl From<base58::FromBase58Error> for ServerError {
    fn from(_e: base58::FromBase58Error) -> (err: ServerError) {
        ServerError::SerializeError
    }
}

impl vstd::std_specs::convert::FromSpecImpl<base58::FromBase58Error> for ServerError {
    open spec fn obeys_from_spec() -> bool {
        true
    }

    open spec fn from_spec(_e: base58::FromBase58Error) -> ServerError {
        ServerError::SerializeError
    }
}

} // verus!
