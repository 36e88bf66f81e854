//! A minimal single-writer ledger: transactions with canonical bytes, Schnorr
//! signatures and derived ids; Merkle roots over ordered ids; blocks sealed
//! by proof of work and linked into a chain; and the decisions of a node
//! that takes in, mines and validates them.
//!
//! The modules, leaves first:
//!
//! - `errors`: the error types.
//! - `hashing`, `base58fmt`, `crypto`, `utils`: SHA-256, Base58 text,
//!   signatures and chance, the clock. Each calls into an outside crate
//!   through functions whose contracts are trusted, not proved; everything
//!   else is proved against them.
//! - `hexfmt`: hexadecimal text.
//! - `codec`: the canonical encoding of integers and byte strings.
//! - `transactions`: transactions, what is signed and hashed, creation and
//!   validation.
//! - `merkle`: the Merkle root of a list of ids.
//! - `pow`: the proof-of-work search and its check.
//! - `blocks`: headers and blocks, assembly on the tip of a chain.
//! - `net`: the text shapes of transactions, blocks and wallets, and a peer.
//! - `blockchain`: the chain and its tip.
//! - `wallet`, `local`: wallets and what the node does for its own user.
//! - `handlers`: the state of a node and its decisions.

pub mod base58fmt;
pub mod blockchain;
pub mod blocks;
pub mod codec;
pub mod crypto;
pub mod errors;
pub mod handlers;
pub mod hashing;
pub mod hexfmt;
pub mod local;
pub mod merkle;
pub mod net;
pub mod pow;
pub mod transactions;
pub mod utils;
pub mod wallet;
