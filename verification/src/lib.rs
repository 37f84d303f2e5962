//! A small proof-of-work ledger.
//!
//! The ledger keeps an append-only chain of blocks, each sealing the batch of
//! transactions that were pending when it was formed.  A block is bound to its
//! predecessor by a SHA-256 hash and by a numeric proof that satisfies a fixed
//! leading-zero difficulty rule.  Peers exchange whole chains; the longest
//! valid chain a peer offers replaces the local one.

pub mod canon;
pub mod consensus;
pub mod digest;
pub mod ledger;
pub mod peers;
pub mod pow;
pub mod text;

pub use ledger::{Block, BlockChain, Transaction};
