//! A hash time-locked escrow: value is locked under the hash of a secret and
//! a deadline. Whoever presents the secret before the deadline releases the
//! value to the receiver; after the deadline the owner takes it back.
//!
//! The crate holds the decisions of the escrow and nothing of the ledger it
//! runs on. Each operation takes the stored record, the caller, the block
//! time and what the ledger reported, and answers with the new record and the
//! transfer that has to be carried out.

#![allow(unused_imports)]

pub mod asset;
pub mod error;
pub mod escrow;
pub mod fungible;
pub mod hashing;
pub mod identity;
pub mod laws;
pub mod native;
pub mod nft;
pub mod record;
pub mod storage;
pub mod text;
pub mod timing;
pub mod transfers;
pub mod uint;
