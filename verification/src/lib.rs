//! Verified account rules and cross-program invocations of two Solana
//! programs: a lamport vault and a token escrow.

pub mod address;
pub mod pda;
pub mod instruction;
pub mod error;
pub mod account;
pub mod vault;
pub mod escrow;
pub mod vault_laws;
pub mod escrow_laws;
