//! A transaction post-condition guard: checks that a signer's native balance
//! and a list of its token accounts hold at least the declared amounts.
pub mod account;
pub mod engine;
pub mod error;
pub mod laws;
