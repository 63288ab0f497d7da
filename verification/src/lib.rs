//! A competitive-bidding ledger contract: whoever pays strictly more than the
//! current leader's stake, and beats it by at least the published minimum
//! increment, becomes the richest. The displaced leader is refunded their
//! stake in full.

pub mod codec;
pub mod convert;
pub mod laws;
pub mod state;
pub mod transition;
