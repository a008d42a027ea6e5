//! A custody vault: each identity deposits native value into an escrow
//! account whose address is derived from that identity, and later withdraws
//! what lies above the account's storage reserve.
pub mod derivation;
pub mod key;
pub mod laws;
pub mod vault;
