//! A two-party token-swap escrow: an initializer locks a deposit under an
//! authority derived from the program's identity, and the deposit is later
//! either exchanged with a taker or handed back on cancel.

pub mod authority;
pub mod key;
pub mod ledger;
pub mod escrow;
pub mod laws;
