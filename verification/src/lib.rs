//! A verified ledger engine: applies a stream of financial events
//! (deposit, withdrawal, dispute, resolve, chargeback) to per-client
//! accounts, tracking available, held and total balances and the
//! locked flag, with exact fixed-point decimal arithmetic.

pub mod account;
pub mod ledger;
pub mod laws;
pub mod render;
pub mod config;
