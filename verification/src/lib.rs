//! A house-backed binary-options wagering ledger.
//!
//! Users stake funds on whether an asset's price will end above or below an
//! entry price at expiry; a pooled liquidity reserve backs the payouts, and an
//! administrator resolves outcomes from an externally supplied settlement
//! price.  This crate is the accounting and state-machine core: it maintains
//! the three linked record types (house, market, bet), enforces the
//! liquidity-reservation invariant, and performs the settlement arithmetic.
//!
//! The surrounding runtime — the ledger that sequences and commits operations
//! against named records, the price oracle, and the funds-custody transfer
//! primitive — is out of scope here; its results enter the library as plain
//! values (an entry price, a current time, a feed's decimal exponent), and
//! every operation of the core states exactly how it transforms the records.

use vstd::prelude::*;

pub mod bet;
pub mod engine;
pub mod errors;
pub mod events;
pub mod house;
pub mod ledger;
pub mod market;
pub mod oracle;
pub mod sums;

verus! {

/// Fixed-point scale of the payout multiplier: nine decimal places.
pub const MULTIPLIER_PRECISION: u128 = 1_000_000_000;

/// Greatest tolerated age, in seconds, of an oracle price read at bet or
/// market creation, in production deployments.
pub const PRICE_MAXIMUM_AGE: u64 = 5;

/// Greatest tolerated age of an oracle price in test and staging deployments.
pub const PRICE_MAXIMUM_AGE_STAGING: u64 = 7200;

} // verus!
