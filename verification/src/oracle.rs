//! The price-oracle boundary: the shape of an oracle answer and the checks
//! the core applies to one.
//!
//! Fetching the answer — resolving a feed identifier and reading the
//! feed's latest update — is the oracle client's work outside this crate.
//! What the core does with the answer is verified here: the recency rule
//! that rejects a stale update, and the conversion of the signed oracle
//! price into the unsigned width the bet records carry.

use vstd::prelude::*;

verus! {

/// One oracle answer for a feed: the price, the exponent scaling it, and
/// the instant it was published.
#[derive(Clone, Copy, Debug, PartialEq, Eq)]
pub struct PriceData {
    /// The price, signed as the oracle reports it.
    pub price: i64,
    /// Decimal exponent of the price.
    pub exponent: i32,
    /// When the feed last updated, in seconds.
    pub updated_at: i64,
}

/// The recency rule: an update is fresh if it is no older than
/// `maximum_age` seconds at the reference instant `now`.
pub open spec fn fresh(updated_at: i64, now: i64, maximum_age: u64) -> bool {
    updated_at >= now - maximum_age
}

/// Checks an oracle answer against the recency rule; a stale answer must
/// be rejected by the caller before any price leaves it.
pub fn validate_price_age(price: &PriceData, now: i64, maximum_age: u64) -> (r: bool)
    ensures
        r == fresh(price.updated_at, now, maximum_age),
{
    (price.updated_at as i128) >= (now as i128) - (maximum_age as i128)
}

/// Converts the oracle's signed price into the unsigned width the bet
/// records carry: exactly the nonnegative prices convert.
pub fn price_magnitude(price: &PriceData) -> (r: Option<u64>)
    ensures
        r is Some <==> price.price >= 0,
        r matches Some(v) ==> v == price.price,
{
    if price.price >= 0 {
        Some(price.price as u64)
    } else {
        None
    }
}

/// Magnitude of the feed's decimal exponent, as market creation captures
/// it: exactly the exponents whose magnitude fits a byte convert.
pub fn exponent_magnitude(price: &PriceData) -> (r: Option<u8>)
    ensures
        r is Some <==> -255 <= price.exponent <= 255,
        r matches Some(v) ==> v == (if price.exponent >= 0 {
            price.exponent as int
        } else {
            -(price.exponent as int)
        }),
{
    let magnitude: i64 = if price.exponent >= 0 {
        price.exponent as i64
    } else {
        -(price.exponent as i64)
    };
    if magnitude <= 255 {
        Some(magnitude as u8)
    } else {
        None
    }
}

} // verus!
