//! The market record: a per-price-feed sub-ledger scoped to one house,
//! mirroring the house's per-bet aggregates for that feed.

use vstd::prelude::*;

verus! {

/// A feed-bound sub-ledger under a house.  Identities are the record keys
/// assigned by the surrounding runtime, carried here as plain values.
#[derive(Clone, Debug, PartialEq, Eq)]
pub struct Market {
    /// Key of the owning house.
    pub house: u64,
    /// Liquidity reserved for this market's active bets' potential profit.
    pub reserved_liquidity: u64,
    /// Total stake across this market's active bets.
    pub total_wagered: u64,
    pub active_bets: u32,
    pub settled_bets: u32,
    pub canceled_bets: u32,
    /// Magnitude of the feed's price exponent, captured once at creation
    /// from the oracle.
    pub decimals: u8,
    /// Key of the oracle account this market reads prices from.
    pub price_update: u64,
    /// Identifier of the price feed, as the oracle names it.
    pub feed_id: String,
}

/// The market record as creation leaves it: identity and feed stored,
/// every counter zero.
pub open spec fn new_market(house: u64, price_update: u64, feed_id: String, decimals: u8) -> Market {
    Market {
        house,
        reserved_liquidity: 0,
        total_wagered: 0,
        active_bets: 0,
        settled_bets: 0,
        canceled_bets: 0,
        decimals,
        price_update,
        feed_id,
    }
}

/// Creates a market bound to one price feed of a house.  The feed's decimal
/// exponent is captured by the caller from one oracle query at creation
/// time; an unavailable or stale feed is the oracle boundary's refusal and
/// never reaches this constructor.
pub fn create_market(house: u64, price_update: u64, feed_id: String, decimals: u8) -> (m: Market)
    ensures
        m == new_market(house, price_update, feed_id, decimals),
{
    Market {
        house,
        reserved_liquidity: 0,
        total_wagered: 0,
        active_bets: 0,
        settled_bets: 0,
        canceled_bets: 0,
        decimals,
        price_update,
        feed_id,
    }
}

} // verus!
