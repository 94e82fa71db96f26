//! The bet record: one wager's full lifecycle state, the outcome rule, and
//! the fixed-point profit computation.

use vstd::prelude::*;

use crate::MULTIPLIER_PRECISION;
use crate::errors::OptnError;

verus! {

/// Side of the wager.  `Buy` wins if the settled price ends strictly above
/// the entry price; `Sell` wins if it ends strictly below.
#[derive(Clone, Copy, Debug, PartialEq, Eq, Structural)]
pub enum Direction {
    Buy,
    Sell,
}

/// Lifecycle state of a bet.  `Pending` is the initial state; settlement
/// moves it to `Won` or `Lose`, both terminal for accounting purposes.
/// `Canceled` is declared for settlements whose price cannot be obtained,
/// but no operation of this design reaches it.
#[derive(Clone, Copy, Debug, PartialEq, Eq, Structural)]
pub enum Status {
    Pending,
    Won,
    Lose,
    Canceled,
}

/// One wager's record.  Identities are the record keys assigned by the
/// surrounding runtime, carried here as plain values.
#[derive(Clone, Copy, Debug, PartialEq, Eq)]
pub struct Bet {
    /// Key of the market this bet was placed on.
    pub market: u64,
    /// Key of the staking user, who alone may close the bet.
    pub authority: u64,
    /// The stake, moved into the vault at creation.
    pub wagered_amount: u64,
    /// Potential profit if won, computed at creation and reserved against
    /// the house's liquidity.
    pub profit_amount: u64,
    /// Amount owed at close: zero until resolved, stake plus profit if won.
    pub final_payout: u64,
    /// Oracle price captured at creation.
    pub entry_price: u64,
    /// Price supplied at settlement; zero until resolved.
    pub settled_price: u64,
    pub direction: Direction,
    pub status: Status,
    pub created_at: i64,
    /// `created_at` plus the requested duration; settlement is forbidden
    /// before this instant.
    pub expires_at: i64,
    /// Absent until resolved.
    pub settled_at: Option<i64>,
}

/// Potential profit of a stake under the fixed-point multiplier, floored:
/// `stake * multiplier / 10^9`.
pub open spec fn profit_of(stake: u64, multiplier: u64) -> int {
    (stake * multiplier) / (MULTIPLIER_PRECISION as int)
}

/// The outcome rule: `Buy` wins iff the settled price is strictly above the
/// entry price, `Sell` iff strictly below.  Equality never wins.
pub open spec fn wins(direction: Direction, entry_price: u64, settled_price: u64) -> bool {
    match direction {
        Direction::Buy => settled_price > entry_price,
        Direction::Sell => entry_price > settled_price,
    }
}

/// A tie — settled price equal to entry price — resolves as a loss for the
/// bettor under either direction.
pub proof fn lemma_tie_never_wins(direction: Direction, price: u64)
    ensures
        !wins(direction, price, price),
{
}

/// Computes the potential profit of a stake: `floor(stake * multiplier /
/// 10^9)`, using a wide intermediate.  Fails with an overflow error if the
/// result does not fit the stake's width.
pub fn compute_profit(stake: u64, multiplier: u64) -> (r: Result<u64, OptnError>)
    ensures
        r is Ok <==> profit_of(stake, multiplier) <= u64::MAX,
        r matches Ok(p) ==> p == profit_of(stake, multiplier),
        r matches Err(e) ==> e == OptnError::Overflow,
{
    proof {
        vstd::arithmetic::mul::lemma_mul_upper_bound(
            stake as int,
            u64::MAX as int,
            multiplier as int,
            u64::MAX as int,
        );
    }
    let wide: u128 = (stake as u128) * (multiplier as u128);
    let quotient: u128 = wide / MULTIPLIER_PRECISION;
    if quotient > u64::MAX as u128 {
        Err(OptnError::Overflow)
    } else {
        Ok(quotient as u64)
    }
}

/// Decides the outcome of a bet from the settled price.
pub fn compute_outcome(direction: Direction, entry_price: u64, settled_price: u64) -> (r: bool)
    ensures
        r == wins(direction, entry_price, settled_price),
{
    match direction {
        Direction::Buy => settled_price > entry_price,
        Direction::Sell => entry_price > settled_price,
    }
}

} // verus!
