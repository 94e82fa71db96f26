//! Reason codes for rejected operations.

use vstd::prelude::*;

verus! {

/// Why an operation was refused.  Every refusal leaves all records unchanged:
/// operations either complete with their full state mutation or fail without
/// partial effects.
#[derive(Clone, Copy, Debug, PartialEq, Eq, Structural)]
pub enum OptnError {
    /// Wager amount exceeds the allowed maximum limit.
    MaxWager,
    /// Wager amount is below the allowed minimum limit.
    MinWager,
    /// Expiration time exceeds the maximum allowed limit.
    MaxExpiration,
    /// Expiration time is below the minimum allowed limit.
    MinExpiration,
    /// Insufficient available liquidity to proceed.
    InsufficientLiquidity,
    /// Bet cannot be settled because it has not yet expired.
    BetNotExpired,
    /// Bet cannot be settled again because it has already been resolved.
    BetSettled,
    /// Bet cannot be closed because its outcome is still pending.
    BetPending,
    /// No claimable profit available for the house.
    NoProfit,
    /// A payout computation or aggregate update would leave the integer
    /// range; the operation fails rather than wrap or truncate silently.
    Overflow,
}

impl OptnError {
    /// A reader's description of the refusal.
    pub fn message(&self) -> &'static str {
        match self {
            OptnError::MaxWager => "Wager amount exceeds the allowed maximum limit",
            OptnError::MinWager => "Wager amount is below the allowed minimum limit",
            OptnError::MaxExpiration => "Expiration time exceeds the maximum allowed limit",
            OptnError::MinExpiration => "Expiration time is below the minimum allowed limit",
            OptnError::InsufficientLiquidity => "Insufficient available liquidity to proceed",
            OptnError::BetNotExpired => "Bet cannot be settled because it is still active",
            OptnError::BetSettled => "Bet cannot be settled again because it has already been resolved",
            OptnError::BetPending => "Bet cannot be closed because its outcome is still pending",
            OptnError::NoProfit => "No claimable profit available for the house",
            OptnError::Overflow => "Arithmetic would leave the integer range",
        }
    }
}

} // verus!
