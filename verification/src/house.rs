//! The house record — the pooled-liquidity operator ledger — and the
//! operations that touch it alone: creation, limit updates, liquidity
//! deposit and withdrawal, and profit claiming.

use vstd::prelude::*;

use crate::errors::OptnError;

verus! {

/// The pooled-liquidity operator ledger backing all bets.  Identities are
/// the record keys assigned by the surrounding runtime, carried here as
/// plain values.
#[derive(Clone, Copy, Debug, PartialEq, Eq)]
pub struct House {
    /// Authorized to create markets, update limits, and settle bets.
    pub admin: u64,
    /// Authorized to withdraw liquidity and claim profit.
    pub beneficiary: u64,
    /// Total amount ever deposited into the liquidity pool.
    pub total_deposits: u64,
    /// Total amount ever withdrawn from the liquidity pool.
    pub total_withdrawals: u64,
    /// Total funds backing payouts.
    pub liquidity: u64,
    /// Portion of `liquidity` earmarked for active bets' potential profit.
    pub reserved_liquidity: u64,
    /// Total stake across currently active bets.
    pub total_wagered: u64,
    /// Accrued house profit; no operation of this design feeds it, so the
    /// claim path below is carried as declared but is never owed success.
    pub total_profit: u64,
    /// Profits already paid out to the beneficiary.
    pub claimed_profits: u64,
    pub active_bets: u32,
    pub settled_bets: u32,
    pub canceled_bets: u32,
    /// Least stake a bet may carry; positive.
    pub min_wager: u64,
    /// Greatest stake a bet may carry; strictly above `min_wager`.
    pub max_wager: u64,
    /// Least requested duration, in seconds; positive.
    pub min_expiration: i64,
    /// Greatest requested duration; strictly above `min_expiration`.
    pub max_expiration: i64,
    /// Fixed-point payout ratio with nine decimal places of precision.
    pub multiplier: u64,
    /// Recognized fee field; carried through but currently unused.
    pub fee_basis_points: u16,
    /// Salt for the deterministic derivation of the vault authority.
    pub authority_bump: u8,
}

impl House {
    /// Policy limits are sound: positive lower bounds, upper bounds
    /// strictly above them.  Established at creation and preserved by
    /// every operation.
    pub open spec fn wf(self) -> bool {
        &&& 0 < self.min_wager < self.max_wager
        &&& 0 < self.min_expiration < self.max_expiration
    }
}

/// Which policy violation, if any, a pair of wager limits carries.
pub open spec fn wager_limits_err(min_wager: u64, max_wager: u64) -> Option<OptnError> {
    if min_wager == 0 {
        Some(OptnError::MinWager)
    } else if max_wager <= min_wager {
        Some(OptnError::MaxWager)
    } else {
        None
    }
}

/// Which policy violation, if any, a pair of expiration limits carries.
pub open spec fn expiration_limits_err(min_expiration: i64, max_expiration: i64) -> Option<
    OptnError,
> {
    if min_expiration <= 0 {
        Some(OptnError::MinExpiration)
    } else if max_expiration <= min_expiration {
        Some(OptnError::MaxExpiration)
    } else {
        None
    }
}

/// Why house creation is refused, if it is: wager limits are validated
/// first, then expiration limits.
pub open spec fn create_house_err(
    min_wager: u64,
    max_wager: u64,
    min_expiration: i64,
    max_expiration: i64,
) -> Option<OptnError> {
    if wager_limits_err(min_wager, max_wager) is Some {
        wager_limits_err(min_wager, max_wager)
    } else {
        expiration_limits_err(min_expiration, max_expiration)
    }
}

/// The house record as creation leaves it: policy stored, every balance
/// and counter zero.
pub open spec fn new_house(
    admin: u64,
    beneficiary: u64,
    min_wager: u64,
    max_wager: u64,
    min_expiration: i64,
    max_expiration: i64,
    multiplier: u64,
    fee_basis_points: u16,
    authority_bump: u8,
) -> House {
    House {
        admin,
        beneficiary,
        total_deposits: 0,
        total_withdrawals: 0,
        liquidity: 0,
        reserved_liquidity: 0,
        total_wagered: 0,
        total_profit: 0,
        claimed_profits: 0,
        active_bets: 0,
        settled_bets: 0,
        canceled_bets: 0,
        min_wager,
        max_wager,
        min_expiration,
        max_expiration,
        multiplier,
        fee_basis_points,
        authority_bump,
    }
}

/// Creates a house: validates the policy limits and initializes every
/// balance and counter to zero.
pub fn create_house(
    admin: u64,
    beneficiary: u64,
    min_wager: u64,
    max_wager: u64,
    min_expiration: i64,
    max_expiration: i64,
    multiplier: u64,
    fee_basis_points: u16,
    authority_bump: u8,
) -> (r: Result<House, OptnError>)
    ensures
        r is Ok <==> create_house_err(min_wager, max_wager, min_expiration, max_expiration)
            is None,
        r matches Err(e) ==> Some(e) == create_house_err(
            min_wager,
            max_wager,
            min_expiration,
            max_expiration,
        ),
        r matches Ok(h) ==> h == new_house(
            admin,
            beneficiary,
            min_wager,
            max_wager,
            min_expiration,
            max_expiration,
            multiplier,
            fee_basis_points,
            authority_bump,
        ) && h.wf(),
{
    if min_wager == 0 {
        return Err(OptnError::MinWager);
    }
    if max_wager <= min_wager {
        return Err(OptnError::MaxWager);
    }
    if min_expiration <= 0 {
        return Err(OptnError::MinExpiration);
    }
    if max_expiration <= min_expiration {
        return Err(OptnError::MaxExpiration);
    }
    Ok(
        House {
            admin,
            beneficiary,
            total_deposits: 0,
            total_withdrawals: 0,
            liquidity: 0,
            reserved_liquidity: 0,
            total_wagered: 0,
            total_profit: 0,
            claimed_profits: 0,
            active_bets: 0,
            settled_bets: 0,
            canceled_bets: 0,
            min_wager,
            max_wager,
            min_expiration,
            max_expiration,
            multiplier,
            fee_basis_points,
            authority_bump,
        },
    )
}

/// Changes the stake bounds under the same validation as creation.  Existing
/// bets are not revisited.
pub fn update_wager_limits(house: &mut House, min_wager: u64, max_wager: u64) -> (r: Result<
    (),
    OptnError,
>)
    ensures
        r is Ok <==> wager_limits_err(min_wager, max_wager) is None,
        r matches Err(e) ==> Some(e) == wager_limits_err(min_wager, max_wager) && *final(house)
            == *old(house),
        r is Ok ==> *final(house) == (House { min_wager, max_wager, ..*old(house) }),
        old(house).wf() ==> final(house).wf(),
{
    if min_wager == 0 {
        return Err(OptnError::MinWager);
    }
    if max_wager <= min_wager {
        return Err(OptnError::MaxWager);
    }
    house.min_wager = min_wager;
    house.max_wager = max_wager;
    Ok(())
}

/// Why a deposit is refused, if it is: only an aggregate that would leave
/// the integer range.
pub open spec fn deposit_err(h: House, lamports: u64) -> Option<OptnError> {
    if h.liquidity + lamports > u64::MAX || h.total_deposits + lamports > u64::MAX {
        Some(OptnError::Overflow)
    } else {
        None
    }
}

/// Adds deposited funds to the pool: `liquidity` and `total_deposits` both
/// grow by the amount.  Any caller may deposit; the matching vault transfer
/// is the surrounding runtime's step.
pub fn deposit_liquidity(house: &mut House, lamports: u64) -> (r: Result<(), OptnError>)
    ensures
        r is Ok <==> deposit_err(*old(house), lamports) is None,
        r matches Err(e) ==> Some(e) == deposit_err(*old(house), lamports) && *final(house)
            == *old(house),
        r is Ok ==> *final(house) == (House {
            liquidity: (old(house).liquidity + lamports) as u64,
            total_deposits: (old(house).total_deposits + lamports) as u64,
            ..*old(house)
        }),
{
    if lamports > u64::MAX - house.liquidity || lamports > u64::MAX - house.total_deposits {
        return Err(OptnError::Overflow);
    }
    house.liquidity = house.liquidity + lamports;
    house.total_deposits = house.total_deposits + lamports;
    Ok(())
}

/// Why a withdrawal is refused, if it is: first the capacity rule — only
/// liquidity not reserved for active bets may leave — then an aggregate
/// that would leave the integer range.
pub open spec fn withdraw_err(h: House, lamports: u64) -> Option<OptnError> {
    if h.liquidity - h.reserved_liquidity < lamports {
        Some(OptnError::InsufficientLiquidity)
    } else if h.total_withdrawals + lamports > u64::MAX {
        Some(OptnError::Overflow)
    } else {
        None
    }
}

/// Withdraws beneficiary funds from the pool: allowed exactly up to
/// `liquidity - reserved_liquidity`, so reserved cover is never touched.
pub fn withdraw_liquidity(house: &mut House, lamports: u64) -> (r: Result<(), OptnError>)
    requires
        old(house).liquidity >= old(house).reserved_liquidity,
    ensures
        r is Ok <==> withdraw_err(*old(house), lamports) is None,
        r matches Err(e) ==> Some(e) == withdraw_err(*old(house), lamports) && *final(house)
            == *old(house),
        r is Ok ==> *final(house) == (House {
            liquidity: (old(house).liquidity - lamports) as u64,
            total_withdrawals: (old(house).total_withdrawals + lamports) as u64,
            ..*old(house)
        }),
        final(house).liquidity >= final(house).reserved_liquidity,
{
    let available_liquidity = house.liquidity - house.reserved_liquidity;
    if available_liquidity < lamports {
        return Err(OptnError::InsufficientLiquidity);
    }
    if lamports > u64::MAX - house.total_withdrawals {
        return Err(OptnError::Overflow);
    }
    house.liquidity = house.liquidity - lamports;
    house.total_withdrawals = house.total_withdrawals + lamports;
    Ok(())
}

/// Why a profit claim is refused, if it is: nothing accrued, or an
/// aggregate that would leave the integer range.
pub open spec fn claim_profit_err(h: House) -> Option<OptnError> {
    if h.total_profit == 0 {
        Some(OptnError::NoProfit)
    } else if h.claimed_profits + h.total_profit > u64::MAX {
        Some(OptnError::Overflow)
    } else {
        None
    }
}

/// Claims the entire accrued profit for the beneficiary: moves
/// `total_profit` into `claimed_profits`, zeroes it, and returns the amount
/// the vault owes the beneficiary.
pub fn claim_profit(house: &mut House) -> (r: Result<u64, OptnError>)
    ensures
        r is Ok <==> claim_profit_err(*old(house)) is None,
        r matches Err(e) ==> Some(e) == claim_profit_err(*old(house)) && *final(house) == *old(
            house,
        ),
        r matches Ok(amount) ==> amount == old(house).total_profit && *final(house) == (House {
            total_profit: 0,
            claimed_profits: (old(house).claimed_profits + old(house).total_profit) as u64,
            ..*old(house)
        }),
{
    if house.total_profit == 0 {
        return Err(OptnError::NoProfit);
    }
    if house.total_profit > u64::MAX - house.claimed_profits {
        return Err(OptnError::Overflow);
    }
    let amount = house.total_profit;
    house.claimed_profits = house.claimed_profits + house.total_profit;
    house.total_profit = 0;
    Ok(amount)
}

/// Withdrawal boundary: exactly the free margin `liquidity -
/// reserved_liquidity` may leave the pool, while one unit more is refused
/// as `InsufficientLiquidity`.
pub proof fn lemma_withdraw_boundary(h: House)
    requires
        h.liquidity >= h.reserved_liquidity,
    ensures
        withdraw_err(h, (h.liquidity - h.reserved_liquidity) as u64) != Some(
            OptnError::InsufficientLiquidity,
        ),
        h.liquidity - h.reserved_liquidity < u64::MAX ==> withdraw_err(
            h,
            (h.liquidity - h.reserved_liquidity + 1) as u64,
        ) == Some(OptnError::InsufficientLiquidity),
{
}

} // verus!
