//! The wagering engine: bet creation with its liquidity reservation,
//! the settlement algorithm, and the close check.
//!
//! Each operation is all-or-nothing: it either applies its full set of
//! record updates or fails with a reason code and leaves every record
//! unchanged.

use vstd::prelude::*;

use crate::bet::{Bet, Direction, Status, compute_outcome, compute_profit, profit_of, wins};
use crate::errors::OptnError;
use crate::house::House;
use crate::market::Market;

verus! {

/// Why bet creation is refused, if it is: stake bounds, duration bounds,
/// the profit computation leaving the stake's width, then the reservation
/// rule — liquidity must cover the reserved total *after* this bet's
/// profit is added, so zero free margin is permitted but never exceeded —
/// and finally any aggregate update that would leave the integer range.
pub open spec fn create_bet_err(
    h: House,
    m: Market,
    lamports: u64,
    expiration: i64,
    now: i64,
) -> Option<OptnError> {
    let profit = profit_of(lamports, h.multiplier);
    if lamports < h.min_wager {
        Some(OptnError::MinWager)
    } else if lamports > h.max_wager {
        Some(OptnError::MaxWager)
    } else if expiration < h.min_expiration {
        Some(OptnError::MinExpiration)
    } else if expiration > h.max_expiration {
        Some(OptnError::MaxExpiration)
    } else if profit > u64::MAX {
        Some(OptnError::Overflow)
    } else if h.reserved_liquidity + profit > u64::MAX {
        Some(OptnError::Overflow)
    } else if h.liquidity < h.reserved_liquidity + profit {
        Some(OptnError::InsufficientLiquidity)
    } else if m.reserved_liquidity + profit > u64::MAX || m.total_wagered + lamports > u64::MAX
        || m.active_bets + 1 > u32::MAX || h.total_wagered + lamports > u64::MAX || h.active_bets
        + 1 > u32::MAX || now + expiration > i64::MAX {
        Some(OptnError::Overflow)
    } else {
        None
    }
}

/// The bet record as creation leaves it: stake and reserved profit stored,
/// entry price captured, pending, expiring one requested duration after
/// `now`.
pub open spec fn created_bet(
    market_key: u64,
    authority: u64,
    direction: Direction,
    lamports: u64,
    profit: u64,
    entry_price: u64,
    now: i64,
    expiration: i64,
) -> Bet {
    Bet {
        market: market_key,
        authority,
        wagered_amount: lamports,
        profit_amount: profit,
        final_payout: 0,
        entry_price,
        settled_price: 0,
        direction,
        status: Status::Pending,
        created_at: now,
        expires_at: (now + expiration) as i64,
        settled_at: None,
    }
}

/// The house as a successful bet creation leaves it: this bet's potential
/// profit newly reserved, its stake counted, one more active bet.
pub open spec fn house_after_create(h: House, lamports: u64, profit: u64) -> House {
    House {
        reserved_liquidity: (h.reserved_liquidity + profit) as u64,
        total_wagered: (h.total_wagered + lamports) as u64,
        active_bets: (h.active_bets + 1) as u32,
        ..h
    }
}

/// The market as a successful bet creation leaves it: the same aggregate
/// deltas as the house, scoped to this feed.
pub open spec fn market_after_create(m: Market, lamports: u64, profit: u64) -> Market {
    Market {
        reserved_liquidity: (m.reserved_liquidity + profit) as u64,
        total_wagered: (m.total_wagered + lamports) as u64,
        active_bets: (m.active_bets + 1) as u32,
        ..m
    }
}

/// Creates a bet: validates the stake and duration against the house's
/// policy, computes the potential profit `floor(stake * multiplier /
/// 10^9)`, reserves it against house and market liquidity, and returns the
/// pending bet record.  The entry price and the current time are the
/// oracle's and clock's answers at this instant, handed in by the caller;
/// the stake's move into the vault is the surrounding runtime's step.
pub fn create_bet(
    house: &mut House,
    market: &mut Market,
    market_key: u64,
    authority: u64,
    direction: Direction,
    lamports: u64,
    expiration: i64,
    entry_price: u64,
    now: i64,
) -> (r: Result<Bet, OptnError>)
    requires
        old(house).wf(),
    ensures
        r is Ok <==> create_bet_err(*old(house), *old(market), lamports, expiration, now)
            is None,
        r matches Err(e) ==> Some(e) == create_bet_err(
            *old(house),
            *old(market),
            lamports,
            expiration,
            now,
        ) && *final(house) == *old(house) && *final(market) == *old(market),
        r matches Ok(b) ==> ({
            let profit = profit_of(lamports, old(house).multiplier) as u64;
            &&& b == created_bet(
                market_key,
                authority,
                direction,
                lamports,
                profit,
                entry_price,
                now,
                expiration,
            )
            &&& *final(house) == house_after_create(*old(house), lamports, profit)
            &&& *final(market) == market_after_create(*old(market), lamports, profit)
        }),
{
    if lamports < house.min_wager {
        return Err(OptnError::MinWager);
    }
    if lamports > house.max_wager {
        return Err(OptnError::MaxWager);
    }
    if expiration < house.min_expiration {
        return Err(OptnError::MinExpiration);
    }
    if expiration > house.max_expiration {
        return Err(OptnError::MaxExpiration);
    }
    let profit_amount = match compute_profit(lamports, house.multiplier) {
        Ok(p) => p,
        Err(e) => {
            return Err(e);
        },
    };
    if profit_amount > u64::MAX - house.reserved_liquidity {
        return Err(OptnError::Overflow);
    }
    let reserved_liquidity = house.reserved_liquidity + profit_amount;
    if house.liquidity < reserved_liquidity {
        return Err(OptnError::InsufficientLiquidity);
    }
    if profit_amount > u64::MAX - market.reserved_liquidity || lamports > u64::MAX
        - market.total_wagered || market.active_bets == u32::MAX || lamports > u64::MAX
        - house.total_wagered || house.active_bets == u32::MAX || now > i64::MAX - expiration {
        return Err(OptnError::Overflow);
    }

    market.reserved_liquidity = market.reserved_liquidity + profit_amount;
    market.total_wagered = market.total_wagered + lamports;
    market.active_bets = market.active_bets + 1;

    house.reserved_liquidity = reserved_liquidity;
    house.total_wagered = house.total_wagered + lamports;
    house.active_bets = house.active_bets + 1;

    Ok(
        Bet {
            market: market_key,
            authority,
            wagered_amount: lamports,
            profit_amount,
            final_payout: 0,
            entry_price,
            settled_price: 0,
            direction,
            status: Status::Pending,
            created_at: now,
            expires_at: now + expiration,
            settled_at: None,
        },
    )
}

/// The consistency a pending bet has with the house and market it is
/// counted in: its profit is part of both reserved totals, its stake part
/// of both wagered totals, itself part of both active counts, and
/// liquidity covers the reserved total.  Every reachable state gives this
/// to its pending bets (see the ledger invariant).
pub open spec fn settle_linked(h: House, m: Market, b: Bet) -> bool {
    &&& h.liquidity >= h.reserved_liquidity
    &&& h.reserved_liquidity >= b.profit_amount
    &&& h.total_wagered >= b.wagered_amount
    &&& h.active_bets >= 1
    &&& m.reserved_liquidity >= b.profit_amount
    &&& m.total_wagered >= b.wagered_amount
    &&& m.active_bets >= 1
}

/// Why settlement is refused, if it is: a bet already resolved, one not
/// yet expired, or a payout or aggregate that would leave the integer
/// range.
pub open spec fn settle_err(
    h: House,
    m: Market,
    b: Bet,
    settled_price: u64,
    now: i64,
) -> Option<OptnError> {
    if b.status != Status::Pending {
        Some(OptnError::BetSettled)
    } else if now < b.expires_at {
        Some(OptnError::BetNotExpired)
    } else if wins(b.direction, b.entry_price, settled_price) && b.wagered_amount
        + b.profit_amount > u64::MAX {
        Some(OptnError::Overflow)
    } else if !wins(b.direction, b.entry_price, settled_price) && h.liquidity + b.wagered_amount
        > u64::MAX {
        Some(OptnError::Overflow)
    } else if h.settled_bets == u32::MAX || m.settled_bets == u32::MAX {
        Some(OptnError::Overflow)
    } else {
        None
    }
}

/// The bet as settlement leaves it: resolved `Won` with the full payout
/// owed, or `Lose` with nothing more owed; the settled price and instant
/// recorded either way.
pub open spec fn settled_bet(b: Bet, settled_price: u64, now: i64) -> Bet {
    if wins(b.direction, b.entry_price, settled_price) {
        Bet {
            status: Status::Won,
            final_payout: (b.wagered_amount + b.profit_amount) as u64,
            settled_price,
            settled_at: Some(now),
            ..b
        }
    } else {
        Bet { status: Status::Lose, settled_price, settled_at: Some(now), ..b }
    }
}

/// The house as settlement leaves it.  A win draws the reserved profit out
/// of liquidity (the stake already sits in the vault); a loss folds the
/// stake into liquidity as house revenue.  Either way the margin is
/// released: one fewer active bet, one more settled, the stake and profit
/// no longer counted.
pub open spec fn house_after_settle(h: House, b: Bet, settled_price: u64) -> House {
    House {
        liquidity: if wins(b.direction, b.entry_price, settled_price) {
            (h.liquidity - b.profit_amount) as u64
        } else {
            (h.liquidity + b.wagered_amount) as u64
        },
        active_bets: (h.active_bets - 1) as u32,
        settled_bets: (h.settled_bets + 1) as u32,
        total_wagered: (h.total_wagered - b.wagered_amount) as u64,
        reserved_liquidity: (h.reserved_liquidity - b.profit_amount) as u64,
        ..h
    }
}

/// The market as settlement leaves it: the same counter deltas as the
/// house, scoped to this feed.
pub open spec fn market_after_settle(m: Market, b: Bet) -> Market {
    Market {
        active_bets: (m.active_bets - 1) as u32,
        settled_bets: (m.settled_bets + 1) as u32,
        total_wagered: (m.total_wagered - b.wagered_amount) as u64,
        reserved_liquidity: (m.reserved_liquidity - b.profit_amount) as u64,
        ..m
    }
}

/// Settles a pending, expired bet against a settlement price the house's
/// admin supplies for the expiry instant.  `Buy` wins iff the price ended
/// strictly above the entry price, `Sell` iff strictly below; a tie loses.
/// Applies the full set of bet, house, and market updates, or fails with a
/// reason code and changes nothing.
pub fn settle_bet(
    house: &mut House,
    market: &mut Market,
    bet: &mut Bet,
    settled_price: u64,
    now: i64,
) -> (r: Result<(), OptnError>)
    requires
        old(bet).status == Status::Pending && now >= old(bet).expires_at ==> settle_linked(
            *old(house),
            *old(market),
            *old(bet),
        ),
    ensures
        r is Ok <==> settle_err(*old(house), *old(market), *old(bet), settled_price, now)
            is None,
        r matches Err(e) ==> Some(e) == settle_err(
            *old(house),
            *old(market),
            *old(bet),
            settled_price,
            now,
        ) && *final(house) == *old(house) && *final(market) == *old(market) && *final(bet)
            == *old(bet),
        r is Ok ==> *final(bet) == settled_bet(*old(bet), settled_price, now) && *final(house)
            == house_after_settle(*old(house), *old(bet), settled_price) && *final(market)
            == market_after_settle(*old(market), *old(bet)),
{
    if bet.status != Status::Pending {
        return Err(OptnError::BetSettled);
    }
    if now < bet.expires_at {
        return Err(OptnError::BetNotExpired);
    }

    let won = compute_outcome(bet.direction, bet.entry_price, settled_price);

    if won {
        if bet.profit_amount > u64::MAX - bet.wagered_amount {
            return Err(OptnError::Overflow);
        }
    } else {
        if bet.wagered_amount > u64::MAX - house.liquidity {
            return Err(OptnError::Overflow);
        }
    }
    if house.settled_bets == u32::MAX || market.settled_bets == u32::MAX {
        return Err(OptnError::Overflow);
    }

    if won {
        bet.status = Status::Won;
        bet.final_payout = bet.wagered_amount + bet.profit_amount;
        house.liquidity = house.liquidity - bet.profit_amount;
    } else {
        bet.status = Status::Lose;
        house.liquidity = house.liquidity + bet.wagered_amount;
    }

    house.active_bets = house.active_bets - 1;
    house.settled_bets = house.settled_bets + 1;
    house.total_wagered = house.total_wagered - bet.wagered_amount;
    house.reserved_liquidity = house.reserved_liquidity - bet.profit_amount;

    market.active_bets = market.active_bets - 1;
    market.settled_bets = market.settled_bets + 1;
    market.total_wagered = market.total_wagered - bet.wagered_amount;
    market.reserved_liquidity = market.reserved_liquidity - bet.profit_amount;

    bet.settled_price = settled_price;
    bet.settled_at = Some(now);

    Ok(())
}

/// Checks that a bet may be closed by its authority and returns the amount
/// the vault owes them: refused while the outcome is still pending, the
/// recorded final payout otherwise.  The transfer and the record's storage
/// release are the surrounding runtime's steps; no aggregate moves here —
/// settlement already moved them all.
pub fn close_bet(bet: &Bet) -> (r: Result<u64, OptnError>)
    ensures
        r is Ok <==> bet.status != Status::Pending,
        r matches Err(e) ==> e == OptnError::BetPending,
        r matches Ok(payout) ==> payout == bet.final_payout,
{
    if bet.status == Status::Pending {
        return Err(OptnError::BetPending);
    }
    Ok(bet.final_payout)
}

/// Once a bet has left `Pending`, settling it again is refused as
/// `BetSettled`, whatever price or time is supplied — and a refused
/// settlement changes nothing.
pub proof fn lemma_settled_bet_cannot_resettle(
    h: House,
    m: Market,
    b: Bet,
    settled_price: u64,
    now: i64,
)
    requires
        b.status != Status::Pending,
    ensures
        settle_err(h, m, b, settled_price, now) == Some(OptnError::BetSettled),
{
}

/// Settlement always leaves the bet resolved: the settled record is never
/// `Pending` again, so by the lemma above a second settlement of the same
/// bet fails with `BetSettled` and no state change.
pub proof fn lemma_settlement_is_final(b: Bet, settled_price: u64, now: i64)
    ensures
        settled_bet(b, settled_price, now).status != Status::Pending,
{
}

/// Stake boundaries: a stake of exactly `min_wager` or exactly `max_wager`
/// passes the wager validation, while one unit below the minimum or above
/// the maximum fails with the matching policy error.
pub proof fn lemma_stake_boundaries(h: House, m: Market, expiration: i64, now: i64)
    requires
        h.wf(),
    ensures
        create_bet_err(h, m, h.min_wager, expiration, now) != Some(OptnError::MinWager),
        create_bet_err(h, m, h.min_wager, expiration, now) != Some(OptnError::MaxWager),
        create_bet_err(h, m, h.max_wager, expiration, now) != Some(OptnError::MinWager),
        create_bet_err(h, m, h.max_wager, expiration, now) != Some(OptnError::MaxWager),
        create_bet_err(h, m, (h.min_wager - 1) as u64, expiration, now) == Some(
            OptnError::MinWager,
        ),
        h.max_wager < u64::MAX ==> create_bet_err(h, m, (h.max_wager + 1) as u64, expiration, now)
            == Some(OptnError::MaxWager),
{
}

/// Expiry boundary: settlement of a pending bet exactly at `expires_at`
/// passes the expiry check, while one unit before it fails as
/// `BetNotExpired`.
pub proof fn lemma_expiry_boundary(h: House, m: Market, b: Bet, settled_price: u64)
    requires
        b.status == Status::Pending,
    ensures
        settle_err(h, m, b, settled_price, b.expires_at) != Some(OptnError::BetNotExpired),
        b.expires_at > i64::MIN ==> settle_err(h, m, b, settled_price, (b.expires_at - 1) as i64)
            == Some(OptnError::BetNotExpired),
{
}

/// A house whose liquidity is exactly exhausted by its reservations
/// refuses every further bet that carries a nonzero potential profit, even
/// one of a single unit of stake.
pub proof fn lemma_exhausted_liquidity_refuses(
    h: House,
    m: Market,
    lamports: u64,
    expiration: i64,
    now: i64,
)
    requires
        h.liquidity == h.reserved_liquidity,
        profit_of(lamports, h.multiplier) > 0,
        h.min_wager <= lamports <= h.max_wager,
        h.min_expiration <= expiration <= h.max_expiration,
    ensures
        create_bet_err(h, m, lamports, expiration, now) is Some,
        profit_of(lamports, h.multiplier) <= u64::MAX && h.reserved_liquidity + profit_of(
            lamports,
            h.multiplier,
        ) <= u64::MAX ==> create_bet_err(h, m, lamports, expiration, now) == Some(
            OptnError::InsufficientLiquidity,
        ),
{
}

} // verus!
