//! Notifications for external indexers and observers.
//!
//! Each operation that mutates a record offers a snapshot event.  Building
//! the snapshot is verified here; carrying it to observers is a
//! fire-and-forget side channel of the surrounding runtime, never part of
//! the transactional contract — a lost notification must not roll back the
//! underlying mutation.

use vstd::prelude::*;

use crate::bet::{Bet, Direction, Status};
use crate::house::House;
use crate::market::Market;

verus! {

/// The house counters observers follow.
#[derive(Clone, Copy, Debug, PartialEq, Eq)]
pub struct HouseUpdatedData {
    pub liquidity: u64,
    pub reserved_liquidity: u64,
    pub total_wagered: u64,
    pub active_bets: u32,
    pub settled_bets: u32,
    pub canceled_bets: u32,
}

/// A house snapshot, keyed by the house record.
#[derive(Clone, Copy, Debug, PartialEq, Eq)]
pub struct HouseUpdatedEvent {
    pub pubkey: u64,
    pub data: HouseUpdatedData,
}

/// The market counters observers follow: the house shape minus liquidity.
#[derive(Clone, Copy, Debug, PartialEq, Eq)]
pub struct MarketUpdatedData {
    pub reserved_liquidity: u64,
    pub total_wagered: u64,
    pub active_bets: u32,
    pub settled_bets: u32,
    pub canceled_bets: u32,
}

/// A market snapshot, keyed by the market record.
#[derive(Clone, Copy, Debug, PartialEq, Eq)]
pub struct MarketUpdatedEvent {
    pub pubkey: u64,
    pub data: MarketUpdatedData,
}

/// A full snapshot of a bet at creation.
#[derive(Clone, Copy, Debug, PartialEq, Eq)]
pub struct BetCreatedData {
    pub market: u64,
    pub authority: u64,
    pub wagered_amount: u64,
    pub profit_amount: u64,
    pub final_payout: u64,
    pub entry_price: u64,
    pub settled_price: u64,
    pub direction: Direction,
    pub status: Status,
    pub created_at: i64,
    pub expires_at: i64,
    pub settled_at: Option<i64>,
}

/// A bet-creation snapshot, keyed by the bet record.
#[derive(Clone, Copy, Debug, PartialEq, Eq)]
pub struct BetCreatedEvent {
    pub pubkey: u64,
    pub data: BetCreatedData,
}

/// What settlement changed on a bet.
#[derive(Clone, Copy, Debug, PartialEq, Eq)]
pub struct BetUpdatedData {
    pub final_payout: u64,
    pub settled_price: u64,
    pub status: Status,
    pub settled_at: Option<i64>,
}

/// A bet-settlement snapshot, keyed by the bet record.
#[derive(Clone, Copy, Debug, PartialEq, Eq)]
pub struct BetUpdatedEvent {
    pub pubkey: u64,
    pub data: BetUpdatedData,
}

/// Builds the house-updated notification for observers; its transport is
/// the caller's side channel.
pub fn emit_house_updated(pubkey: u64, house: &House) -> (e: HouseUpdatedEvent)
    ensures
        e == (HouseUpdatedEvent {
            pubkey,
            data: HouseUpdatedData {
                liquidity: house.liquidity,
                reserved_liquidity: house.reserved_liquidity,
                total_wagered: house.total_wagered,
                active_bets: house.active_bets,
                settled_bets: house.settled_bets,
                canceled_bets: house.canceled_bets,
            },
        }),
{
    HouseUpdatedEvent {
        pubkey,
        data: HouseUpdatedData {
            liquidity: house.liquidity,
            reserved_liquidity: house.reserved_liquidity,
            total_wagered: house.total_wagered,
            active_bets: house.active_bets,
            settled_bets: house.settled_bets,
            canceled_bets: house.canceled_bets,
        },
    }
}

/// Builds the market-updated notification for observers.
pub fn emit_market_updated(pubkey: u64, market: &Market) -> (e: MarketUpdatedEvent)
    ensures
        e == (MarketUpdatedEvent {
            pubkey,
            data: MarketUpdatedData {
                reserved_liquidity: market.reserved_liquidity,
                total_wagered: market.total_wagered,
                active_bets: market.active_bets,
                settled_bets: market.settled_bets,
                canceled_bets: market.canceled_bets,
            },
        }),
{
    MarketUpdatedEvent {
        pubkey,
        data: MarketUpdatedData {
            reserved_liquidity: market.reserved_liquidity,
            total_wagered: market.total_wagered,
            active_bets: market.active_bets,
            settled_bets: market.settled_bets,
            canceled_bets: market.canceled_bets,
        },
    }
}

/// Builds the bet-created notification: a full snapshot of the new record.
pub fn emit_bet_created(pubkey: u64, bet: &Bet) -> (e: BetCreatedEvent)
    ensures
        e == (BetCreatedEvent {
            pubkey,
            data: BetCreatedData {
                market: bet.market,
                authority: bet.authority,
                wagered_amount: bet.wagered_amount,
                profit_amount: bet.profit_amount,
                final_payout: bet.final_payout,
                entry_price: bet.entry_price,
                settled_price: bet.settled_price,
                direction: bet.direction,
                status: bet.status,
                created_at: bet.created_at,
                expires_at: bet.expires_at,
                settled_at: bet.settled_at,
            },
        }),
{
    BetCreatedEvent {
        pubkey,
        data: BetCreatedData {
            market: bet.market,
            authority: bet.authority,
            wagered_amount: bet.wagered_amount,
            profit_amount: bet.profit_amount,
            final_payout: bet.final_payout,
            entry_price: bet.entry_price,
            settled_price: bet.settled_price,
            direction: bet.direction,
            status: bet.status,
            created_at: bet.created_at,
            expires_at: bet.expires_at,
            settled_at: bet.settled_at,
        },
    }
}

/// Builds the bet-updated notification: what settlement changed.
pub fn emit_bet_updated(pubkey: u64, bet: &Bet) -> (e: BetUpdatedEvent)
    ensures
        e == (BetUpdatedEvent {
            pubkey,
            data: BetUpdatedData {
                final_payout: bet.final_payout,
                settled_price: bet.settled_price,
                status: bet.status,
                settled_at: bet.settled_at,
            },
        }),
{
    BetUpdatedEvent {
        pubkey,
        data: BetUpdatedData {
            final_payout: bet.final_payout,
            settled_price: bet.settled_price,
            status: bet.status,
            settled_at: bet.settled_at,
        },
    }
}

} // verus!
