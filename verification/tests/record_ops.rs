//! Record-level operations: the engine and house functions on explicit
//! records, the profit formula, and the event snapshots.

use optn::bet::{compute_outcome, compute_profit, Bet, Direction, Status};
use optn::engine;
use optn::errors::OptnError;
use optn::events;
use optn::house;
use optn::house::House;
use optn::market;
use optn::market::Market;

fn sample_house() -> House {
    house::create_house(10, 11, 100, 10_000, 60, 3600, 2_000_000_000, 0, 255)
        .expect("policy is valid")
}

fn sample_market() -> Market {
    market::create_market(1, 7, "btcusd".to_string(), 8)
}

#[test]
fn profit_formula_floors() {
    // 3 * 1.5 = 4.5, floored to 4
    assert_eq!(compute_profit(3, 1_500_000_000), Ok(4));
    assert_eq!(compute_profit(1_000, 2_000_000_000), Ok(2_000));
    assert_eq!(compute_profit(1_000, 0), Ok(0));
    assert_eq!(compute_profit(999_999_999, 1), Ok(0));
    assert_eq!(compute_profit(1_000_000_000, 1), Ok(1));
    assert_eq!(compute_profit(u64::MAX, 1_000_000_000), Ok(u64::MAX));
    assert_eq!(compute_profit(u64::MAX, 2_000_000_000), Err(OptnError::Overflow));
}

#[test]
fn outcome_rule() {
    assert!(compute_outcome(Direction::Buy, 500, 501));
    assert!(!compute_outcome(Direction::Buy, 500, 500));
    assert!(!compute_outcome(Direction::Buy, 500, 499));
    assert!(compute_outcome(Direction::Sell, 500, 499));
    assert!(!compute_outcome(Direction::Sell, 500, 500));
    assert!(!compute_outcome(Direction::Sell, 500, 501));
}

#[test]
fn create_bet_reserves_and_records() {
    let mut h = sample_house();
    h.liquidity = 10_000;
    let mut m = sample_market();

    let bet = engine::create_bet(&mut h, &mut m, 3, 42, Direction::Sell, 1_000, 120, 500, 1_000)
        .expect("within policy and liquidity");
    assert_eq!(bet.market, 3);
    assert_eq!(bet.authority, 42);
    assert_eq!(bet.wagered_amount, 1_000);
    assert_eq!(bet.profit_amount, 2_000);
    assert_eq!(bet.final_payout, 0);
    assert_eq!(bet.entry_price, 500);
    assert_eq!(bet.settled_price, 0);
    assert_eq!(bet.direction, Direction::Sell);
    assert_eq!(bet.status, Status::Pending);
    assert_eq!(bet.created_at, 1_000);
    assert_eq!(bet.expires_at, 1_120);
    assert_eq!(bet.settled_at, None);
    assert_eq!(h.reserved_liquidity, 2_000);
    assert_eq!(h.total_wagered, 1_000);
    assert_eq!(h.active_bets, 1);
    assert_eq!(m.reserved_liquidity, 2_000);
    assert_eq!(m.total_wagered, 1_000);
    assert_eq!(m.active_bets, 1);
}

#[test]
fn create_bet_failure_leaves_records_unchanged() {
    let mut h = sample_house();
    h.liquidity = 1_000;
    let before_h = h;
    let mut m = sample_market();
    let before_m = m.clone();

    let refused = engine::create_bet(&mut h, &mut m, 3, 42, Direction::Buy, 1_000, 120, 500, 1_000);
    assert_eq!(refused, Err(OptnError::InsufficientLiquidity));
    assert_eq!(h, before_h);
    assert_eq!(m, before_m);
}

#[test]
fn settle_won_payout_overflow_is_refused() {
    // a consistent pending bet whose payout would not fit the stake's width
    let mut h = sample_house();
    h.liquidity = u64::MAX;
    h.reserved_liquidity = 1;
    h.total_wagered = u64::MAX;
    h.active_bets = 1;
    let mut m = sample_market();
    m.reserved_liquidity = 1;
    m.total_wagered = u64::MAX;
    m.active_bets = 1;
    let mut b = Bet {
        market: 0,
        authority: 42,
        wagered_amount: u64::MAX,
        profit_amount: 1,
        final_payout: 0,
        entry_price: 500,
        settled_price: 0,
        direction: Direction::Buy,
        status: Status::Pending,
        created_at: 0,
        expires_at: 60,
        settled_at: None,
    };
    let before_h = h;
    let before_b = b;

    let refused = engine::settle_bet(&mut h, &mut m, &mut b, 501, 60);
    assert_eq!(refused, Err(OptnError::Overflow));
    assert_eq!(h, before_h);
    assert_eq!(b, before_b);
}

#[test]
fn close_bet_requires_resolution() {
    let pending = Bet {
        market: 0,
        authority: 42,
        wagered_amount: 1_000,
        profit_amount: 2_000,
        final_payout: 0,
        entry_price: 500,
        settled_price: 0,
        direction: Direction::Buy,
        status: Status::Pending,
        created_at: 0,
        expires_at: 60,
        settled_at: None,
    };
    assert_eq!(engine::close_bet(&pending), Err(OptnError::BetPending));

    let won = Bet { status: Status::Won, final_payout: 3_000, ..pending };
    assert_eq!(engine::close_bet(&won), Ok(3_000));

    let lost = Bet { status: Status::Lose, ..pending };
    assert_eq!(engine::close_bet(&lost), Ok(0));
}

#[test]
fn withdraw_updates_totals() {
    let mut h = sample_house();
    h.liquidity = 5_000;
    h.reserved_liquidity = 1_000;
    house::withdraw_liquidity(&mut h, 4_000).expect("exactly the free margin");
    assert_eq!(h.liquidity, 1_000);
    assert_eq!(h.total_withdrawals, 4_000);
    assert_eq!(
        house::withdraw_liquidity(&mut h, 1),
        Err(OptnError::InsufficientLiquidity)
    );
}

#[test]
fn claim_profit_moves_the_accrued_amount() {
    let mut h = sample_house();
    h.total_profit = 700;
    h.claimed_profits = 50;
    let amount = house::claim_profit(&mut h).expect("profit accrued");
    assert_eq!(amount, 700);
    assert_eq!(h.total_profit, 0);
    assert_eq!(h.claimed_profits, 750);
    assert_eq!(house::claim_profit(&mut h), Err(OptnError::NoProfit));
}

#[test]
fn market_creation_captures_feed() {
    let m = market::create_market(9, 7, "solusd".to_string(), 5);
    assert_eq!(m.house, 9);
    assert_eq!(m.price_update, 7);
    assert_eq!(m.feed_id, "solusd");
    assert_eq!(m.decimals, 5);
    assert_eq!(m.reserved_liquidity, 0);
    assert_eq!(m.total_wagered, 0);
    assert_eq!(m.active_bets, 0);
    assert_eq!(m.settled_bets, 0);
    assert_eq!(m.canceled_bets, 0);
}

#[test]
fn event_snapshots_mirror_records() {
    let mut h = sample_house();
    h.liquidity = 10_000;
    h.reserved_liquidity = 2_000;
    h.total_wagered = 1_000;
    h.active_bets = 1;
    let he = events::emit_house_updated(1, &h);
    assert_eq!(he.pubkey, 1);
    assert_eq!(he.data.liquidity, 10_000);
    assert_eq!(he.data.reserved_liquidity, 2_000);
    assert_eq!(he.data.total_wagered, 1_000);
    assert_eq!(he.data.active_bets, 1);
    assert_eq!(he.data.settled_bets, 0);
    assert_eq!(he.data.canceled_bets, 0);

    let mut m = sample_market();
    m.reserved_liquidity = 2_000;
    m.active_bets = 1;
    let me = events::emit_market_updated(5, &m);
    assert_eq!(me.pubkey, 5);
    assert_eq!(me.data.reserved_liquidity, 2_000);
    assert_eq!(me.data.active_bets, 1);

    let b = Bet {
        market: 5,
        authority: 42,
        wagered_amount: 1_000,
        profit_amount: 2_000,
        final_payout: 3_000,
        entry_price: 500,
        settled_price: 501,
        direction: Direction::Buy,
        status: Status::Won,
        created_at: 1_000,
        expires_at: 1_060,
        settled_at: Some(1_060),
    };
    let ce = events::emit_bet_created(9, &b);
    assert_eq!(ce.pubkey, 9);
    assert_eq!(ce.data.market, 5);
    assert_eq!(ce.data.authority, 42);
    assert_eq!(ce.data.wagered_amount, 1_000);
    assert_eq!(ce.data.direction, Direction::Buy);

    let ue = events::emit_bet_updated(9, &b);
    assert_eq!(ue.pubkey, 9);
    assert_eq!(ue.data.final_payout, 3_000);
    assert_eq!(ue.data.settled_price, 501);
    assert_eq!(ue.data.status, Status::Won);
    assert_eq!(ue.data.settled_at, Some(1_060));
}

#[test]
fn error_messages_name_the_refusal() {
    assert_eq!(
        OptnError::MinWager.message(),
        "Wager amount is below the allowed minimum limit"
    );
    assert_eq!(
        OptnError::InsufficientLiquidity.message(),
        "Insufficient available liquidity to proceed"
    );
    assert_eq!(
        OptnError::BetSettled.message(),
        "Bet cannot be settled again because it has already been resolved"
    );
}

#[test]
fn update_wager_limits_does_not_touch_other_policy() {
    let mut h = sample_house();
    house::update_wager_limits(&mut h, 500, 600).expect("valid limits");
    assert_eq!(h.min_wager, 500);
    assert_eq!(h.max_wager, 600);
    assert_eq!(h.min_expiration, 60);
    assert_eq!(h.max_expiration, 3600);
    assert_eq!(h.multiplier, 2_000_000_000);
}
