//! The ledger: one house, its markets, and its active bets, held together
//! under the reservation invariant.
//!
//! The surrounding runtime sequences operations as serializable
//! transactions; this type is the sequential heart of that discipline.
//! Every operation is a read-modify-write of the full current state, and
//! each one's contract shows the invariant preserved — so the two ledger
//! laws hold of every reachable state: liquidity always covers reserved
//! liquidity, and reserved liquidity is exactly the pending bets'
//! potential profit in aggregate.

use vstd::prelude::*;
use vstd::pervasive::VecAdditionalExecFns;

use crate::bet::{Bet, Direction, Status};
use crate::engine;
use crate::errors::OptnError;
use crate::house::{self, House};
use crate::market::{Market, new_market};
use crate::sums::{
    lemma_sum_elem_bound, lemma_sum_push, lemma_sum_remove, lemma_sum_update, lemma_sum_zero,
    sel_market_count, sel_market_profit, sel_market_wagered, sel_pending_count,
    sel_pending_profit, sel_pending_wagered, sum_bets,
};

verus! {

/// One house with its markets and its still-open bets.  A bet's `market`
/// field keys the market it was placed on, as that market's position in
/// `markets`; a closed bet's record is released and leaves `bets`.
pub struct Ledger {
    /// Key of the house record, the owning key of its markets.
    pub key: u64,
    pub house: House,
    pub markets: Vec<Market>,
    pub bets: Vec<Bet>,
}

/// An operation that touches the house alone — and moves none of the
/// aggregates the bets account for — keeps the ledger invariant.
proof fn lemma_house_only_change(pre: Ledger, post: Ledger)
    requires
        pre.inv(),
        post.markets@ == pre.markets@,
        post.bets@ == pre.bets@,
        post.house.wf(),
        post.house.liquidity >= post.house.reserved_liquidity,
        post.house.reserved_liquidity == pre.house.reserved_liquidity,
        post.house.total_wagered == pre.house.total_wagered,
        post.house.active_bets == pre.house.active_bets,
    ensures
        post.inv(),
{
    assert forall|j: int| 0 <= j < post.markets@.len() implies #[trigger] post.market_consistent(
        j,
    ) by {
        assert(pre.market_consistent(j));
    }
    assert forall|i: int|
        0 <= i < post.bets@.len() implies (#[trigger] post.bets@[i]).market
            < post.markets@.len() by {
        assert(pre.bets@[i].market < pre.markets@.len());
    }
}

impl Ledger {
    /// The market keyed `j` carries exactly its own pending bets'
    /// aggregates: every bet counted in the market is counted in the house.
    pub open spec fn market_consistent(self, j: int) -> bool {
        &&& self.markets@[j].reserved_liquidity == sum_bets(self.bets@, sel_market_profit(j))
        &&& self.markets@[j].total_wagered == sum_bets(self.bets@, sel_market_wagered(j))
        &&& self.markets@[j].active_bets == sum_bets(self.bets@, sel_market_count(j))
    }

    /// The ledger invariant, established at creation and preserved by
    /// every operation: the house's policy is sound; liquidity covers
    /// reserved liquidity; the house's reserved liquidity, wagered total,
    /// and active count are exactly the pending bets' aggregates; each
    /// market carries its own slice of them; and every bet keys a market
    /// that exists.
    pub open spec fn inv(self) -> bool {
        &&& self.house.wf()
        &&& self.house.liquidity >= self.house.reserved_liquidity
        &&& self.house.reserved_liquidity == sum_bets(self.bets@, sel_pending_profit())
        &&& self.house.total_wagered == sum_bets(self.bets@, sel_pending_wagered())
        &&& self.house.active_bets == sum_bets(self.bets@, sel_pending_count())
        &&& forall|j: int| 0 <= j < self.markets@.len() ==> #[trigger] self.market_consistent(j)
        &&& forall|i: int|
            0 <= i < self.bets@.len() ==> (#[trigger] self.bets@[i]).market < self.markets@.len()
    }

    /// Creates the house and an empty ledger around it, under the same
    /// policy validation as house creation.
    pub fn new(
        key: u64,
        admin: u64,
        beneficiary: u64,
        min_wager: u64,
        max_wager: u64,
        min_expiration: i64,
        max_expiration: i64,
        multiplier: u64,
        fee_basis_points: u16,
        authority_bump: u8,
    ) -> (r: Result<Ledger, OptnError>)
        ensures
            r is Ok <==> house::create_house_err(
                min_wager,
                max_wager,
                min_expiration,
                max_expiration,
            ) is None,
            r matches Err(e) ==> Some(e) == house::create_house_err(
                min_wager,
                max_wager,
                min_expiration,
                max_expiration,
            ),
            r matches Ok(l) ==> l.inv() && l.key == key && l.house == house::new_house(
                admin,
                beneficiary,
                min_wager,
                max_wager,
                min_expiration,
                max_expiration,
                multiplier,
                fee_basis_points,
                authority_bump,
            ) && l.markets@.len() == 0 && l.bets@.len() == 0,
    {
        let house = match house::create_house(
            admin,
            beneficiary,
            min_wager,
            max_wager,
            min_expiration,
            max_expiration,
            multiplier,
            fee_basis_points,
            authority_bump,
        ) {
            Ok(h) => h,
            Err(e) => {
                return Err(e);
            },
        };
        let ledger = Ledger { key, house, markets: Vec::new(), bets: Vec::new() };
        Ok(ledger)
    }

    /// Adds deposited funds to the house's pool.  Any caller may deposit;
    /// the matching vault transfer is the surrounding runtime's step.
    pub fn deposit_liquidity(&mut self, lamports: u64) -> (r: Result<(), OptnError>)
        requires
            old(self).inv(),
        ensures
            final(self).inv(),
            final(self).key == old(self).key,
            final(self).markets@ == old(self).markets@,
            final(self).bets@ == old(self).bets@,
            r is Ok <==> house::deposit_err(old(self).house, lamports) is None,
            r matches Err(e) ==> Some(e) == house::deposit_err(old(self).house, lamports)
                && final(self).house == old(self).house,
            r is Ok ==> final(self).house == (House {
                liquidity: (old(self).house.liquidity + lamports) as u64,
                total_deposits: (old(self).house.total_deposits + lamports) as u64,
                ..old(self).house
            }),
    {
        let mut h = self.house;
        let r = house::deposit_liquidity(&mut h, lamports);
        self.house = h;
        proof {
            lemma_house_only_change(*old(self), *self);
        }
        r
    }

    /// Withdraws beneficiary funds from the pool, allowed exactly up to
    /// `liquidity - reserved_liquidity`.
    pub fn withdraw_liquidity(&mut self, lamports: u64) -> (r: Result<(), OptnError>)
        requires
            old(self).inv(),
        ensures
            final(self).inv(),
            final(self).key == old(self).key,
            final(self).markets@ == old(self).markets@,
            final(self).bets@ == old(self).bets@,
            r is Ok <==> house::withdraw_err(old(self).house, lamports) is None,
            r matches Err(e) ==> Some(e) == house::withdraw_err(old(self).house, lamports)
                && final(self).house == old(self).house,
            r is Ok ==> final(self).house == (House {
                liquidity: (old(self).house.liquidity - lamports) as u64,
                total_withdrawals: (old(self).house.total_withdrawals + lamports) as u64,
                ..old(self).house
            }),
    {
        let mut h = self.house;
        let r = house::withdraw_liquidity(&mut h, lamports);
        self.house = h;
        proof {
            lemma_house_only_change(*old(self), *self);
        }
        r
    }

    /// Claims the entire accrued profit for the beneficiary and returns
    /// the amount the vault owes them.
    pub fn claim_profit(&mut self) -> (r: Result<u64, OptnError>)
        requires
            old(self).inv(),
        ensures
            final(self).inv(),
            final(self).key == old(self).key,
            final(self).markets@ == old(self).markets@,
            final(self).bets@ == old(self).bets@,
            r is Ok <==> house::claim_profit_err(old(self).house) is None,
            r matches Err(e) ==> Some(e) == house::claim_profit_err(old(self).house)
                && final(self).house == old(self).house,
            r matches Ok(amount) ==> amount == old(self).house.total_profit && final(self).house
                == (House {
                total_profit: 0,
                claimed_profits: (old(self).house.claimed_profits
                    + old(self).house.total_profit) as u64,
                ..old(self).house
            }),
    {
        let mut h = self.house;
        let r = house::claim_profit(&mut h);
        self.house = h;
        proof {
            lemma_house_only_change(*old(self), *self);
        }
        r
    }

    /// Changes the house's stake bounds under the same validation as
    /// creation.
    pub fn update_wager_limits(&mut self, min_wager: u64, max_wager: u64) -> (r: Result<
        (),
        OptnError,
    >)
        requires
            old(self).inv(),
        ensures
            final(self).inv(),
            final(self).key == old(self).key,
            final(self).markets@ == old(self).markets@,
            final(self).bets@ == old(self).bets@,
            r is Ok <==> house::wager_limits_err(min_wager, max_wager) is None,
            r matches Err(e) ==> Some(e) == house::wager_limits_err(min_wager, max_wager)
                && final(self).house == old(self).house,
            r is Ok ==> final(self).house == (House {
                min_wager,
                max_wager,
                ..old(self).house
            }),
    {
        let mut h = self.house;
        let r = house::update_wager_limits(&mut h, min_wager, max_wager);
        self.house = h;
        proof {
            lemma_house_only_change(*old(self), *self);
        }
        r
    }

    /// Creates a market bound to one price feed, adds it to the ledger, and
    /// returns its key.  The feed's decimal exponent is the oracle's answer
    /// at creation time, handed in by the caller; an unavailable or stale
    /// feed is the oracle boundary's refusal and never reaches the ledger.
    pub fn create_market(&mut self, price_update: u64, feed_id: String, decimals: u8) -> (r:
        usize)
        requires
            old(self).inv(),
        ensures
            final(self).inv(),
            final(self).key == old(self).key,
            final(self).house == old(self).house,
            final(self).bets@ == old(self).bets@,
            r == old(self).markets@.len(),
            final(self).markets@ == old(self).markets@.push(
                new_market(old(self).key, price_update, feed_id, decimals),
            ),
    {
        let idx = self.markets.len();
        let m = crate::market::create_market(self.key, price_update, feed_id, decimals);
        self.markets.push(m);
        proof {
            let pre = *old(self);
            let post = *self;
            let gp = sel_market_profit(idx as int);
            let gw = sel_market_wagered(idx as int);
            let gc = sel_market_count(idx as int);
            assert forall|i: int|
                0 <= i < post.bets@.len() implies gp(#[trigger] post.bets@[i]) == 0 && gw(
                post.bets@[i]) == 0 && gc(post.bets@[i]) == 0 by {
                assert(pre.bets@[i].market < pre.markets@.len());
            }
            lemma_sum_zero(post.bets@, gp);
            lemma_sum_zero(post.bets@, gw);
            lemma_sum_zero(post.bets@, gc);
            assert forall|j: int|
                0 <= j < post.markets@.len() implies #[trigger] post.market_consistent(j) by {
                if j < idx as int {
                    assert(pre.market_consistent(j));
                    assert(post.markets@[j] == pre.markets@[j]);
                }
            }
            assert forall|i: int|
                0 <= i < post.bets@.len() implies (#[trigger] post.bets@[i]).market
                    < post.markets@.len() by {
                assert(pre.bets@[i].market < pre.markets@.len());
            }
        }
        idx
    }

    /// Creates a bet on the market keyed `market_index`: the full
    /// validation, profit computation, and liquidity reservation of the
    /// engine, with the new pending record appended to the ledger.  Returns
    /// the new bet's key.  The entry price and current time are the
    /// oracle's and clock's answers at this instant, handed in by the
    /// caller; the stake's move into the vault is the surrounding runtime's
    /// step.
    pub fn create_bet(
        &mut self,
        market_index: usize,
        authority: u64,
        direction: Direction,
        lamports: u64,
        expiration: i64,
        entry_price: u64,
        now: i64,
    ) -> (r: Result<usize, OptnError>)
        requires
            old(self).inv(),
            market_index < old(self).markets@.len(),
        ensures
            final(self).inv(),
            final(self).key == old(self).key,
            r is Ok <==> engine::create_bet_err(
                old(self).house,
                old(self).markets@[market_index as int],
                lamports,
                expiration,
                now,
            ) is None,
            r matches Err(e) ==> Some(e) == engine::create_bet_err(
                old(self).house,
                old(self).markets@[market_index as int],
                lamports,
                expiration,
                now,
            ) && final(self).house == old(self).house && final(self).markets@ == old(
                self,
            ).markets@ && final(self).bets@ == old(self).bets@,
            r matches Ok(i) ==> ({
                let profit = crate::bet::profit_of(lamports, old(self).house.multiplier) as u64;
                &&& i == old(self).bets@.len()
                &&& final(self).bets@ == old(self).bets@.push(
                    engine::created_bet(
                        market_index as u64,
                        authority,
                        direction,
                        lamports,
                        profit,
                        entry_price,
                        now,
                        expiration,
                    ),
                )
                &&& final(self).house == engine::house_after_create(
                    old(self).house,
                    lamports,
                    profit,
                )
                &&& final(self).markets@ == old(self).markets@.update(
                    market_index as int,
                    engine::market_after_create(
                        old(self).markets@[market_index as int],
                        lamports,
                        profit,
                    ),
                )
            }),
    {
        let mut h = self.house;
        let res = engine::create_bet(
            &mut h,
            &mut self.markets[market_index],
            market_index as u64,
            authority,
            direction,
            lamports,
            expiration,
            entry_price,
            now,
        );
        self.house = h;
        match res {
            Err(e) => {
                proof {
                    assert(self.markets@ =~= old(self).markets@);
                    lemma_house_only_change(*old(self), *self);
                }
                Err(e)
            },
            Ok(b) => {
                let i = self.bets.len();
                self.bets.push(b);
                proof {
                    let pre = *old(self);
                    let post = *self;
                    let mid = market_index as int;
                    let profit = crate::bet::profit_of(lamports, pre.house.multiplier) as u64;
                    let fp = sel_pending_profit();
                    let fw = sel_pending_wagered();
                    let fc = sel_pending_count();
                    lemma_sum_push(pre.bets@, fp, b);
                    lemma_sum_push(pre.bets@, fw, b);
                    lemma_sum_push(pre.bets@, fc, b);
                    assert(fp(b) == profit as int && fw(b) == lamports as int && fc(b) == 1);
                    assert forall|j: int|
                        0 <= j < post.markets@.len() implies #[trigger] post.market_consistent(
                        j,
                    ) by {
                        let gp = sel_market_profit(j);
                        let gw = sel_market_wagered(j);
                        let gc = sel_market_count(j);
                        lemma_sum_push(pre.bets@, gp, b);
                        lemma_sum_push(pre.bets@, gw, b);
                        lemma_sum_push(pre.bets@, gc, b);
                        assert(pre.market_consistent(j));
                        if j == mid {
                            assert(gp(b) == profit as int && gw(b) == lamports as int && gc(b)
                                == 1);
                        } else {
                            assert(gp(b) == 0 && gw(b) == 0 && gc(b) == 0);
                            assert(post.markets@[j] == pre.markets@[j]);
                        }
                    }
                    assert forall|k: int|
                        0 <= k < post.bets@.len() implies (#[trigger] post.bets@[k]).market
                            < post.markets@.len() by {
                        if k < pre.bets@.len() {
                            assert(pre.bets@[k].market < pre.markets@.len());
                        } else {
                            assert(post.bets@[k] == b);
                        }
                    }
                }
                Ok(i)
            },
        }
    }

    /// Settles the pending, expired bet keyed `bet_index` against the
    /// settlement price the house's admin supplies for the expiry instant,
    /// applying the engine's full set of bet, house, and market updates —
    /// or failing with a reason code and changing nothing.
    pub fn settle_bet(&mut self, bet_index: usize, settled_price: u64, now: i64) -> (r: Result<
        (),
        OptnError,
    >)
        requires
            old(self).inv(),
            bet_index < old(self).bets@.len(),
        ensures
            final(self).inv(),
            final(self).key == old(self).key,
            r is Ok <==> engine::settle_err(
                old(self).house,
                old(self).markets@[old(self).bets@[bet_index as int].market as int],
                old(self).bets@[bet_index as int],
                settled_price,
                now,
            ) is None,
            r matches Err(e) ==> Some(e) == engine::settle_err(
                old(self).house,
                old(self).markets@[old(self).bets@[bet_index as int].market as int],
                old(self).bets@[bet_index as int],
                settled_price,
                now,
            ) && final(self).house == old(self).house && final(self).markets@ == old(
                self,
            ).markets@ && final(self).bets@ == old(self).bets@,
            r is Ok ==> ({
                let b0 = old(self).bets@[bet_index as int];
                &&& final(self).bets@ == old(self).bets@.update(
                    bet_index as int,
                    engine::settled_bet(b0, settled_price, now),
                )
                &&& final(self).house == engine::house_after_settle(
                    old(self).house,
                    b0,
                    settled_price,
                )
                &&& final(self).markets@ == old(self).markets@.update(
                    b0.market as int,
                    engine::market_after_settle(old(self).markets@[b0.market as int], b0),
                )
            }),
    {
        let b0 = self.bets[bet_index];
        let market_count = self.markets.len();
        proof {
            assert(old(self).bets@[bet_index as int].market < old(self).markets@.len());
            assert(old(self).markets@.len() == market_count);
        }
        let mid = b0.market as usize;
        proof {
            if b0.status == Status::Pending && now >= b0.expires_at {
                let pre = *old(self);
                let fp = sel_pending_profit();
                let fw = sel_pending_wagered();
                let fc = sel_pending_count();
                assert(forall|x: Bet| #[trigger] fp(x) >= 0);
                assert(forall|x: Bet| #[trigger] fw(x) >= 0);
                assert(forall|x: Bet| #[trigger] fc(x) >= 0);
                lemma_sum_elem_bound(pre.bets@, fp, bet_index as int);
                lemma_sum_elem_bound(pre.bets@, fw, bet_index as int);
                lemma_sum_elem_bound(pre.bets@, fc, bet_index as int);
                let gp = sel_market_profit(mid as int);
                let gw = sel_market_wagered(mid as int);
                let gc = sel_market_count(mid as int);
                assert(forall|x: Bet| #[trigger] gp(x) >= 0);
                assert(forall|x: Bet| #[trigger] gw(x) >= 0);
                assert(forall|x: Bet| #[trigger] gc(x) >= 0);
                lemma_sum_elem_bound(pre.bets@, gp, bet_index as int);
                lemma_sum_elem_bound(pre.bets@, gw, bet_index as int);
                lemma_sum_elem_bound(pre.bets@, gc, bet_index as int);
                assert(pre.market_consistent(mid as int));
            }
        }
        let mut h = self.house;
        let mut b = b0;
        let res = engine::settle_bet(&mut h, &mut self.markets[mid], &mut b, settled_price, now);
        self.house = h;
        self.bets.set(bet_index, b);
        proof {
            let pre = *old(self);
            let post = *self;
            if res is Ok {
                let b1 = engine::settled_bet(b0, settled_price, now);
                let fp = sel_pending_profit();
                let fw = sel_pending_wagered();
                let fc = sel_pending_count();
                lemma_sum_update(pre.bets@, fp, bet_index as int, b1);
                lemma_sum_update(pre.bets@, fw, bet_index as int, b1);
                lemma_sum_update(pre.bets@, fc, bet_index as int, b1);
                assert(fp(b0) == b0.profit_amount as int && fw(b0) == b0.wagered_amount as int
                    && fc(b0) == 1);
                assert(fp(b1) == 0 && fw(b1) == 0 && fc(b1) == 0);
                assert forall|j: int|
                    0 <= j < post.markets@.len() implies #[trigger] post.market_consistent(
                    j,
                ) by {
                    let gp = sel_market_profit(j);
                    let gw = sel_market_wagered(j);
                    let gc = sel_market_count(j);
                    lemma_sum_update(pre.bets@, gp, bet_index as int, b1);
                    lemma_sum_update(pre.bets@, gw, bet_index as int, b1);
                    lemma_sum_update(pre.bets@, gc, bet_index as int, b1);
                    assert(pre.market_consistent(j));
                    assert(gp(b1) == 0 && gw(b1) == 0 && gc(b1) == 0);
                    if j == mid as int {
                        assert(gp(b0) == b0.profit_amount as int && gw(b0)
                            == b0.wagered_amount as int && gc(b0) == 1);
                    } else {
                        assert(gp(b0) == 0 && gw(b0) == 0 && gc(b0) == 0);
                        assert(post.markets@[j] == pre.markets@[j]);
                    }
                }
                assert forall|k: int|
                    0 <= k < post.bets@.len() implies (#[trigger] post.bets@[k]).market
                        < post.markets@.len() by {
                    assert(pre.bets@[k].market < pre.markets@.len());
                    if k != bet_index as int {
                        assert(post.bets@[k] == pre.bets@[k]);
                    }
                }
            } else {
                assert(pre.bets@.update(bet_index as int, b0) =~= pre.bets@);
                assert(pre.markets@.update(mid as int, pre.markets@[mid as int]) =~= pre.markets@);
                lemma_house_only_change(pre, post);
            }
        }
        res
    }

    /// Closes the resolved bet keyed `bet_index` for its authority:
    /// refused while the outcome is still pending; otherwise returns the
    /// final payout the vault owes and releases the bet's record.  No
    /// aggregate moves here — settlement already moved them all.
    pub fn close_bet(&mut self, bet_index: usize) -> (r: Result<u64, OptnError>)
        requires
            old(self).inv(),
            bet_index < old(self).bets@.len(),
        ensures
            final(self).inv(),
            final(self).key == old(self).key,
            final(self).house == old(self).house,
            final(self).markets@ == old(self).markets@,
            r is Ok <==> old(self).bets@[bet_index as int].status != Status::Pending,
            r matches Err(e) ==> e == OptnError::BetPending && final(self).bets@ == old(
                self,
            ).bets@,
            r matches Ok(payout) ==> payout == old(self).bets@[bet_index as int].final_payout
                && final(self).bets@ == old(self).bets@.remove(bet_index as int),
    {
        let res = engine::close_bet(&self.bets[bet_index]);
        match res {
            Err(e) => Err(e),
            Ok(payout) => {
                self.bets.remove(bet_index);
                proof {
                    let pre = *old(self);
                    let post = *self;
                    let b0 = pre.bets@[bet_index as int];
                    let fp = sel_pending_profit();
                    let fw = sel_pending_wagered();
                    let fc = sel_pending_count();
                    lemma_sum_remove(pre.bets@, fp, bet_index as int);
                    lemma_sum_remove(pre.bets@, fw, bet_index as int);
                    lemma_sum_remove(pre.bets@, fc, bet_index as int);
                    assert(fp(b0) == 0 && fw(b0) == 0 && fc(b0) == 0);
                    assert forall|j: int|
                        0 <= j < post.markets@.len() implies #[trigger] post.market_consistent(
                        j,
                    ) by {
                        let gp = sel_market_profit(j);
                        let gw = sel_market_wagered(j);
                        let gc = sel_market_count(j);
                        lemma_sum_remove(pre.bets@, gp, bet_index as int);
                        lemma_sum_remove(pre.bets@, gw, bet_index as int);
                        lemma_sum_remove(pre.bets@, gc, bet_index as int);
                        assert(pre.market_consistent(j));
                        assert(gp(b0) == 0 && gw(b0) == 0 && gc(b0) == 0);
                    }
                    assert forall|k: int|
                        0 <= k < post.bets@.len() implies (#[trigger] post.bets@[k]).market
                            < post.markets@.len() by {
                        if k < bet_index as int {
                            assert(post.bets@[k] == pre.bets@[k]);
                            assert(pre.bets@[k].market < pre.markets@.len());
                        } else {
                            assert(post.bets@[k] == pre.bets@[k + 1]);
                            assert(pre.bets@[k + 1].market < pre.markets@.len());
                        }
                    }
                }
                Ok(payout)
            },
        }
    }
}

/// Every reachable state keeps liquidity at or above reserved liquidity.
pub proof fn lemma_liquidity_covers_reserved(l: Ledger)
    requires
        l.inv(),
    ensures
        l.house.liquidity >= l.house.reserved_liquidity,
{
}

/// In every reachable state, the house's reserved liquidity is exactly the
/// sum of `profit_amount` over its currently pending bets.
pub proof fn lemma_reserved_is_pending_profit(l: Ledger)
    requires
        l.inv(),
    ensures
        l.house.reserved_liquidity == sum_bets(l.bets@, sel_pending_profit()),
{
}

/// Each market's aggregates are a slice of its house's: in every reachable
/// state, every bet counted in a market is counted in the house, so no
/// market aggregate exceeds the house's.
pub proof fn lemma_market_within_house(l: Ledger, j: int)
    requires
        l.inv(),
        0 <= j < l.markets@.len(),
    ensures
        l.markets@[j].reserved_liquidity <= l.house.reserved_liquidity,
        l.markets@[j].total_wagered <= l.house.total_wagered,
        l.markets@[j].active_bets <= l.house.active_bets,
{
    assert(l.market_consistent(j));
    crate::sums::lemma_sum_le(l.bets@, sel_market_profit(j), sel_pending_profit());
    crate::sums::lemma_sum_le(l.bets@, sel_market_wagered(j), sel_pending_wagered());
    crate::sums::lemma_sum_le(l.bets@, sel_market_count(j), sel_pending_count());
}

/// Settling the same bet twice fails the second time: a successful
/// settlement leaves the bet resolved, and the settlement of a resolved
/// bet is refused as `BetSettled` before anything moves — so the refusal
/// changes no state.
pub proof fn lemma_resettle_refused(l: Ledger, i: int, settled_price: u64, now: i64)
    requires
        0 <= i < l.bets@.len(),
        l.bets@[i].status != Status::Pending,
    ensures
        engine::settle_err(
            l.house,
            l.markets@[l.bets@[i].market as int],
            l.bets@[i],
            settled_price,
            now,
        ) == Some(OptnError::BetSettled),
{
}

} // verus!
