//! Aggregates over a sequence of bets.
//!
//! The ledger invariant states each house and market counter as a sum of a
//! per-bet quantity over the bet sequence.  `sum_bets` is that sum, the
//! selector functions are the quantities, and the lemmas say how the sum
//! moves when a bet is appended, rewritten, or removed.

use vstd::prelude::*;

use crate::bet::{Bet, Status};

verus! {

/// The sum of `f` over a sequence of bets.
pub open spec fn sum_bets(s: Seq<Bet>, f: spec_fn(Bet) -> int) -> int
    decreases s.len(),
{
    if s.len() == 0 {
        0
    } else {
        sum_bets(s.drop_last(), f) + f(s.last())
    }
}

/// A pending bet's potential profit; zero for a resolved bet.
pub open spec fn sel_pending_profit() -> spec_fn(Bet) -> int {
    |b: Bet| if b.status == Status::Pending { b.profit_amount as int } else { 0 }
}

/// A pending bet's stake; zero for a resolved bet.
pub open spec fn sel_pending_wagered() -> spec_fn(Bet) -> int {
    |b: Bet| if b.status == Status::Pending { b.wagered_amount as int } else { 0 }
}

/// One for a pending bet; zero for a resolved one.
pub open spec fn sel_pending_count() -> spec_fn(Bet) -> int {
    |b: Bet| if b.status == Status::Pending { 1int } else { 0 }
}

/// A pending bet's potential profit, counted only on the market keyed `mid`.
pub open spec fn sel_market_profit(mid: int) -> spec_fn(Bet) -> int {
    |b: Bet| if b.status == Status::Pending && b.market == mid { b.profit_amount as int } else { 0 }
}

/// A pending bet's stake, counted only on the market keyed `mid`.
pub open spec fn sel_market_wagered(mid: int) -> spec_fn(Bet) -> int {
    |b: Bet| if b.status == Status::Pending && b.market == mid { b.wagered_amount as int } else { 0 }
}

/// One for a pending bet on the market keyed `mid`; zero otherwise.
pub open spec fn sel_market_count(mid: int) -> spec_fn(Bet) -> int {
    |b: Bet| if b.status == Status::Pending && b.market == mid { 1int } else { 0 }
}

/// Appending a bet adds its quantity to the sum.
pub proof fn lemma_sum_push(s: Seq<Bet>, f: spec_fn(Bet) -> int, b: Bet)
    ensures
        sum_bets(s.push(b), f) == sum_bets(s, f) + f(b),
{
    assert(s.push(b).drop_last() =~= s);
    assert(s.push(b).last() == b);
}

/// Rewriting one bet moves the sum by the difference of its quantities.
pub proof fn lemma_sum_update(s: Seq<Bet>, f: spec_fn(Bet) -> int, j: int, b: Bet)
    requires
        0 <= j < s.len(),
    ensures
        sum_bets(s.update(j, b), f) == sum_bets(s, f) - f(s[j]) + f(b),
    decreases s.len(),
{
    let t = s.update(j, b);
    if j == s.len() - 1 {
        assert(t.drop_last() =~= s.drop_last());
        assert(t.last() == b);
    } else {
        lemma_sum_update(s.drop_last(), f, j, b);
        assert(t.drop_last() =~= s.drop_last().update(j, b));
        assert(t.last() == s.last());
    }
}

/// Removing one bet subtracts its quantity from the sum.
pub proof fn lemma_sum_remove(s: Seq<Bet>, f: spec_fn(Bet) -> int, j: int)
    requires
        0 <= j < s.len(),
    ensures
        sum_bets(s.remove(j), f) == sum_bets(s, f) - f(s[j]),
    decreases s.len(),
{
    let t = s.remove(j);
    if j == s.len() - 1 {
        assert(t =~= s.drop_last());
    } else {
        lemma_sum_remove(s.drop_last(), f, j);
        assert(t.drop_last() =~= s.drop_last().remove(j));
        assert(t.last() == s.last());
    }
}

/// A sum of a nonnegative quantity is nonnegative.
pub proof fn lemma_sum_nonneg(s: Seq<Bet>, f: spec_fn(Bet) -> int)
    requires
        forall|b: Bet| #[trigger] f(b) >= 0,
    ensures
        sum_bets(s, f) >= 0,
    decreases s.len(),
{
    if s.len() != 0 {
        lemma_sum_nonneg(s.drop_last(), f);
    }
}

/// A sum of a nonnegative quantity is at least any one bet's quantity.
pub proof fn lemma_sum_elem_bound(s: Seq<Bet>, f: spec_fn(Bet) -> int, j: int)
    requires
        0 <= j < s.len(),
        forall|b: Bet| #[trigger] f(b) >= 0,
    ensures
        sum_bets(s, f) >= f(s[j]),
{
    lemma_sum_remove(s, f, j);
    lemma_sum_nonneg(s.remove(j), f);
}

/// A pointwise-smaller quantity sums to no more.
pub proof fn lemma_sum_le(s: Seq<Bet>, f: spec_fn(Bet) -> int, g: spec_fn(Bet) -> int)
    requires
        forall|b: Bet| #[trigger] f(b) <= #[trigger] g(b),
    ensures
        sum_bets(s, f) <= sum_bets(s, g),
    decreases s.len(),
{
    if s.len() != 0 {
        lemma_sum_le(s.drop_last(), f, g);
    }
}

/// A sum over bets whose quantities all vanish is zero.
pub proof fn lemma_sum_zero(s: Seq<Bet>, f: spec_fn(Bet) -> int)
    requires
        forall|i: int| 0 <= i < s.len() ==> #[trigger] f(s[i]) == 0,
    ensures
        sum_bets(s, f) == 0,
    decreases s.len(),
{
    if s.len() != 0 {
        assert(forall|i: int| 0 <= i < s.drop_last().len() ==> #[trigger] f(s.drop_last()[i])
            == 0);
        lemma_sum_zero(s.drop_last(), f);
    }
}

} // verus!
