//! Funds accounting: the payloads of a packet may not name more of a
//! denomination than the caller attached.

use vstd::prelude::*;
use crate::model::{coins_total, funds_covered, funds_total};
use crate::packet::{payloads_view, Payload, PayloadView};
use crate::types::{coins_view, Coin, CoinView};

verus! {

/// The total over a prefix of the coins is at most the total over all.
pub proof fn lemma_coins_total_prefix(coins: Seq<CoinView>, denom: Seq<char>, upto: int)
    requires
        0 <= upto <= coins.len(),
    ensures
        coins_total(coins.subrange(0, upto), denom) <= coins_total(coins, denom),
    decreases coins.len(),
{
    if upto == coins.len() {
        assert(coins.subrange(0, upto) =~= coins);
    } else {
        assert(coins.drop_last().subrange(0, upto) =~= coins.subrange(0, upto));
        lemma_coins_total_prefix(coins.drop_last(), denom, upto);
    }
}

/// The total over a prefix of the payloads is at most the total over all.
pub proof fn lemma_funds_total_prefix(payloads: Seq<PayloadView>, denom: Seq<char>, upto: int)
    requires
        0 <= upto <= payloads.len(),
    ensures
        funds_total(payloads.subrange(0, upto), denom) <= funds_total(payloads, denom),
    decreases payloads.len(),
{
    if upto == payloads.len() {
        assert(payloads.subrange(0, upto) =~= payloads);
    } else {
        assert(payloads.drop_last().subrange(0, upto) =~= payloads.subrange(0, upto));
        lemma_funds_total_prefix(payloads.drop_last(), denom, upto);
    }
}

/// Whether the payloads together name more than `limit` of `denom`. The
/// sum is taken over the naturals: no amount is lost to overflow.
pub fn funds_exceed(payloads: &Vec<Payload>, denom: &String, limit: u128) -> (over: bool)
    ensures
        over == (funds_total(payloads_view(payloads@), denom@) > limit),
{
    let ghost all = payloads_view(payloads@);
    let mut running: u128 = 0;
    let mut i: usize = 0;
    while i < payloads.len()
        invariant
            i <= payloads@.len(),
            all == payloads_view(payloads@),
            running == funds_total(all.subrange(0, i as int), denom@),
            running <= limit,
        decreases payloads@.len() - i,
    {
        let funds = &payloads[i].header.funds;
        let ghost coins = coins_view(funds@);
        let ghost base = running;
        let mut j: usize = 0;
        while j < funds.len()
            invariant
                j <= funds@.len(),
                i < payloads@.len(),
                coins == coins_view(funds@),
                all == payloads_view(payloads@),
                all[i as int].header.funds == coins,
                base == funds_total(all.subrange(0, i as int), denom@),
                running == base + coins_total(coins.subrange(0, j as int), denom@),
                running <= limit,
            decreases funds@.len() - j,
        {
            let coin = &funds[j];
            proof {
                assert(coins.subrange(0, j + 1).drop_last() =~= coins.subrange(0, j as int));
            }
            if coin.denom == *denom {
                if coin.amount > limit - running {
                    proof {
                        lemma_coins_total_prefix(coins, denom@, j + 1);
                        assert(all.subrange(0, i + 1).drop_last() =~= all.subrange(0, i as int));
                        lemma_funds_total_prefix(all, denom@, i + 1);
                    }
                    return true;
                }
                running = running + coin.amount;
            }
            j += 1;
        }
        proof {
            assert(coins.subrange(0, funds@.len() as int) =~= coins);
            assert(all.subrange(0, i + 1).drop_last() =~= all.subrange(0, i as int));
        }
        i += 1;
    }
    assert(all.subrange(0, payloads@.len() as int) =~= all);
    false
}

/// Whether the funds attached to a call cover what the payloads name: for
/// each attached coin, the payloads together name no more of its
/// denomination than the coin holds.
pub fn check_funds(payloads: &Vec<Payload>, attached: &Vec<Coin>) -> (covered: bool)
    ensures
        covered == funds_covered(payloads_view(payloads@), coins_view(attached@)),
{
    let ghost all = payloads_view(payloads@);
    let ghost given = coins_view(attached@);
    let mut i: usize = 0;
    while i < attached.len()
        invariant
            i <= attached@.len(),
            all == payloads_view(payloads@),
            given == coins_view(attached@),
            forall|k: int|
                0 <= k < i ==> funds_total(all, (#[trigger] given[k]).denom) <= given[k].amount,
        decreases attached@.len() - i,
    {
        if funds_exceed(payloads, &attached[i].denom, attached[i].amount) {
            assert(funds_total(all, given[i as int].denom) > given[i as int].amount);
            return false;
        }
        i += 1;
    }
    true
}

} // verus!
