//! Greedy change-making over a descending set of coin denominations.

use vstd::arithmetic::div_mod::lemma_fundamental_div_mod_converse;
use vstd::prelude::*;

verus! {

/// Every denomination is a positive face value.
pub open spec fn all_positive(ds: Seq<u32>) -> bool {
    forall|i: int| 0 <= i < ds.len() ==> ds[i] > 0
}

/// Number of coins the greedy reduction hands out for `n` over `ds`:
/// as many of the first denomination as fit, then the rest on what is left.
pub open spec fn greedy_count(n: nat, ds: Seq<u32>) -> nat
    decreases ds.len(),
{
    if ds.len() == 0 {
        0
    } else {
        n / (ds[0] as nat) + greedy_count(n % (ds[0] as nat), ds.drop_first())
    }
}

proof fn lemma_greedy_count_zero(ds: Seq<u32>)
    requires
        all_positive(ds),
    ensures
        greedy_count(0, ds) == 0,
    decreases ds.len(),
{
    if ds.len() > 0 {
        lemma_greedy_count_zero(ds.drop_first());
    }
}

/// Counts the coins that greedy reduction gives for `amount`: for each
/// denomination from first to last, take as many coins as fit into what is
/// still owed. Stops as soon as nothing is owed.
pub fn greedy_coin_count(amount: u32, denominations: &[u32]) -> (count: u32)
    requires
        all_positive(denominations@),
    ensures
        count == greedy_count(amount as nat, denominations@),
{
    let ghost ds = denominations@;
    let mut count: u32 = 0;
    let mut remaining: u32 = amount;
    let mut i: usize = 0;
    assert(ds.subrange(0, ds.len() as int) =~= ds);
    while i < denominations.len() && remaining > 0
        invariant
            ds == denominations@,
            all_positive(ds),
            i <= ds.len(),
            count + remaining <= amount,
            count + greedy_count(remaining as nat, ds.subrange(i as int, ds.len() as int))
                == greedy_count(amount as nat, ds),
        decreases ds.len() - i,
    {
        let coin = denominations[i];
        let num = remaining / coin;
        assert(num + remaining % coin <= remaining) by (nonlinear_arith)
            requires
                coin > 0,
                num == remaining / coin,
        ;
        assert(ds.subrange(i as int, ds.len() as int).drop_first() =~= ds.subrange(
            i + 1,
            ds.len() as int,
        ));
        count = count + num;
        remaining = remaining % coin;
        i = i + 1;
    }
    proof {
        let rest = ds.subrange(i as int, ds.len() as int);
        if i < ds.len() {
            assert(all_positive(rest));
            lemma_greedy_count_zero(rest);
        }
    }
    count
}

/// The coin set of the change calculator: quarter, dime, nickel, penny.
pub open spec fn standard_coins() -> Seq<u32> {
    seq![25, 10, 5, 1]
}

/// Counts the coins owed for `change` cents over quarters, dimes, nickels
/// and pennies, by greedy reduction.
pub fn coin_count(change: u32) -> (count: u32)
    ensures
        count == greedy_count(change as nat, standard_coins()),
{
    let coins: Vec<u32> = vec![25, 10, 5, 1];
    assert(coins@ =~= standard_coins());
    greedy_coin_count(change, coins.as_slice())
}

/// How many coins of each denomination greedy reduction hands out for `n`.
pub open spec fn greedy_take(n: nat, ds: Seq<u32>) -> Seq<nat>
    decreases ds.len(),
{
    if ds.len() == 0 {
        seq![]
    } else {
        seq![n / (ds[0] as nat)] + greedy_take(n % (ds[0] as nat), ds.drop_first())
    }
}

/// What `counts[i]` coins of face value `ds[i]` are worth together.
pub open spec fn coin_value(counts: Seq<nat>, ds: Seq<u32>) -> int
    decreases counts.len(),
{
    if counts.len() == 0 || ds.len() == 0 {
        0
    } else {
        counts[0] * ds[0] + coin_value(counts.drop_first(), ds.drop_first())
    }
}

/// How many coins `counts` holds in all.
pub open spec fn coin_total(counts: Seq<nat>) -> nat
    decreases counts.len(),
{
    if counts.len() == 0 {
        0
    } else {
        counts[0] + coin_total(counts.drop_first())
    }
}

/// Greedy reduction makes exact change: over positive denominations whose
/// last is 1, the coins it hands out for `n` are worth exactly `n`, and there
/// are as many of them as the greedy count says.
pub proof fn lemma_greedy_makes_change(n: nat, ds: Seq<u32>)
    requires
        all_positive(ds),
        ds.len() > 0,
        ds.last() == 1,
    ensures
        greedy_take(n, ds).len() == ds.len(),
        coin_value(greedy_take(n, ds), ds) == n,
        coin_total(greedy_take(n, ds)) == greedy_count(n, ds),
    decreases ds.len(),
{
    let d = ds[0] as nat;
    let take = greedy_take(n, ds);
    let rest = ds.drop_first();
    assert(take.drop_first() =~= greedy_take(n % d, rest));
    assert(take[0] == n / d);
    assert(n == (n / d) * d + n % d) by (nonlinear_arith)
        requires
            d > 0,
    ;
    if ds.len() == 1 {
        assert(d == 1);
        assert(n % d == 0) by (nonlinear_arith)
            requires
                d == 1,
        ;
        assert(rest.len() == 0);
        assert(take.drop_first().len() == 0);
        assert(coin_value(take.drop_first(), rest) == 0);
        assert(coin_total(take.drop_first()) == 0);
        assert(greedy_count(n % d, rest) == 0);
    } else {
        lemma_greedy_makes_change(n % d, rest);
    }
    assert(coin_value(take, ds) == take[0] * d + coin_value(take.drop_first(), rest));
    assert(coin_total(take) == take[0] + coin_total(take.drop_first()));
}

/// What greedy reduction gives over the standard coins, written out.
spec fn standard_greedy(n: nat) -> nat {
    n / 25 + (n % 25) / 10 + (n % 25 % 10) / 5 + n % 25 % 10 % 5
}

proof fn lemma_standard_greedy(n: nat)
    ensures
        greedy_count(n, standard_coins()) == standard_greedy(n),
{
    let ds = standard_coins();
    assert(ds.drop_first() =~= seq![10u32, 5, 1]);
    assert(ds.drop_first().drop_first() =~= seq![5u32, 1]);
    assert(ds.drop_first().drop_first().drop_first() =~= seq![1u32]);
    assert(ds.drop_first().drop_first().drop_first().drop_first() =~= Seq::<u32>::empty());
    let m = n % 25 % 10 % 5;
    assert(m / 1 == m && m % 1 == 0) by (nonlinear_arith);
    reveal_with_fuel(greedy_count, 5);
}

/// A handful of `a` quarters, `b` dimes, `c` nickels and `d` pennies holds
/// at least as many coins as greedy reduction hands out for their value.
proof fn lemma_standard_greedy_at_most(a: nat, b: nat, c: nat, d: nat)
    ensures
        standard_greedy(25 * a + 10 * b + 5 * c + d) <= a + b + c + d,
    decreases a + b + c + d,
{
    if d >= 5 {
        lemma_standard_greedy_at_most(a, b, c + 1, (d - 5) as nat);
    } else if c >= 2 {
        lemma_standard_greedy_at_most(a, b + 1, (c - 2) as nat, d);
    } else if b >= 3 {
        lemma_standard_greedy_at_most(a + 1, (b - 3) as nat, c + 1, d);
    } else if b == 2 && c == 1 {
        lemma_standard_greedy_at_most(a + 1, 0, 0, d);
    } else {
        let n = 25 * a + 10 * b + 5 * c + d;
        let r = 10 * b + 5 * c + d;
        lemma_fundamental_div_mod_converse(n as int, 25, a as int, r as int);
        lemma_fundamental_div_mod_converse(r as int, 10, b as int, (5 * c + d) as int);
        lemma_fundamental_div_mod_converse((5 * c + d) as int, 5, c as int, d as int);
        lemma_fundamental_div_mod_converse(d as int, 5, 0, d as int);
    }
}

/// Over the standard coins greedy reduction is optimal: no handful of
/// quarters, dimes, nickels and pennies worth `n` holds fewer coins than it
/// hands out for `n`.
pub proof fn lemma_standard_greedy_is_minimal(n: nat, counts: Seq<nat>)
    requires
        counts.len() == 4,
        coin_value(counts, standard_coins()) == n,
    ensures
        greedy_count(n, standard_coins()) <= coin_total(counts),
{
    let ds = standard_coins();
    reveal_with_fuel(coin_value, 5);
    reveal_with_fuel(coin_total, 5);
    let d1 = ds.drop_first();
    let d2 = d1.drop_first();
    let d3 = d2.drop_first();
    assert(d1 =~= seq![10u32, 5, 1]);
    assert(d2 =~= seq![5u32, 1]);
    assert(d3 =~= seq![1u32]);
    assert(d3.drop_first().len() == 0);
    let c1 = counts.drop_first();
    let c2 = c1.drop_first();
    let c3 = c2.drop_first();
    assert(c3.drop_first().len() == 0);
    assert(c3[0] == counts[3] && c2[0] == counts[2] && c1[0] == counts[1]);
    assert(coin_value(c3.drop_first(), d3.drop_first()) == 0);
    assert(d3[0] == 1 && d2[0] == 5 && d1[0] == 10 && ds[0] == 25);
    assert(c3[0] * d3[0] == counts[3] && c2[0] * d2[0] == counts[2] * 5 && c1[0] * d1[0]
        == counts[1] * 10 && counts[0] * ds[0] == counts[0] * 25) by (nonlinear_arith)
        requires
            d3[0] == 1 && d2[0] == 5 && d1[0] == 10 && ds[0] == 25,
            c3[0] == counts[3] && c2[0] == counts[2] && c1[0] == counts[1],
    ;
    assert(coin_value(c3, d3) == counts[3]);
    assert(coin_value(c2, d2) == counts[2] * 5 + counts[3]);
    assert(coin_value(c1, d1) == counts[1] * 10 + counts[2] * 5 + counts[3]);
    assert(coin_total(c3.drop_first()) == 0);
    assert(coin_total(counts) == counts[0] + counts[1] + counts[2] + counts[3]);
    lemma_standard_greedy(n);
    lemma_standard_greedy_at_most(counts[0], counts[1], counts[2], counts[3]);
}

} // verus!
