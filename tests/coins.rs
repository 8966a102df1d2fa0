use cash_mario::coins::{coin_count, greedy_coin_count};

fn fewest_coins(n: usize) -> Vec<u32> {
    let coins = [25usize, 10, 5, 1];
    let mut best = vec![u32::MAX; n + 1];
    best[0] = 0;
    for v in 1..=n {
        for &c in coins.iter() {
            if c <= v && best[v - c] != u32::MAX && best[v - c] + 1 < best[v] {
                best[v] = best[v - c] + 1;
            }
        }
    }
    best
}

#[test]
fn change_for_41_cents_is_four_coins() {
    assert_eq!(coin_count(41), 4);
    assert_eq!(format!("{}", coin_count(41)), "4");
}

#[test]
fn change_for_one_cent_is_one_coin() {
    assert_eq!(coin_count(1), 1);
    assert_eq!(format!("{}", coin_count(1)), "1");
}

#[test]
fn change_matches_the_greedy_breakdown() {
    for n in 1u32..=1000 {
        let quarters = n / 25;
        let dimes = (n % 25) / 10;
        let nickels = (n % 25 % 10) / 5;
        let pennies = n % 5;
        assert_eq!(25 * quarters + 10 * dimes + 5 * nickels + pennies, n);
        assert_eq!(coin_count(n), quarters + dimes + nickels + pennies);
    }
}

#[test]
fn change_is_minimal_for_small_amounts() {
    let best = fewest_coins(1000);
    for n in 1..=1000usize {
        assert_eq!(coin_count(n as u32), best[n]);
    }
}

#[test]
fn change_for_nothing_is_no_coins() {
    assert_eq!(coin_count(0), 0);
}

#[test]
fn change_for_the_largest_amount() {
    // 171798691 quarters leave 20 cents: two dimes.
    assert_eq!(coin_count(u32::MAX), 171798693);
}

#[test]
fn greedy_over_another_coin_set() {
    // Greedy takes 4 + 1 + 1 where 3 + 3 would do: it is greedy, not optimal.
    assert_eq!(greedy_coin_count(6, &[4, 3, 1]), 3);
    assert_eq!(greedy_coin_count(99, &[50, 20, 2, 1]), 8);
}

#[test]
fn greedy_without_a_unit_coin_leaves_a_remainder() {
    assert_eq!(greedy_coin_count(7, &[10, 5]), 1);
    assert_eq!(greedy_coin_count(7, &[]), 0);
}
