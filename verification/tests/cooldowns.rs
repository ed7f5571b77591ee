use kromer::bot::xp::{exp, Cooldowns, MAX_EXP};

const SECOND: u128 = 1_000_000_000;

#[test]
fn first_update_awards_the_maximum() {
    let mut cooldowns = Cooldowns::new();
    assert_eq!(cooldowns.update_at(1, 2, 0), MAX_EXP);
}

#[test]
fn award_grows_by_the_second_and_is_capped() {
    let mut cooldowns = Cooldowns::new();
    assert_eq!(cooldowns.update_at(7, 9, 0), 15);
    assert_eq!(cooldowns.update_at(7, 9, 5 * SECOND), 5);
    assert_eq!(cooldowns.update_at(7, 9, 25 * SECOND), 15);
}

#[test]
fn exp_counts_whole_seconds() {
    assert_eq!(exp(0), 0);
    assert_eq!(exp(SECOND - 1), 0);
    assert_eq!(exp(SECOND), 1);
    assert_eq!(exp(14 * SECOND + 999_999_999), 14);
    assert_eq!(exp(15 * SECOND), 15);
    assert_eq!(exp(u128::MAX), 15);
}

#[test]
fn second_update_within_a_second_awards_nothing() {
    let mut cooldowns = Cooldowns::new();
    assert_eq!(cooldowns.update_at(1, 2, 10 * SECOND), 15);
    assert_eq!(cooldowns.update_at(1, 2, 10 * SECOND), 0);
    assert_eq!(cooldowns.update_at(1, 2, 11 * SECOND - 1), 0);
}

#[test]
fn update_after_the_cooldown_awards_the_maximum_again() {
    let mut cooldowns = Cooldowns::new();
    assert_eq!(cooldowns.update_at(1, 2, 0), 15);
    assert_eq!(cooldowns.update_at(1, 2, 15 * SECOND), 15);
    assert_eq!(cooldowns.update_at(1, 2, 30 * SECOND - 1), 14);
    assert_eq!(cooldowns.update_at(1, 2, 1_000_000 * SECOND), 15);
}

#[test]
fn clock_that_ran_backwards_awards_nothing() {
    let mut cooldowns = Cooldowns::new();
    assert_eq!(cooldowns.update_at(1, 2, 100 * SECOND), 15);
    assert_eq!(cooldowns.update_at(1, 2, 50 * SECOND), 0);
    // the new moment was stored all the same
    assert_eq!(cooldowns.update_at(1, 2, 53 * SECOND), 3);
}

#[test]
fn keys_do_not_interfere() {
    let mut one = Cooldowns::new();
    assert_eq!(one.update_at(1, 2, 0), 15);
    assert_eq!(one.update_at(1, 3, SECOND), 15);
    assert_eq!(one.update_at(2, 2, 2 * SECOND), 15);
    assert_eq!(one.update_at(1, 2, 4 * SECOND), 4);
    assert_eq!(one.update_at(1, 3, 4 * SECOND), 3);
    assert_eq!(one.update_at(2, 2, 4 * SECOND), 2);

    // the same updates, the keys in another order
    let mut other = Cooldowns::new();
    assert_eq!(other.update_at(2, 2, 2 * SECOND), 15);
    assert_eq!(other.update_at(1, 3, SECOND), 15);
    assert_eq!(other.update_at(1, 2, 0), 15);
    assert_eq!(other.update_at(2, 2, 4 * SECOND), 2);
    assert_eq!(other.update_at(1, 3, 4 * SECOND), 3);
    assert_eq!(other.update_at(1, 2, 4 * SECOND), 4);
}

#[test]
fn update_by_the_clock() {
    let mut cooldowns = Cooldowns::new();
    assert_eq!(cooldowns.update(1, 2), 15);
    // the second call comes well within a second of the first
    assert_eq!(cooldowns.update(1, 2), 0);
    assert_eq!(cooldowns.update(1, 3), 15);
}
