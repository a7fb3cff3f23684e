use rand::rngs::SmallRng;
use rand::{RngCore, SeedableRng};
use rusty_ladders::dice::Die;
use rusty_ladders::game::snakes_and_ladders;
use rusty_ladders::trials::run_trials;

#[test]
fn no_trial_gives_zero() {
    let rng = SmallRng::seed_from_u64(1);
    let mut twin = rng.clone();
    let mut die = Die::new(rng);
    assert_eq!(run_trials(&mut die, 0), 0);
    // Nothing was drawn.
    assert_eq!(die.roll(), twin.next_u64() % 6 + 1);
}

#[test]
fn one_trial_with_a_fixed_seed_repeats() {
    let mut first = Die::new(SmallRng::seed_from_u64(42));
    let mut second = Die::new(SmallRng::seed_from_u64(42));
    let rolls = run_trials(&mut first, 1);
    assert!(rolls >= 1);
    assert_eq!(rolls, run_trials(&mut second, 1));
}

#[test]
fn one_trial_is_one_game() {
    for seed in 0..50u64 {
        let mut die = Die::new(SmallRng::seed_from_u64(seed));
        let mut twin = Die::new(SmallRng::seed_from_u64(seed));
        assert_eq!(run_trials(&mut die, 1), snakes_and_ladders(&mut twin));
        assert_eq!(die.roll(), twin.roll());
    }
}

#[test]
fn trials_report_the_last_game_only() {
    let mut die = Die::new(SmallRng::seed_from_u64(7));
    let mut twin = Die::new(SmallRng::seed_from_u64(7));
    let mut counts = Vec::new();
    for _ in 0..25 {
        counts.push(snakes_and_ladders(&mut twin));
    }
    assert_eq!(run_trials(&mut die, 25), counts[24]);
    assert_eq!(die.roll(), twin.roll());
    // The counts differ from game to game, so the last is told apart.
    assert!(counts.iter().any(|&count| count != counts[24]));
}

#[test]
fn many_trials_end_with_a_finished_game() {
    let mut die = Die::new(SmallRng::seed_from_u64(2_718));
    let rolls = run_trials(&mut die, 10_000);
    assert!(rolls >= 7);
}
