use rand::rngs::SmallRng;
use rand::{RngCore, SeedableRng};
use rusty_ladders::dice::{die_face, Die};

#[test]
fn die_face_of_small_draws() {
    assert_eq!(die_face(0), 1);
    assert_eq!(die_face(1), 2);
    assert_eq!(die_face(2), 3);
    assert_eq!(die_face(3), 4);
    assert_eq!(die_face(4), 5);
    assert_eq!(die_face(5), 6);
    assert_eq!(die_face(6), 1);
    assert_eq!(die_face(7), 2);
    assert_eq!(die_face(12), 1);
}

#[test]
fn die_face_of_the_largest_draw() {
    assert_eq!(die_face(u64::MAX), 4);
    assert_eq!(die_face(u64::MAX - 3), 1);
}

#[test]
fn die_face_is_always_a_face() {
    let mut rng = SmallRng::seed_from_u64(11);
    for _ in 0..10_000 {
        let face = die_face(rng.next_u64());
        assert!((1..=6).contains(&face));
    }
}

#[test]
fn a_throw_takes_one_draw_from_the_generator() {
    let rng = SmallRng::seed_from_u64(2024);
    let mut twin = rng.clone();
    let mut die = Die::new(rng);
    for _ in 0..1_000 {
        let face = die.roll();
        assert_eq!(face, twin.next_u64() % 6 + 1);
    }
}

#[test]
fn a_new_die_starts_where_its_generator_stands() {
    let mut rng = SmallRng::seed_from_u64(8);
    rng.next_u64();
    rng.next_u64();
    let mut twin = rng.clone();
    let mut die = Die::new(rng);
    assert_eq!(die.roll(), die_face(twin.next_u64()));
}

#[test]
fn the_die_shows_every_face() {
    let mut die = Die::new(SmallRng::seed_from_u64(5));
    let mut seen = [0u32; 7];
    for _ in 0..6_000 {
        let face = die.roll();
        assert!((1..=6).contains(&face));
        seen[face as usize] += 1;
    }
    assert_eq!(seen[0], 0);
    for face in 1..=6 {
        assert!(seen[face] > 0);
    }
}

#[test]
fn dice_with_equal_seeds_throw_alike() {
    let mut first = Die::new(SmallRng::seed_from_u64(77));
    let mut second = Die::new(SmallRng::seed_from_u64(77));
    for _ in 0..100 {
        assert_eq!(first.roll(), second.roll());
    }
}
