use boids::turn::{resolve_turn, turn_choice, Turn};
use rand::rngs::StdRng;
use rand::{Rng, SeedableRng};

#[test]
fn well_defined_rotation_is_kept() {
    assert_eq!(turn_choice(false, true), Turn::Computed);
    assert_eq!(turn_choice(false, false), Turn::Computed);
}

#[test]
fn degenerate_rotation_follows_the_coin() {
    assert_eq!(turn_choice(true, true), Turn::Identity);
    assert_eq!(turn_choice(true, false), Turn::HalfTurn);
}

#[test]
fn well_defined_rotation_draws_no_randomness() {
    let mut a = StdRng::seed_from_u64(7);
    let mut b = StdRng::seed_from_u64(7);
    assert_eq!(resolve_turn(&mut a, false), Turn::Computed);
    assert_eq!(a.gen::<u64>(), b.gen::<u64>());
}

#[test]
fn degenerate_rotation_replays_under_a_fixed_seed() {
    let mut a = StdRng::seed_from_u64(42);
    let mut b = StdRng::seed_from_u64(42);
    let ta: Vec<Turn> = (0..64).map(|_| resolve_turn(&mut a, true)).collect();
    let tb: Vec<Turn> = (0..64).map(|_| resolve_turn(&mut b, true)).collect();
    assert_eq!(ta, tb);
    assert!(ta.iter().all(|t| *t != Turn::Computed));
    // A fair coin over 64 draws shows both faces.
    assert!(ta.contains(&Turn::Identity));
    assert!(ta.contains(&Turn::HalfTurn));
}

#[test]
fn degenerate_rotation_matches_the_generator_coin() {
    let mut a = StdRng::seed_from_u64(0);
    let mut b = StdRng::seed_from_u64(0);
    for _ in 0..16 {
        let coin: bool = b.gen();
        assert_eq!(resolve_turn(&mut a, true), turn_choice(true, coin));
    }
}
