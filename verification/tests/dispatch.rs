use rand::rngs::StdRng;
use rand::SeedableRng;
use sim_property::budget::{Remaining, UNITS_PER_INTERACTION};
use sim_property::dispatch::{choose_weighted, pick_weighted, sum_weights};
use sim_property::entropy::{draw_between, draw_index, draw_integer, integer_from_draw};
use sim_property::generate::generator_weights;

#[test]
fn sum_of_weights() {
    assert_eq!(sum_weights(&vec![]), 0);
    assert_eq!(sum_weights(&vec![3, 0, 4]), 7);
}

#[test]
fn pick_walks_the_cumulative_intervals() {
    let weights: Vec<u128> = vec![2, 0, 3, 1];
    let picks: Vec<usize> = (0..6).map(|draw| pick_weighted(&weights, draw)).collect();
    assert_eq!(picks, vec![0, 0, 2, 2, 2, 3]);
}

#[test]
fn pick_never_lands_on_a_zero_weight() {
    let weights: Vec<u128> = vec![0, 5, 0];
    for draw in 0..5 {
        assert_eq!(pick_weighted(&weights, draw), 1);
    }
}

#[test]
fn generator_weights_are_min_and_half() {
    let left = Remaining {
        read: 5 * UNITS_PER_INTERACTION,
        write: 3 * UNITS_PER_INTERACTION,
        create: 4 * UNITS_PER_INTERACTION,
    };
    assert_eq!(
        generator_weights(&left),
        vec![3 * UNITS_PER_INTERACTION, 2 * UNITS_PER_INTERACTION]
    );
    let odd = Remaining { read: 1, write: 9, create: 7 };
    assert_eq!(generator_weights(&odd), vec![1, 3]);
}

#[test]
fn zero_create_weight_always_selects_insert_select() {
    let left = Remaining {
        read: 5 * UNITS_PER_INTERACTION,
        write: 5 * UNITS_PER_INTERACTION,
        create: 0,
    };
    let weights = generator_weights(&left);
    assert_eq!(weights, vec![5 * UNITS_PER_INTERACTION, 0]);
    for draw in [0, 1, UNITS_PER_INTERACTION, 5 * UNITS_PER_INTERACTION - 1] {
        assert_eq!(pick_weighted(&weights, draw), 0);
    }
    let mut rng = StdRng::seed_from_u64(11);
    for _ in 0..200 {
        assert_eq!(choose_weighted(&mut rng, &weights), 0);
    }
}

#[test]
fn choose_with_all_weights_zero_still_chooses() {
    let mut rng = StdRng::seed_from_u64(3);
    let weights: Vec<u128> = vec![0, 0];
    let mut seen = [false, false];
    for _ in 0..200 {
        seen[choose_weighted(&mut rng, &weights)] = true;
    }
    assert_eq!(seen, [true, true]);
}

#[test]
fn choose_follows_the_weights() {
    let mut rng = StdRng::seed_from_u64(5);
    let weights: Vec<u128> = vec![1, 0, 9];
    let mut hits = [0usize; 3];
    for _ in 0..1000 {
        hits[choose_weighted(&mut rng, &weights)] += 1;
    }
    assert_eq!(hits[1], 0);
    assert!(hits[0] > 0 && hits[2] > hits[0]);
}

#[test]
fn draws_stay_in_range() {
    let mut rng = StdRng::seed_from_u64(1);
    for _ in 0..100 {
        assert_eq!(draw_index(&mut rng, 1), 0);
        assert!(draw_index(&mut rng, 7) < 7);
        let d = draw_between(&mut rng, 3, 5);
        assert!((3..=5).contains(&d));
        assert_eq!(draw_between(&mut rng, 4, 4), 4);
    }
}

#[test]
fn integer_draws_cover_both_signs() {
    let mut rng = StdRng::seed_from_u64(2);
    let draws: Vec<i64> = (0..64).map(|_| draw_integer(&mut rng)).collect();
    assert!(draws.iter().any(|d| *d < 0));
    assert!(draws.iter().any(|d| *d > 0));
}

#[test]
fn same_seed_same_draws() {
    let mut a = StdRng::seed_from_u64(99);
    let mut b = StdRng::seed_from_u64(99);
    for _ in 0..50 {
        assert_eq!(draw_index(&mut a, 1000), draw_index(&mut b, 1000));
    }
}

#[test]
fn drawn_numbers_read_as_twos_complement() {
    assert_eq!(integer_from_draw(0), 0);
    assert_eq!(integer_from_draw(1), 1);
    assert_eq!(integer_from_draw(0x7fff_ffff_ffff_ffff), i64::MAX);
    assert_eq!(integer_from_draw(0x8000_0000_0000_0000), i64::MIN);
    assert_eq!(integer_from_draw(0xffff_ffff_ffff_ffff), -1);
    assert_eq!(integer_from_draw(0xffff_ffff_ffff_fff6), -10);
}
