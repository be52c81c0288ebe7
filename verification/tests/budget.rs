use sim_property::budget::{remaining, Remaining, QUOTA_LIMIT, UNITS_PER_INTERACTION};
use sim_property::env::{Percent, SimulatorEnv, SimulatorOpts, MILLIONTHS_PER_PERCENT};
use sim_property::plan::InteractionStats;

fn env_with(max_interactions: usize, read: u8, write: u8, create: u8) -> SimulatorEnv {
    SimulatorEnv {
        tables: Vec::new(),
        opts: SimulatorOpts {
            max_interactions,
            read_percent: Percent::from_whole(read),
            write_percent: Percent::from_whole(write),
            create_percent: Percent::from_whole(create),
        },
    }
}

fn stats(read_count: usize, write_count: usize, create_count: usize) -> InteractionStats {
    InteractionStats { read_count, write_count, create_count }
}

#[test]
fn percent_from_whole_scales_by_a_million() {
    assert_eq!(Percent::from_whole(0).millionths, 0);
    assert_eq!(Percent::from_whole(50).millionths, 50 * MILLIONTHS_PER_PERCENT);
    assert_eq!(Percent::from_whole(100).millionths, 100_000_000);
}

#[test]
fn remaining_of_fresh_run_is_the_target() {
    let left = remaining(&env_with(10, 50, 50, 0), &stats(0, 0, 0));
    assert_eq!(
        left,
        Remaining {
            read: 5 * UNITS_PER_INTERACTION,
            write: 5 * UNITS_PER_INTERACTION,
            create: 0,
        }
    );
}

#[test]
fn remaining_subtracts_what_was_observed() {
    let left = remaining(&env_with(200, 25, 10, 5), &stats(20, 20, 3));
    assert_eq!(left.read, 30 * UNITS_PER_INTERACTION);
    assert_eq!(left.write, 0);
    assert_eq!(left.create, 7 * UNITS_PER_INTERACTION);
}

#[test]
fn remaining_is_zero_once_the_target_is_passed() {
    let left = remaining(&env_with(10, 50, 50, 0), &stats(6, 5, 1));
    assert_eq!(left, Remaining { read: 0, write: 0, create: 0 });
}

#[test]
fn remaining_keeps_fractions_of_an_interaction() {
    let env = SimulatorEnv {
        tables: Vec::new(),
        opts: SimulatorOpts {
            max_interactions: 3,
            read_percent: Percent { millionths: 33_333_333 },
            write_percent: Percent { millionths: 1 },
            create_percent: Percent { millionths: 50_000_000 },
        },
    };
    let left = remaining(&env, &stats(0, 0, 1));
    assert_eq!(left.read, 2 * 3 * 33_333_333);
    assert_eq!(left.write, 6);
    assert_eq!(left.create, UNITS_PER_INTERACTION / 2);
}

#[test]
fn remaining_stays_below_the_limit_at_the_extremes() {
    let env = SimulatorEnv {
        tables: Vec::new(),
        opts: SimulatorOpts {
            max_interactions: usize::MAX,
            read_percent: Percent { millionths: u32::MAX },
            write_percent: Percent::from_whole(100),
            create_percent: Percent::from_whole(0),
        },
    };
    let left = remaining(&env, &stats(0, usize::MAX, usize::MAX));
    assert_eq!(left.read, 2 * (usize::MAX as u128) * (u32::MAX as u128));
    assert!(left.read < QUOTA_LIMIT);
    assert_eq!(left.write, 0);
    assert_eq!(left.create, 0);
}
