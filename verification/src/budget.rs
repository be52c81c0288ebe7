//! The budget tracker: what is left of the target workload, by category.
//!
//! Quotas are fixed-point numbers. One interaction is
//! [`UNITS_PER_INTERACTION`] quota units: a hundred times
//! [`MILLIONTHS_PER_PERCENT`], so that applying a percentage is exact, times
//! two, so that halving a quota is exact as well.

use vstd::prelude::*;
use crate::env::{Percent, SimulatorEnv, SimulatorOpts, MILLIONTHS_PER_PERCENT};
use crate::plan::InteractionStats;

verus! {

/// How many quota units make one interaction.
pub const UNITS_PER_INTERACTION: u128 = 200_000_000;

/// No quota that the tracker computes reaches this limit.
pub const QUOTA_LIMIT: u128 = 0x10_0000_0000_0000_0000_0000_0000;

/// What is left of the target workload in each category, in quota units.
/// A quota is never negative.
#[derive(Clone, Copy, Debug, PartialEq, Eq, Structural)]
pub struct Remaining {
    pub read: u128,
    pub write: u128,
    pub create: u128,
}

impl Remaining {
    /// Every quota is below [`QUOTA_LIMIT`], so that sums of quotas fit.
    pub open spec fn bounded(self) -> bool {
        self.read < QUOTA_LIMIT && self.write < QUOTA_LIMIT && self.create < QUOTA_LIMIT
    }
}

/// The target of a category in quota units: the share `percent` of
/// `max_interactions` interactions, that is
/// `max_interactions * percent / 100` interactions.
pub open spec fn target(max_interactions: int, percent: Percent) -> int {
    2 * max_interactions * percent.millionths
}

/// What is left of a category in quota units: its target less what was
/// observed, and zero where more was observed than targeted.
pub open spec fn quota(max_interactions: int, percent: Percent, observed: int) -> int {
    let left = target(max_interactions, percent) - observed * UNITS_PER_INTERACTION;
    if left > 0 {
        left
    } else {
        0
    }
}

/// What is left of the target workload, each category computed on its own.
pub open spec fn quotas(opts: SimulatorOpts, stats: InteractionStats) -> Remaining {
    Remaining {
        read: quota(opts.max_interactions as int, opts.read_percent, stats.read_count as int) as u128,
        write: quota(
            opts.max_interactions as int,
            opts.write_percent,
            stats.write_count as int,
        ) as u128,
        create: quota(
            opts.max_interactions as int,
            opts.create_percent,
            stats.create_count as int,
        ) as u128,
    }
}

/// The quota of one category.
fn quota_of(max_interactions: usize, percent: Percent, observed: usize) -> (res: u128)
    ensures
        res == quota(max_interactions as int, percent, observed as int),
        res < QUOTA_LIMIT,
        res % 2 == 0,
{
    let max: u128 = max_interactions as u128;
    let share: u128 = percent.millionths as u128;
    let seen: u128 = observed as u128;
    assert(max * share <= 0xffff_ffff_ffff_ffff * 0xffff_ffff) by (nonlinear_arith)
        requires
            max <= 0xffff_ffff_ffff_ffff,
            share <= 0xffff_ffff,
    ;
    let aim: u128 = 2 * (max * share);
    let used: u128 = 2 * (seen * 100_000_000);
    assert(aim == 2 * max * share) by (nonlinear_arith)
        requires
            aim == 2 * (max * share),
    ;
    if aim > used {
        aim - used
    } else {
        0
    }
}

/// Computes what is left in each category from the workload targets and the
/// running counters. Each category is computed on its own.
pub fn remaining(env: &SimulatorEnv, stats: &InteractionStats) -> (res: Remaining)
    ensures
        res.read == quota(
            env.opts.max_interactions as int,
            env.opts.read_percent,
            stats.read_count as int,
        ),
        res.write == quota(
            env.opts.max_interactions as int,
            env.opts.write_percent,
            stats.write_count as int,
        ),
        res.create == quota(
            env.opts.max_interactions as int,
            env.opts.create_percent,
            stats.create_count as int,
        ),
        res == quotas(env.opts, *stats),
        res.bounded(),
        res.create % 2 == 0,
{
    Remaining {
        read: quota_of(env.opts.max_interactions, env.opts.read_percent, stats.read_count),
        write: quota_of(env.opts.max_interactions, env.opts.write_percent, stats.write_count),
        create: quota_of(env.opts.max_interactions, env.opts.create_percent, stats.create_count),
    }
}

/// A quota is never negative, whatever the targets and the counters; it is
/// zero exactly where the observed count has reached the target.
pub proof fn lemma_quota_nonnegative(max_interactions: int, percent: Percent, observed: int)
    ensures
        quota(max_interactions, percent, observed) >= 0,
        quota(max_interactions, percent, observed) == 0 <==> observed * UNITS_PER_INTERACTION
            >= target(max_interactions, percent),
{
}

/// A whole number of percent of a whole budget, less what was observed,
/// comes out in whole hundredths of an interaction.
pub proof fn lemma_quota_whole_percent(max_interactions: nat, percent: nat, observed: nat)
    requires
        percent <= 100,
        max_interactions * percent >= 100 * observed,
    ensures
        quota(
            max_interactions as int,
            Percent { millionths: (percent * MILLIONTHS_PER_PERCENT) as u32 },
            observed as int,
        ) * 100 == (max_interactions * percent - 100 * observed) * UNITS_PER_INTERACTION,
{
    assert(2 * max_interactions * (percent * 1_000_000) * 100 == (max_interactions * percent)
        * 200_000_000) by (nonlinear_arith);
}

} // verus!
