//! The simulator environment as generation sees it: table schemas and the
//! workload options. Generation only reads it.

use vstd::prelude::*;
use crate::table::{Table, TableView};

verus! {

/// How many millionths make one percent.
pub const MILLIONTHS_PER_PERCENT: u32 = 1_000_000;

/// A percentage in fixed point, counted in millionths of a percent, so that
/// `50%` is `50 * MILLIONTHS_PER_PERCENT`.
#[derive(Clone, Copy, Debug, PartialEq, Eq, Structural)]
pub struct Percent {
    pub millionths: u32,
}

impl Percent {
    /// A percentage lies between 0 and 100.
    pub open spec fn valid(self) -> bool {
        self.millionths <= 100 * MILLIONTHS_PER_PERCENT
    }

    /// A whole number of percent.
    pub fn from_whole(percent: u8) -> (res: Percent)
        ensures
            res.millionths == percent * MILLIONTHS_PER_PERCENT,
            res.valid() <==> percent <= 100,
    {
        let whole: u32 = percent as u32;
        Percent { millionths: whole * MILLIONTHS_PER_PERCENT }
    }
}

/// The workload targets of a simulation run.
#[derive(Clone, Copy, Debug)]
pub struct SimulatorOpts {
    /// The total interaction budget.
    pub max_interactions: usize,
    /// The share of reads in the target workload.
    pub read_percent: Percent,
    /// The share of writes in the target workload.
    pub write_percent: Percent,
    /// The share of table creations in the target workload.
    pub create_percent: Percent,
}

/// What generation observes of the simulator.
#[derive(Debug)]
pub struct SimulatorEnv {
    pub tables: Vec<Table>,
    pub opts: SimulatorOpts,
}

/// The mathematical content of a [`SimulatorEnv`].
pub struct EnvView {
    pub tables: Seq<TableView>,
    pub opts: SimulatorOpts,
}

impl DeepView for SimulatorEnv {
    type V = EnvView;

    open spec fn deep_view(&self) -> EnvView {
        EnvView { tables: self.tables.deep_view(), opts: self.opts }
    }
}

impl View for SimulatorEnv {
    type V = EnvView;

    open spec fn view(&self) -> EnvView {
        self.deep_view()
    }
}

} // verus!
