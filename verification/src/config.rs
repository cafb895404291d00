//! Configuration of the two phases: per-phase time limits, the exploration
//! failure budget, the compression shrink-decay policy, and the nested
//! Separator tuning. Loaded once, immutable afterwards.
use crate::model::COORD_LIMIT;
use crate::separator::SeparatorConfig;
use vstd::prelude::*;

verus! {

/// How the compression shrink step decays after failed attempts.
#[derive(Clone, Copy, PartialEq, Eq, Structural, Debug)]
pub enum ShrinkDecayStrategy {
    /// After each failed shrink, multiply the step by `num / den` (a ratio
    /// below one).
    FailureBased(u64, u64),
}

impl ShrinkDecayStrategy {
    /// The ratio must be a proper fraction.
    pub open spec fn wf(self) -> bool {
        match self {
            ShrinkDecayStrategy::FailureBased(num, den) => num < den && 1 <= den <= COORD_LIMIT,
        }
    }
}

/// Configuration of the exploration phase.
#[derive(Clone, Copy, PartialEq, Eq, Structural, Debug)]
pub struct ExploreConfig {
    /// Time budget of the phase in milliseconds.
    pub time_limit_ms: u64,
    /// Consecutive failed attempts tolerated before backing off by widening
    /// the strip; unset means never back off.
    pub max_conseq_failed_attempts: Option<u64>,
    /// Separator steps per attempt.
    pub inner_steps: usize,
    /// Numerator of the width-reduction ratio applied after feasibility.
    pub shrink_num: u64,
    /// Denominator of the width-reduction ratio.
    pub shrink_den: u64,
    /// The nested Separator tuning.
    pub separator: SeparatorConfig,
}

impl ExploreConfig {
    /// Ratios must be proper fractions and the inner budget positive.
    pub open spec fn wf(self) -> bool {
        &&& self.separator.wf()
        &&& 1 <= self.inner_steps <= 0x10000000
        &&& 1 <= self.shrink_den <= COORD_LIMIT
        &&& self.shrink_num < self.shrink_den
    }
}

/// Configuration of the compression phase.
#[derive(Clone, Copy, PartialEq, Eq, Structural, Debug)]
pub struct CompressConfig {
    /// Time budget of the phase in milliseconds.
    pub time_limit_ms: u64,
    /// The initial shrink step is the strip width divided by this.
    pub init_step_div: u64,
    /// How the shrink step decays after failures.
    pub shrink_decay: ShrinkDecayStrategy,
    /// Separator steps per shrink attempt.
    pub inner_steps: usize,
    /// The nested Separator tuning.
    pub separator: SeparatorConfig,
}

impl CompressConfig {
    /// The divisors must be positive and the inner budget bounded.
    pub open spec fn wf(self) -> bool {
        &&& self.separator.wf()
        &&& 1 <= self.inner_steps <= 0x10000000
        &&& 1 <= self.init_step_div <= COORD_LIMIT
        &&& self.shrink_decay.wf()
    }
}

/// The default Separator tuning: a modest batch per worker, light jitter,
/// and a one-in-fifty escape acceptance.
pub fn default_separator_config(n_workers: usize) -> (r: SeparatorConfig)
    requires
        1 <= n_workers <= 0x10000,
    ensures
        r.wf(),
        r.n_workers == n_workers,
{
    SeparatorConfig {
        n_workers,
        samples_per_worker: 16,
        jitter: 64,
        accept_num: 1,
        accept_den: 50,
    }
}

/// The default exploration configuration: shrink by half a percent on each
/// feasible layout, back off after five consecutive failed attempts.
pub fn default_explore_config(time_limit_ms: u64, n_workers: usize) -> (r: ExploreConfig)
    requires
        1 <= n_workers <= 0x10000,
    ensures
        r.wf(),
        r.time_limit_ms == time_limit_ms,
{
    ExploreConfig {
        time_limit_ms,
        max_conseq_failed_attempts: Option::Some(5),
        inner_steps: 256,
        shrink_num: 995,
        shrink_den: 1000,
        separator: default_separator_config(n_workers),
    }
}

/// The default compression configuration: start with a twentieth of the
/// width and halve the step after each failed shrink.
pub fn default_compress_config(time_limit_ms: u64, n_workers: usize) -> (r: CompressConfig)
    requires
        1 <= n_workers <= 0x10000,
    ensures
        r.wf(),
        r.time_limit_ms == time_limit_ms,
{
    CompressConfig {
        time_limit_ms,
        init_step_div: 20,
        shrink_decay: ShrinkDecayStrategy::FailureBased(1, 2),
        inner_steps: 256,
        separator: default_separator_config(n_workers),
    }
}

} // verus!
