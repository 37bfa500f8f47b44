//! Run configuration: the caller-facing configuration record, the raw input
//! record it is built from, and the derived per-phase optimizer
//! configurations, including the optional early-termination tightening.

use vstd::prelude::*;

use crate::budget::COMPRESS_TIME_PERMILLE;
use crate::budget::EXPLORE_TIME_PERMILLE;
use crate::budget::MAX_TIME_LIMIT_SECS;
use crate::budget::spec_overall_secs;

verus! {

/// Fallback overall time limit applied when building a configuration from a
/// raw input record with no limit, in seconds.
pub const FALLBACK_TIME_LIMIT_SECS: u64 = 300;

/// Consecutive-failed-attempts bound imposed on the exploration phase when
/// early termination is enabled.
pub const EARLY_TERMINATION_MAX_FAILS: u64 = 200;

/// Failure-decay ratio, in thousandths, used by the compression phase when
/// early termination is enabled.
pub const EARLY_TERMINATION_DECAY_PERMILLE: u64 = 980;

/// Configuration for one nesting optimization run. Immutable once built.
#[derive(Clone, Copy, Debug)]
pub struct NestingConfig {
    /// Overall time limit in seconds; `None` lets the budget planner
    /// substitute its default.
    pub time_limit: Option<u64>,
    /// Random seed for reproducibility; `None` draws a fresh one.
    pub seed: Option<u64>,
    /// Enable early termination when the solution stabilizes.
    pub use_early_termination: bool,
    /// Number of worker threads handed to the optimizer.
    pub n_workers: usize,
}

impl NestingConfig {
    /// The default configuration: a fallback time limit, no seed, no early
    /// termination, one worker.
    pub open spec fn spec_default() -> NestingConfig {
        NestingConfig {
            time_limit: Some(FALLBACK_TIME_LIMIT_SECS),
            seed: None,
            use_early_termination: false,
            n_workers: 1,
        }
    }
}

impl Default for NestingConfig {
    /// The default configuration, as `spec_default` states it.
    fn default() -> (r: NestingConfig)
        ensures
            r == NestingConfig::spec_default(),
    {
        NestingConfig {
            time_limit: Some(FALLBACK_TIME_LIMIT_SECS),
            seed: None,
            use_early_termination: false,
            n_workers: 1,
        }
    }
}

/// Raw input configuration as a caller hands it over, every field optional
/// but the instance text itself.
#[derive(Clone, Debug)]
pub struct NestingInput {
    /// Textual problem definition to be parsed and imported.
    pub json_input: String,
    /// Overall time limit in seconds.
    pub time_limit: Option<u64>,
    /// Random seed for reproducibility.
    pub seed: Option<u64>,
    /// Enable early termination when the solution stabilizes.
    pub use_early_termination: Option<bool>,
    /// Number of worker threads.
    pub n_workers: Option<usize>,
}

/// The configuration implied by a raw input record: missing fields take the
/// documented fallbacks.
pub open spec fn spec_config_of_input(input: NestingInput) -> NestingConfig {
    NestingConfig {
        time_limit: match input.time_limit {
            Some(t) => Some(t),
            None => Some(FALLBACK_TIME_LIMIT_SECS),
        },
        seed: input.seed,
        use_early_termination: match input.use_early_termination {
            Some(b) => b,
            None => false,
        },
        n_workers: match input.n_workers {
            Some(n) => n,
            None => 1,
        },
    }
}

impl NestingInput {
    /// Builds the run configuration from this record: a missing time limit
    /// falls back to the fixed default, missing flags to off, a missing
    /// worker count to one.
    pub fn to_config(&self) -> (r: NestingConfig)
        ensures
            r == spec_config_of_input(*self),
    {
        NestingConfig {
            time_limit: match self.time_limit {
                Some(t) => Some(t),
                None => Some(FALLBACK_TIME_LIMIT_SECS),
            },
            seed: self.seed,
            use_early_termination: match self.use_early_termination {
                Some(b) => b,
                None => false,
            },
            n_workers: match self.n_workers {
                Some(n) => n,
                None => 1,
            },
        }
    }
}

/// How the compression phase shrinks the strip over time.
#[derive(Clone, Copy, Debug, PartialEq, Eq, Structural)]
pub enum ShrinkDecay {
    /// Shrink according to elapsed time; the default strategy.
    TimeBased,
    /// Shrink according to consecutive failures, with the given decay ratio
    /// in thousandths; selected by the early-termination option.
    FailureBased(u64),
}

/// Configuration of one optimization phase, as handed to the optimizer.
#[derive(Clone, Copy, Debug)]
pub struct PhaseConfig {
    /// Time limit of this phase, in milliseconds.
    pub time_limit_ms: u64,
    /// Number of worker threads for this phase.
    pub n_workers: usize,
    /// Bound on consecutive failed attempts before the phase gives up;
    /// `None` leaves the optimizer's default untouched.
    pub max_conseq_failed_attempts: Option<u64>,
    /// Strip shrink strategy of this phase.
    pub shrink_decay: ShrinkDecay,
}

/// The exploration-phase configuration implied by a run configuration.
pub open spec fn spec_exploration_config(config: NestingConfig) -> PhaseConfig {
    PhaseConfig {
        time_limit_ms: (spec_overall_secs(config.time_limit) * EXPLORE_TIME_PERMILLE) as u64,
        n_workers: config.n_workers,
        max_conseq_failed_attempts: if config.use_early_termination {
            Some(EARLY_TERMINATION_MAX_FAILS)
        } else {
            None
        },
        shrink_decay: ShrinkDecay::TimeBased,
    }
}

/// The compression-phase configuration implied by a run configuration.
pub open spec fn spec_compression_config(config: NestingConfig) -> PhaseConfig {
    PhaseConfig {
        time_limit_ms: (spec_overall_secs(config.time_limit) * COMPRESS_TIME_PERMILLE) as u64,
        n_workers: config.n_workers,
        max_conseq_failed_attempts: None,
        shrink_decay: if config.use_early_termination {
            ShrinkDecay::FailureBased(EARLY_TERMINATION_DECAY_PERMILLE)
        } else {
            ShrinkDecay::TimeBased
        },
    }
}

/// Everything this layer derives for the optimizer is a pure function of the
/// run configuration: two runs with identical configurations hand the
/// optimizer identical phase configurations (and `run_nesting` passes an
/// explicit seed through unchanged), so any difference between two same-seed
/// runs originates in the optimizer collaborator, not in this layer.
pub proof fn lemma_phase_derivation_deterministic(c1: NestingConfig, c2: NestingConfig)
    requires
        c1 == c2,
    ensures
        spec_exploration_config(c1) == spec_exploration_config(c2),
        spec_compression_config(c1) == spec_compression_config(c2),
{
}

/// Builds both phase configurations from one run configuration: each phase
/// receives its share of the time budget and the worker count; enabling
/// early termination tightens the exploration failure bound and switches the
/// compression shrink strategy to failure decay, and changes nothing else.
pub fn build_phase_configs(config: &NestingConfig) -> (r: (PhaseConfig, PhaseConfig))
    requires
        config.time_limit matches Some(t) ==> t <= MAX_TIME_LIMIT_SECS,
    ensures
        r.0 == spec_exploration_config(*config),
        r.1 == spec_compression_config(*config),
{
    let budget = crate::budget::plan_phase_budget(config.time_limit);
    let exploration = PhaseConfig {
        time_limit_ms: budget.exploration_ms,
        n_workers: config.n_workers,
        max_conseq_failed_attempts: if config.use_early_termination {
            Some(EARLY_TERMINATION_MAX_FAILS)
        } else {
            None
        },
        shrink_decay: ShrinkDecay::TimeBased,
    };
    let compression = PhaseConfig {
        time_limit_ms: budget.compression_ms,
        n_workers: config.n_workers,
        max_conseq_failed_attempts: None,
        shrink_decay: if config.use_early_termination {
            ShrinkDecay::FailureBased(EARLY_TERMINATION_DECAY_PERMILLE)
        } else {
            ShrinkDecay::TimeBased
        },
    };
    (exploration, compression)
}

} // verus!
