//! Budget planner: derives the two sequential phase durations (exploration,
//! compression) from one overall time limit and fixed ratio constants. Pure
//! and deterministic; when no limit is supplied a fixed default is
//! substituted and the substitution is reported to the caller.

use vstd::prelude::*;

verus! {

/// Share of the overall time limit spent exploring, in thousandths.
pub const EXPLORE_TIME_PERMILLE: u64 = 800;

/// Share of the overall time limit spent compressing, in thousandths.
pub const COMPRESS_TIME_PERMILLE: u64 = 200;

/// Overall time limit substituted when the caller supplies none, in seconds.
pub const DEFAULT_TIME_LIMIT_SECS: u64 = 600;

/// Largest overall time limit, in seconds, whose millisecond budget still
/// fits in 64 bits.
pub const MAX_TIME_LIMIT_SECS: u64 = u64::MAX / 1000;

/// The two phase durations derived from one overall time limit, plus whether
/// the fixed default limit had to be substituted for a missing one.
#[derive(Clone, Copy, Debug)]
pub struct PhaseBudget {
    /// Duration of the exploration phase, in milliseconds.
    pub exploration_ms: u64,
    /// Duration of the compression phase, in milliseconds.
    pub compression_ms: u64,
    /// True iff no overall limit was supplied and the default was used; the
    /// caller is expected to surface this as a log-level event, not an error.
    pub used_default: bool,
}

/// The overall time limit in force: the supplied one, or the default.
pub open spec fn spec_overall_secs(time_limit_secs: Option<u64>) -> u64 {
    match time_limit_secs {
        Some(t) => t,
        None => DEFAULT_TIME_LIMIT_SECS,
    }
}

/// Exploration duration in milliseconds: the overall limit times the
/// exploration ratio.
pub open spec fn spec_exploration_ms(time_limit_secs: Option<u64>) -> int {
    spec_overall_secs(time_limit_secs) * EXPLORE_TIME_PERMILLE
}

/// Compression duration in milliseconds: the overall limit times the
/// compression ratio.
pub open spec fn spec_compression_ms(time_limit_secs: Option<u64>) -> int {
    spec_overall_secs(time_limit_secs) * COMPRESS_TIME_PERMILLE
}

/// Derives the phase budget from an optional overall time limit in seconds.
///
/// Each phase receives its fixed share of the limit; with no limit given,
/// the default overall limit is applied instead and reported in
/// `used_default`.
pub fn plan_phase_budget(time_limit_secs: Option<u64>) -> (budget: PhaseBudget)
    requires
        time_limit_secs matches Some(t) ==> t <= MAX_TIME_LIMIT_SECS,
    ensures
        budget.exploration_ms == spec_exploration_ms(time_limit_secs),
        budget.compression_ms == spec_compression_ms(time_limit_secs),
        budget.exploration_ms + budget.compression_ms
            <= spec_overall_secs(time_limit_secs) * 1000,
        budget.used_default <==> time_limit_secs is None,
{
    let (overall, used_default): (u64, bool) = match time_limit_secs {
        Some(t) => (t, false),
        None => (DEFAULT_TIME_LIMIT_SECS, true),
    };
    PhaseBudget {
        exploration_ms: overall * EXPLORE_TIME_PERMILLE,
        compression_ms: overall * COMPRESS_TIME_PERMILLE,
        used_default,
    }
}

/// For every overall time limit, the two phase durations are non-negative
/// and their sum never exceeds the limit itself (in milliseconds).
pub proof fn lemma_budget_within_limit(time_limit_secs: Option<u64>)
    ensures
        spec_exploration_ms(time_limit_secs) >= 0,
        spec_compression_ms(time_limit_secs) >= 0,
        spec_exploration_ms(time_limit_secs) + spec_compression_ms(time_limit_secs)
            <= spec_overall_secs(time_limit_secs) * 1000,
{
}

} // verus!
