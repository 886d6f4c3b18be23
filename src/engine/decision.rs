use vstd::prelude::*;

use crate::config::schema::{GeneralConfig, RunMode, ScoringConfig};
use crate::engine::scoring::ScoreResult;

verus! {

/// What to do about an address.
#[derive(Debug, Clone, Copy, PartialEq, Eq, Structural)]
pub enum Decision {
    Allow,
    Detect,
    Block,
}

/// The decision for a score: below the threshold it is allowed; at or above it,
/// detected in detect mode and blocked in enforce mode.
pub open spec fn decision_for(score: int, threshold: int, mode: RunMode) -> Decision {
    if score < threshold {
        Decision::Allow
    } else {
        match mode {
            RunMode::Detect => Decision::Detect,
            RunMode::Enforce => Decision::Block,
        }
    }
}

/// Compares a score with the configured threshold under the operating mode.
pub fn decide(score: &ScoreResult, general: &GeneralConfig, scoring: &ScoringConfig) -> (d: Decision)
    ensures
        d == decision_for(score.score as int, scoring.threshold as int, general.mode),
        general.mode == RunMode::Detect ==> d != Decision::Block,
{
    if score.score >= scoring.threshold as u64 {
        match general.mode {
            RunMode::Detect => Decision::Detect,
            RunMode::Enforce => Decision::Block,
        }
    } else {
        Decision::Allow
    }
}

/// A score one below the threshold is allowed, and a score equal to the
/// threshold is not: it is detected in detect mode and blocked in enforce mode.
pub proof fn lemma_threshold_boundary(threshold: u32, mode: RunMode)
    requires
        threshold > 0,
    ensures
        decision_for(threshold - 1, threshold as int, mode) == Decision::Allow,
        decision_for(threshold as int, threshold as int, mode) != Decision::Allow,
        decision_for(threshold as int, threshold as int, mode) == (match mode {
            RunMode::Detect => Decision::Detect,
            RunMode::Enforce => Decision::Block,
        }),
{
}

} // verus!
