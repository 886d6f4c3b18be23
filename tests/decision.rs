use aargal::config::schema::{GeneralConfig, RunMode, ScoringConfig, ScoringWeights};
use aargal::engine::decision::{decide, Decision};
use aargal::engine::scoring::{ScoreReason, ScoreResult};

fn general_detect() -> GeneralConfig {
    GeneralConfig {
        mode: RunMode::Detect,
        state_ttl_seconds: 3600,
    }
}

fn general_enforce() -> GeneralConfig {
    GeneralConfig {
        mode: RunMode::Enforce,
        state_ttl_seconds: 3600,
    }
}

fn score(value: u32) -> ScoreResult {
    ScoreResult {
        score: value as u64,
        reasons: vec![ScoreReason::HighRate { count: 100 }],
    }
}

fn dummy_weights() -> ScoringWeights {
    ScoringWeights {
        rate: 1,
        error: 1,
        user_agent: 1,
        path_entropy: 1,
    }
}

fn scoring() -> ScoringConfig {
    ScoringConfig {
        threshold: 100,
        weights: dummy_weights(),
    }
}

#[test]
fn allows_when_below_threshold() {
    let decision = decide(&score(50), &general_detect(), &scoring());
    assert_eq!(decision, Decision::Allow);
}

#[test]
fn detects_when_above_threshold_in_detect_mode() {
    let decision = decide(&score(120), &general_detect(), &scoring());
    assert_eq!(decision, Decision::Detect);
}

#[test]
fn blocks_when_above_threshold_in_enforce_mode() {
    let decision = decide(&score(120), &general_enforce(), &scoring());
    assert_eq!(decision, Decision::Block);
}

#[test]
fn threshold_boundary_is_inclusive() {
    assert_eq!(decide(&score(99), &general_detect(), &scoring()), Decision::Allow);
    assert_eq!(decide(&score(99), &general_enforce(), &scoring()), Decision::Allow);
    assert_eq!(decide(&score(100), &general_detect(), &scoring()), Decision::Detect);
    assert_eq!(decide(&score(100), &general_enforce(), &scoring()), Decision::Block);
}

#[test]
fn detect_mode_never_blocks() {
    for v in [0u32, 1, 99, 100, 101, 1000, u32::MAX] {
        assert_ne!(decide(&score(v), &general_detect(), &scoring()), Decision::Block);
    }
}
