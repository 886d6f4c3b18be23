use aargal::config::schema::{ScoringConfig, ScoringWeights};
use aargal::engine::scoring::{score_ip, ScoreReason};
use aargal::model::ip_state::IpState;

fn test_config() -> ScoringConfig {
    ScoringConfig {
        threshold: 100,
        weights: ScoringWeights {
            rate: 40,
            error: 30,
            user_agent: 20,
            path_entropy: 10,
        },
    }
}

fn test_state() -> IpState {
    IpState::new("1.2.3.4".to_string(), 0)
}

#[test]
fn scores_request_rate() {
    let mut state = test_state();
    state.request_count = 50;

    let result = score_ip(&state, &test_config());

    assert!(result.score > 0);
    assert_eq!(result.reasons.len(), 1);
}

#[test]
fn scores_error_rate() {
    let mut state = test_state();
    state.error_count = 10;

    let result = score_ip(&state, &test_config());

    assert!(result.score > 0);
    assert_eq!(result.reasons.len(), 1);
}

#[test]
fn scores_multiple_signals() {
    let mut state = test_state();
    state.request_count = 30;
    state.error_count = 10;

    let result = score_ip(&state, &test_config());

    assert!(result.score > 0);
    assert_eq!(result.reasons.len(), 2);
}

#[test]
fn zero_activity_scores_zero() {
    let state = test_state();

    let result = score_ip(&state, &test_config());

    assert_eq!(result.score, 0);
    assert!(result.reasons.is_empty());
}

#[test]
fn score_is_sum_of_capped_counts() {
    let mut state = test_state();
    state.request_count = 55;
    state.error_count = 10;
    let result = score_ip(&state, &test_config());
    assert_eq!(result.score, 50);
    assert_eq!(
        result.reasons,
        vec![ScoreReason::HighRate { count: 55 }, ScoreReason::HighErrorRate { errors: 10 }]
    );

    state.request_count = 12;
    state.error_count = 31;
    let result = score_ip(&state, &test_config());
    assert_eq!(result.score, 12 + 30);
}

#[test]
fn huge_counts_are_capped_at_weights() {
    let mut state = test_state();
    state.request_count = u64::MAX;
    state.error_count = (u32::MAX as u64) + 5;
    let cfg = ScoringConfig {
        threshold: 1,
        weights: ScoringWeights { rate: u32::MAX, error: u32::MAX, user_agent: 0, path_entropy: 0 },
    };
    let result = score_ip(&state, &cfg);
    assert_eq!(result.score, 2 * (u32::MAX as u64));
}

#[test]
fn only_errors_give_only_error_reason() {
    let mut state = test_state();
    state.error_count = 3;
    let result = score_ip(&state, &test_config());
    assert_eq!(result.score, 3);
    assert_eq!(result.reasons, vec![ScoreReason::HighErrorRate { errors: 3 }]);
}
