use aargal::config::schema::{BlockAction, Fail2BanConfig};
use aargal::engine::action::ActionResult;
use aargal::engine::scoring::{ScoreReason, ScoreResult};
use aargal::output::executor::{execute_action, ActionEffect, ExecutorError};

fn score() -> ScoreResult {
    ScoreResult {
        score: 120,
        reasons: vec![ScoreReason::HighRate { count: 50 }],
    }
}

#[test]
fn allows_none_action() {
    let result = execute_action(ActionResult::NoAction, "1.2.3.4", &score(), None);
    assert!(result.is_ok());
}

#[test]
fn allows_detect_only() {
    let result = execute_action(ActionResult::DetectOnly, "1.2.3.4", &score(), None);
    assert!(result.is_ok());
}

#[test]
fn fails_fail2ban_when_config_missing() {
    let result = execute_action(
        ActionResult::Block(BlockAction::Fail2ban),
        "1.2.3.4",
        &score(),
        None,
    );
    assert!(result.is_err());
}

#[test]
fn allows_log_block() {
    let result = execute_action(
        ActionResult::Block(BlockAction::Log),
        "1.2.3.4",
        &score(),
        None,
    );
    assert!(result.is_ok());
}

#[test]
fn missing_ban_config_is_a_configuration_error() {
    match execute_action(ActionResult::Block(BlockAction::Fail2ban), "1.2.3.4", &score(), None) {
        Err(ExecutorError::Fail2Ban(msg)) => assert_eq!(msg, "Fail2Ban config missing"),
        other => panic!("unexpected {:?}", other),
    }
}

#[test]
fn ban_effect_carries_socket_and_command() {
    let cfg = Fail2BanConfig {
        enabled: true,
        socket: "/run/fail2ban/fail2ban.sock".to_string(),
        jail: "aargal-auto".to_string(),
    };
    match execute_action(ActionResult::Block(BlockAction::Fail2ban), "1.2.3.4", &score(), Some(&cfg)) {
        Ok(ActionEffect::Ban { socket, command }) => {
            assert_eq!(socket, "/run/fail2ban/fail2ban.sock");
            assert_eq!(command, "set aargal-auto banip 1.2.3.4\n");
        }
        other => panic!("unexpected {:?}", other),
    }
}

#[test]
fn effects_carry_address_and_score() {
    match execute_action(ActionResult::DetectOnly, "5.6.7.8", &score(), None) {
        Ok(ActionEffect::LogDetect { ip, score: s }) => {
            assert_eq!(ip, "5.6.7.8");
            assert_eq!(s.score, 120);
            assert_eq!(s.reasons, vec![ScoreReason::HighRate { count: 50 }]);
        }
        other => panic!("unexpected {:?}", other),
    }
    assert!(matches!(
        execute_action(ActionResult::Block(BlockAction::Log), "5.6.7.8", &score(), None),
        Ok(ActionEffect::LogBlock { .. })
    ));
    assert!(matches!(
        execute_action(ActionResult::Block(BlockAction::Stdout), "5.6.7.8", &score(), None),
        Ok(ActionEffect::PrintBlock { .. })
    ));
    assert!(matches!(
        execute_action(ActionResult::NoAction, "5.6.7.8", &score(), None),
        Ok(ActionEffect::NoEffect)
    ));
}
