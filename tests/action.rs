use aargal::config::schema::{ActionsConfig, BlockAction, GeneralConfig, RunMode};
use aargal::engine::action::{map_decision_to_action, ActionResult};
use aargal::engine::decision::Decision;

fn enforce_cfg() -> (GeneralConfig, ActionsConfig) {
    (
        GeneralConfig {
            mode: RunMode::Enforce,
            state_ttl_seconds: 3600,
        },
        ActionsConfig { on_block: BlockAction::Log },
    )
}

#[test]
fn block_in_enforce_triggers_action() {
    let (g, a) = enforce_cfg();
    let result = map_decision_to_action(Decision::Block, &g, &a);
    assert_eq!(result, ActionResult::Block(BlockAction::Log));
}

#[test]
fn block_in_detect_does_not_trigger() {
    let g = GeneralConfig { mode: RunMode::Detect, state_ttl_seconds: 3600 };
    let a = ActionsConfig { on_block: BlockAction::Fail2ban };
    let result = map_decision_to_action(Decision::Block, &g, &a);
    assert_eq!(result, ActionResult::DetectOnly);
}

#[test]
fn allow_maps_to_no_action_in_any_mode() {
    let a = ActionsConfig { on_block: BlockAction::Stdout };
    for mode in [RunMode::Detect, RunMode::Enforce] {
        let g = GeneralConfig { mode, state_ttl_seconds: 3600 };
        assert_eq!(map_decision_to_action(Decision::Allow, &g, &a), ActionResult::NoAction);
        assert_eq!(map_decision_to_action(Decision::Detect, &g, &a), ActionResult::DetectOnly);
    }
}

#[test]
fn block_in_detect_mode_never_uses_a_method() {
    let g = GeneralConfig { mode: RunMode::Detect, state_ttl_seconds: 3600 };
    for on_block in [BlockAction::Log, BlockAction::Stdout, BlockAction::Fail2ban] {
        let a = ActionsConfig { on_block };
        assert_eq!(map_decision_to_action(Decision::Block, &g, &a), ActionResult::DetectOnly);
    }
}

#[test]
fn block_in_enforce_uses_configured_method() {
    let g = GeneralConfig { mode: RunMode::Enforce, state_ttl_seconds: 3600 };
    let a = ActionsConfig { on_block: BlockAction::Fail2ban };
    assert_eq!(
        map_decision_to_action(Decision::Block, &g, &a),
        ActionResult::Block(BlockAction::Fail2ban)
    );
}
