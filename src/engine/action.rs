use vstd::prelude::*;

use crate::config::schema::{ActionsConfig, BlockAction, GeneralConfig, RunMode};
use crate::engine::decision::{decision_for, Decision};

verus! {

/// The action that a decision leads to.
#[derive(Debug, Clone, Copy, PartialEq, Eq, Structural)]
pub enum ActionResult {
    NoAction,
    DetectOnly,
    Block(BlockAction),
}

/// The action for a decision: nothing on allow, observation on detect, and on
/// block the configured method in enforce mode but only observation in detect mode.
pub open spec fn action_for(decision: Decision, mode: RunMode, on_block: BlockAction) -> ActionResult {
    match decision {
        Decision::Allow => ActionResult::NoAction,
        Decision::Detect => ActionResult::DetectOnly,
        Decision::Block => match mode {
            RunMode::Detect => ActionResult::DetectOnly,
            RunMode::Enforce => ActionResult::Block(on_block),
        },
    }
}

/// Maps a decision to an action; a block is downgraded to observation unless the
/// mode is enforce.
pub fn map_decision_to_action(
    decision: Decision,
    general: &GeneralConfig,
    actions: &ActionsConfig,
) -> (r: ActionResult)
    ensures
        r == action_for(decision, general.mode, actions.on_block),
{
    match decision {
        Decision::Allow => ActionResult::NoAction,
        Decision::Detect => ActionResult::DetectOnly,
        Decision::Block => match general.mode {
            RunMode::Detect => ActionResult::DetectOnly,
            RunMode::Enforce => ActionResult::Block(actions.on_block),
        },
    }
}

/// Detect mode never enforces: no score yields a block decision, and a block
/// decision maps to observation only, whatever the configured method.
pub proof fn lemma_detect_mode_never_blocks(score: int, threshold: int, on_block: BlockAction)
    ensures
        decision_for(score, threshold, RunMode::Detect) != Decision::Block,
        action_for(Decision::Block, RunMode::Detect, on_block) == ActionResult::DetectOnly,
        !(action_for(decision_for(score, threshold, RunMode::Detect), RunMode::Detect, on_block) is Block),
{
}

} // verus!
