use vstd::prelude::*;

use crate::config::schema::AargalConfig;
use crate::engine::action::{action_for, map_decision_to_action, ActionResult};
use crate::engine::decision::{decide, decision_for};
use crate::engine::scoring::{reasons_of, score_ip, score_of};
use crate::model::ip_state::IpState;
use crate::model::state_store::{updated_by, StateStore};
use crate::output::executor::{carries_out, execute_action, ActionEffect};
use crate::parser::ParsedEvent;

verus! {

/// The stage of the pipeline that failed.
#[derive(Debug, Clone, Copy, PartialEq, Eq, Structural)]
pub enum PipelineError {
    StateUpdate,
    Scoring,
    Decision,
    Action,
}

/// The action that the configuration takes for an address in state `s`.
pub open spec fn action_of(s: IpState, config: AargalConfig) -> ActionResult {
    let score = score_of(
        s.request_count,
        s.error_count,
        config.scoring.weights.rate,
        config.scoring.weights.error,
    );
    action_for(
        decision_for(score, config.scoring.threshold as int, config.general.mode),
        config.general.mode,
        config.actions.on_block,
    )
}

/// `r` is what the pipeline yields for an event from `ip` whose address is now in
/// state `s`: the side effect that carries out the action for the state's score,
/// with the configured ban settings at hand. It never fails.
pub open spec fn pipeline_outcome(
    s: IpState,
    ip: Seq<char>,
    config: AargalConfig,
    r: Result<ActionEffect, PipelineError>,
) -> bool {
    let score = score_of(
        s.request_count,
        s.error_count,
        config.scoring.weights.rate,
        config.scoring.weights.error,
    );
    match r {
        Ok(e) => carries_out(
            action_of(s, config),
            ip,
            score as u64,
            reasons_of(s.request_count, s.error_count),
            Some(&config.fail2ban),
            Ok(e),
        ),
        Err(_) => false,
    }
}

/// Runs one event through the pipeline: records it in the store, scores the
/// address's state, decides, maps the decision to an action, and returns the side
/// effect that carries the action out.
pub fn process_event(event: ParsedEvent, state: &mut StateStore, config: &AargalConfig) -> (r: Result<
    ActionEffect,
    PipelineError,
>)
    requires
        old(state).wf(),
    ensures
        final(state).wf(),
        final(state).ttl() == old(state).ttl(),
        final(state)@.contains_key(event.ip@),
        updated_by(old(state)@, event, final(state)@, final(state)@[event.ip@]),
        pipeline_outcome(final(state)@[event.ip@], event.ip@, *config, r),
        old(state).entries_sound() ==> final(state).entries_sound(),
{
    let ip_state = state.update(&event);
    let score = score_ip(&ip_state, &config.scoring);
    let decision = decide(&score, &config.general, &config.scoring);
    let action = map_decision_to_action(decision, &config.general, &config.actions);
    match execute_action(action, event.ip.as_str(), &score, Some(&config.fail2ban)) {
        Ok(effect) => Ok(effect),
        Err(_) => Err(PipelineError::Action),
    }
}

} // verus!
