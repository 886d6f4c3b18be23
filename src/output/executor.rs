use vstd::prelude::*;
use vstd::string::StringExecFns;

use crate::config::schema::{BlockAction, Fail2BanConfig};
use crate::engine::action::ActionResult;
use crate::engine::scoring::{ScoreReason, ScoreResult};
use crate::output::fail2ban::{ban_line, ban_line_of};

verus! {

/// Why an action could not be carried out.
#[derive(Debug, Clone)]
pub enum ExecutorError {
    /// Talking to the ban socket failed; carries the description of the failure.
    Io(String),
    /// The ban integration was chosen but is not configured.
    Fail2Ban(String),
}

/// The side effect that carries out an action.
#[derive(Debug, Clone)]
pub enum ActionEffect {
    /// Nothing to do.
    NoEffect,
    /// An informational detect record for the address.
    LogDetect { ip: String, score: ScoreResult },
    /// A warning-level block record for the address.
    LogBlock { ip: String, score: ScoreResult },
    /// A block line on standard output.
    PrintBlock { ip: String, score: ScoreResult },
    /// One command line written to the ban socket at `socket`.
    Ban { socket: String, command: String },
}

/// `r` carries out `action` for `ip` with `score` and its `reasons`: observation and the log and
/// standard-output blocks carry the address and score; a ban needs the ban
/// configuration, and without it fails with a configuration error.
pub open spec fn carries_out(
    action: ActionResult,
    ip: Seq<char>,
    score: u64,
    reasons: Seq<ScoreReason>,
    ban: Option<&Fail2BanConfig>,
    r: Result<ActionEffect, ExecutorError>,
) -> bool {
    match action {
        ActionResult::NoAction => r == Ok::<ActionEffect, ExecutorError>(ActionEffect::NoEffect),
        ActionResult::DetectOnly => r matches Ok(ActionEffect::LogDetect { ip: a, score: s })
            && a@ == ip && s.score == score && s.reasons@ == reasons,
        ActionResult::Block(BlockAction::Log) => r matches Ok(ActionEffect::LogBlock { ip: a, score: s })
            && a@ == ip && s.score == score && s.reasons@ == reasons,
        ActionResult::Block(BlockAction::Stdout) => r matches Ok(ActionEffect::PrintBlock { ip: a, score: s })
            && a@ == ip && s.score == score && s.reasons@ == reasons,
        ActionResult::Block(BlockAction::Fail2ban) => match ban {
            None => r is Err && r->Err_0 is Fail2Ban,
            Some(cfg) => r matches Ok(ActionEffect::Ban { socket, command })
                && socket@ == cfg.socket@ && command@ == ban_line_of(cfg.jail@, ip),
        },
    }
}

/// Turns an action into the side effect that carries it out. Fails only when a
/// ban is asked for and no ban configuration is given.
pub fn execute_action(
    action: ActionResult,
    ip: &str,
    score: &ScoreResult,
    fail2ban: Option<&Fail2BanConfig>,
) -> (r: Result<ActionEffect, ExecutorError>)
    ensures
        carries_out(action, ip@, score.score, score.reasons@, fail2ban, r),
{
    match action {
        ActionResult::NoAction => Ok(ActionEffect::NoEffect),
        ActionResult::DetectOnly => Ok(ActionEffect::LogDetect { ip: ip.to_owned(), score: score.snapshot() }),
        ActionResult::Block(block_action) => match block_action {
            BlockAction::Log => Ok(ActionEffect::LogBlock { ip: ip.to_owned(), score: score.snapshot() }),
            BlockAction::Stdout => Ok(ActionEffect::PrintBlock { ip: ip.to_owned(), score: score.snapshot() }),
            BlockAction::Fail2ban => match fail2ban {
                None => Err(ExecutorError::Fail2Ban(String::from_str("Fail2Ban config missing"))),
                Some(cfg) => Ok(ActionEffect::Ban {
                    socket: cfg.socket.clone(),
                    command: ban_line(cfg.jail.as_str(), ip),
                }),
            },
        },
    }
}

} // verus!
