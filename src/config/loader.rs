use vstd::prelude::*;

use crate::config::schema::{AargalConfig, BlockAction};

verus! {

/// The total that the scoring weights must add up to.
pub const WEIGHT_TOTAL: u64 = 100;

/// The shortest state time-to-live accepted, in seconds.
pub const MIN_STATE_TTL_SECONDS: u64 = 60;

/// Why a configuration was rejected.
#[derive(Debug, Clone, PartialEq, Eq, Structural)]
pub enum ConfigError {
    /// The four scoring weights do not add up to the fixed total; carries their sum.
    WeightsSum { got: u64 },
    /// The scoring threshold is zero.
    ZeroThreshold,
    /// The state time-to-live is below the minimum.
    TtlTooShort { got: u64 },
    /// The ban integration is enabled but blocks are not sent to it.
    Fail2banEnabledWithoutAction,
    /// Blocks are sent to the ban integration, which is not enabled.
    Fail2banActionWithoutEnabled,
}

/// Sum of the four scoring weights.
pub open spec fn weight_sum(cfg: AargalConfig) -> int {
    cfg.scoring.weights.rate + cfg.scoring.weights.error + cfg.scoring.weights.user_agent
        + cfg.scoring.weights.path_entropy
}

/// The outcome of validation, checks taken in a fixed order.
pub open spec fn validation_of(cfg: AargalConfig) -> Result<(), ConfigError> {
    if weight_sum(cfg) != WEIGHT_TOTAL {
        Err(ConfigError::WeightsSum { got: weight_sum(cfg) as u64 })
    } else if cfg.scoring.threshold == 0 {
        Err(ConfigError::ZeroThreshold)
    } else if cfg.general.state_ttl_seconds < MIN_STATE_TTL_SECONDS {
        Err(ConfigError::TtlTooShort { got: cfg.general.state_ttl_seconds })
    } else if cfg.fail2ban.enabled && cfg.actions.on_block != BlockAction::Fail2ban {
        Err(ConfigError::Fail2banEnabledWithoutAction)
    } else if !cfg.fail2ban.enabled && cfg.actions.on_block == BlockAction::Fail2ban {
        Err(ConfigError::Fail2banActionWithoutEnabled)
    } else {
        Ok(())
    }
}

/// Semantic checks on a parsed configuration: the weights add up to the fixed
/// total, the threshold is positive, the time-to-live is long enough, and the ban
/// integration is enabled exactly when blocks are sent to it.
pub fn validate(cfg: &AargalConfig) -> (r: Result<(), ConfigError>)
    ensures
        r == validation_of(*cfg),
{
    let w = &cfg.scoring.weights;
    let total: u64 = w.rate as u64 + w.error as u64 + w.user_agent as u64 + w.path_entropy as u64;
    if total != WEIGHT_TOTAL {
        return Err(ConfigError::WeightsSum { got: total });
    }
    if cfg.scoring.threshold == 0 {
        return Err(ConfigError::ZeroThreshold);
    }
    if cfg.general.state_ttl_seconds < MIN_STATE_TTL_SECONDS {
        return Err(ConfigError::TtlTooShort { got: cfg.general.state_ttl_seconds });
    }
    let to_ban = cfg.actions.on_block == BlockAction::Fail2ban;
    if cfg.fail2ban.enabled && !to_ban {
        return Err(ConfigError::Fail2banEnabledWithoutAction);
    }
    if !cfg.fail2ban.enabled && to_ban {
        return Err(ConfigError::Fail2banActionWithoutEnabled);
    }
    Ok(())
}

} // verus!
