use vstd::prelude::*;

verus! {

/// The whole validated configuration of the daemon.
#[derive(Debug, Clone)]
pub struct AargalConfig {
    pub general: GeneralConfig,
    pub ingest: IngestConfig,
    pub parser: ParserConfig,
    pub scoring: ScoringConfig,
    pub actions: ActionsConfig,
    pub fail2ban: Fail2BanConfig,
    pub logging: LoggingConfig,
}

/// Global operating mode: observe only, or enforce blocks.
#[derive(Debug, Clone, Copy, PartialEq, Eq, Structural)]
pub enum RunMode {
    Detect,
    Enforce,
}

#[derive(Debug, Clone)]
pub struct GeneralConfig {
    pub mode: RunMode,
    pub state_ttl_seconds: u64,
}

#[derive(Debug, Clone, Copy, PartialEq, Eq, Structural)]
pub enum IngestSource {
    File,
    Stdin,
}

#[derive(Debug, Clone)]
pub struct IngestConfig {
    pub source: IngestSource,
    pub path: String,
    pub poll_interval_ms: u64,
}

#[derive(Debug, Clone, Copy, PartialEq, Eq, Structural)]
pub enum ParserFormat {
    NginxCombined,
    Json,
}

#[derive(Debug, Clone)]
pub struct ParserConfig {
    pub format: ParserFormat,
    pub ignore_status: Vec<u16>,
}

#[derive(Debug, Clone)]
pub struct ScoringConfig {
    pub threshold: u32,
    pub weights: ScoringWeights,
}

/// Per-signal weights; each weight is also the ceiling of its signal's contribution.
#[derive(Debug, Clone, Copy, PartialEq, Eq, Structural)]
pub struct ScoringWeights {
    pub rate: u32,
    pub error: u32,
    pub user_agent: u32,
    pub path_entropy: u32,
}

/// The mechanism that realises a block decision.
#[derive(Debug, Clone, Copy, PartialEq, Eq, Structural)]
pub enum BlockAction {
    Log,
    Stdout,
    Fail2ban,
}

#[derive(Debug, Clone)]
pub struct ActionsConfig {
    pub on_block: BlockAction,
}

/// Where and under which jail the external ban mechanism is reached.
#[derive(Debug, Clone)]
pub struct Fail2BanConfig {
    pub enabled: bool,
    pub socket: String,
    pub jail: String,
}

#[derive(Debug, Clone)]
pub struct LoggingConfig {
    pub level: String,
    pub json: bool,
}

} // verus!
