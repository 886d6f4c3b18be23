use vstd::prelude::*;

verus! {

/// Alternative configuration layout, with a typed log level and an optional
/// ingest path.
#[derive(Debug, Clone)]
pub struct Config {
    pub general: General,
    pub ingest: Ingest,
    pub parser: Parser,
    pub scoring: Scoring,
    pub actions: Actions,
    pub fail2ban: Fail2Ban,
    pub logging: Logging,
}

#[derive(Debug, Clone)]
pub struct General {
    pub mode: Mode,
    pub state_ttl_seconds: u64,
}

#[derive(Debug, Clone, Copy, PartialEq, Eq, Structural)]
pub enum Mode {
    Detect,
    Enforce,
}

#[derive(Debug, Clone)]
pub struct Ingest {
    pub source: IngestSource,
    pub path: Option<String>,
    pub poll_interval_ms: u64,
}

#[derive(Debug, Clone, Copy, PartialEq, Eq, Structural)]
pub enum IngestSource {
    File,
    Stdin,
}

#[derive(Debug, Clone)]
pub struct Parser {
    pub format: ParserFormat,
    pub ignore_status: Vec<u16>,
}

#[derive(Debug, Clone, Copy, PartialEq, Eq, Structural)]
pub enum ParserFormat {
    NginxCombined,
    Json,
}

#[derive(Debug, Clone)]
pub struct Scoring {
    pub threshold: u32,
    pub weights: ScoringWeights,
}

#[derive(Debug, Clone, Copy, PartialEq, Eq, Structural)]
pub struct ScoringWeights {
    pub rate: u32,
    pub error: u32,
    pub user_agent: u32,
    pub path_entropy: u32,
}

#[derive(Debug, Clone)]
pub struct Actions {
    pub on_block: BlockAction,
}

#[derive(Debug, Clone, Copy, PartialEq, Eq, Structural)]
pub enum BlockAction {
    Log,
    Stdout,
    Fail2ban,
}

#[derive(Debug, Clone)]
pub struct Fail2Ban {
    pub enabled: bool,
    pub socket: String,
    pub jail: String,
}

#[derive(Debug, Clone)]
pub struct Logging {
    pub level: LogLevel,
    pub json: bool,
}

#[derive(Debug, Clone, Copy, PartialEq, Eq, Structural)]
pub enum LogLevel {
    Trace,
    Debug,
    Info,
    Warn,
    Error,
}

} // verus!
