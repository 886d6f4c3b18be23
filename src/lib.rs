//! Request-abuse barrier: per-address behavioural state, scoring, the
//! allow / detect / block decision and the mapping of a decision to an action.

pub mod config;
pub mod doctor;
pub mod engine;
pub mod ingest;
pub mod model;
pub mod output;
pub mod parser;
