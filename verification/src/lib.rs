//! Verified core of a laptop-safe harness that measures banking-stage-shaped
//! latency jitter and summarizes it against block-time budgets.

pub mod banking_stage_metrics;
pub mod banking_stage_trace;
pub mod config;
pub mod jitter_summary;
pub mod profile;
pub mod text;
pub mod workload;
