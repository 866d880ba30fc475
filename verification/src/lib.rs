//! Multi-agent reasoning orchestration: a coordinator drives several
//! temperature-diverse agents against a pluggable inference backend,
//! aggregates and cross-verifies their candidate solutions, improves the
//! unverified ones, and synthesizes a single final answer.
use vstd::prelude::*;

pub mod agent;
pub mod aggregator;
pub mod config;
pub mod coordinator;
pub mod mcts;
pub mod model_router;
pub(crate) mod prompts;
pub mod provider_config;
pub mod strategy;
pub mod text;
pub mod types;
pub mod verification;
pub mod workspace;

pub use crate::model_router::LLMProvider;
pub use crate::types::MarsError;

verus! {

/// Shorthand for results whose error is a run error.
pub type MarsResult<T> = core::result::Result<T, MarsError>;

/// Fixed-point scale: one unit is a thousandth. Temperatures, verification
/// scores and exploration weights are carried as integer thousandths so that
/// the selection arithmetic can be reasoned about exactly.
pub const MILLIS_ONE: u64 = 1000;

} // verus!
