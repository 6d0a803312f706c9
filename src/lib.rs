//! Bootstraps new project directories and drives the repository set-up for
//! them, plus a keyword-based intent router for the `ai` subcommand.
//!
//! The library decides; the caller acts. Every filesystem write and every
//! external process is described by an [`plan::Op`] value, and the
//! [`orchestrator::Orchestrator`] state machine says which one comes next.
use vstd::prelude::*;

pub mod text;
pub mod plan;
pub mod orchestrator;
pub mod laws;
pub mod ai;

verus! {

} // verus!
