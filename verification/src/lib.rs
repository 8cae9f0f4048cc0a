//! A small agent-orchestration engine: role-specific agents advance a shared
//! task context (`FactSheet`) through a finite-state machine, turning
//! free-text model replies into typed data with a bounded retry loop, and
//! validating produced URL artifacts against a liveness probe.

use vstd::prelude::*;

pub mod agent_architect;
pub mod basic_agent;
pub mod decoder;
pub mod factsheet;
pub mod parse_scope;
pub mod parse_urls;
pub mod text;
pub mod validation;

verus! {

} // verus!
