//! A benchmark job scheduler engine: jobs fan out into ordered sub-jobs,
//! worker fleets are scaled up before dispatch, results are aggregated into
//! a completion decision, and idle fleets are retired after a cooldown.
//!
//! The engine itself is pure: every loop of the running system is split into
//! a verified decision function (here) and an outer shell that performs the
//! database, message-bus and scaler calls the decision asks for.

pub mod domain;
pub mod engine;
pub mod ingest;
pub mod messages;
pub mod orchestrator;
pub mod reaper;
pub mod scaler;
pub mod services;
