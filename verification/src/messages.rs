//! Bus messages, as plain values. The shell serializes and deserializes them
//! at the wire; the engine only decides what they must contain and how a
//! received one changes the stored state.

use vstd::prelude::*;
use crate::domain::WorkerStatus;

verus! {

/// The dispatch message for one benchmark sub-job, routed by the job's
/// routing key. Workers not named in `excluded_workers` download the byte
/// range `[start_range, end_range)` of `url` at the synchronized start time.
#[derive(Debug)]
pub struct JobMessage {
    pub job_id: u128,
    pub sub_job_id: u128,
    pub url: String,
    pub start_time: i64,
    pub download_start_time: i64,
    pub start_range: u64,
    pub end_range: u64,
    pub excluded_workers: Vec<String>,
}

/// A worker's lifecycle edge: it came online with the given topic bindings,
/// or went offline.
#[derive(Debug)]
pub struct WorkerLifecycle {
    pub worker_status: WorkerStatus,
    pub worker_topics: Vec<String>,
}

/// The job a worker reports it is currently bound to.
#[derive(Clone, Copy, Debug)]
pub struct WorkerJobBinding {
    pub job_id: u128,
    pub sub_job_id: u128,
}

/// Body of a worker status message.
#[derive(Debug)]
pub enum WorkerStatusDetails {
    Lifecycle(WorkerLifecycle),
    Job(Option<WorkerJobBinding>),
    Heartbeat,
}

/// A status message from one worker, stamped by the worker's clock. Stale
/// stamps are dropped by the ingest rules, which makes redelivery and
/// reordering harmless.
#[derive(Debug)]
pub struct StatusMessage {
    pub worker_name: String,
    pub timestamp: i64,
    pub details: WorkerStatusDetails,
}

} // verus!
