//! Core data model: jobs, sub-jobs, services and workers, with the status
//! order that every transition in the engine must respect.
//!
//! Timestamps are milliseconds since the Unix epoch (`i64`), identifiers are
//! 128-bit integers; the shell converts its wall-clock and UUID values at the
//! boundary.

use vstd::prelude::*;

verus! {

/// Status of a job.
#[derive(Clone, Copy, Debug, PartialEq, Eq, Structural)]
pub enum JobStatus {
    Created,
    Pending,
    Processing,
    Completed,
    Failed,
    Canceled,
}

/// Status of a sub-job; same chain as a job's.
#[derive(Clone, Copy, Debug, PartialEq, Eq, Structural)]
pub enum SubJobStatus {
    Created,
    Pending,
    Processing,
    Completed,
    Failed,
    Canceled,
}

/// The two kinds of sub-job: scale the fleet, or run one benchmark round.
#[derive(Clone, Copy, Debug, PartialEq, Eq, Structural)]
pub enum SubJobType {
    CombinedDHP,
    Scaling,
}

/// Which orchestrator backs a service.
#[derive(Clone, Copy, Debug, Hash, PartialEq, Eq, Structural)]
pub enum ProviderType {
    DockerLocal,
    AWSFargate,
}

/// Whether a worker process is believed to be running.
#[derive(Clone, Copy, Debug, PartialEq, Eq, Structural)]
pub enum WorkerStatus {
    Online,
    Offline,
}

impl JobStatus {
    /// Position on the forward chain Created -> Pending -> Processing -> Completed.
    pub open spec fn rank(self) -> int {
        match self {
            JobStatus::Created => 0,
            JobStatus::Pending => 1,
            JobStatus::Processing => 2,
            JobStatus::Completed => 3,
            JobStatus::Failed => 3,
            JobStatus::Canceled => 3,
        }
    }

    /// Failed and Canceled are never left again; a Completed job can still
    /// be swept into Canceled by an explicit cancellation.
    pub open spec fn is_absorbing(self) -> bool {
        self is Failed || self is Canceled
    }

    /// One observable move of a job's status: stay put, advance strictly
    /// forward along the chain, or fall into Failed or Canceled, which
    /// absorb.
    pub open spec fn step_allowed(self, to: JobStatus) -> bool {
        to == self || (!self.is_absorbing() && (to is Failed || to is Canceled
            || (to.rank() > self.rank() && !(to is Failed) && !(to is Canceled))))
    }
}

impl SubJobStatus {
    /// A terminal status is never left again.
    pub open spec fn is_terminal(self) -> bool {
        self is Completed || self is Failed || self is Canceled
    }

    /// Position on the forward chain Created -> Pending -> Processing -> Completed.
    pub open spec fn rank(self) -> int {
        match self {
            SubJobStatus::Created => 0,
            SubJobStatus::Pending => 1,
            SubJobStatus::Processing => 2,
            SubJobStatus::Completed => 3,
            SubJobStatus::Failed => 3,
            SubJobStatus::Canceled => 3,
        }
    }

    /// Failed and Canceled are never left again; a Completed sub-job can
    /// still be swept into Canceled by an explicit cancellation.
    pub open spec fn is_absorbing(self) -> bool {
        self is Failed || self is Canceled
    }

    /// One observable move of a sub-job's status: stay put, advance strictly
    /// forward along the chain, or fall into Failed or Canceled, which
    /// absorb.
    pub open spec fn step_allowed(self, to: SubJobStatus) -> bool {
        to == self || (!self.is_absorbing() && (to is Failed || to is Canceled
            || (to.rank() > self.rank() && !(to is Failed) && !(to is Canceled))))
    }

    /// A sub-job the engine still has to drive.
    pub open spec fn is_unfinished(self) -> bool {
        !self.is_terminal()
    }

    /// Executable test for `is_unfinished`.
    pub fn unfinished(&self) -> (b: bool)
        ensures
            b == self.is_unfinished(),
    {
        match self {
            SubJobStatus::Created => true,
            SubJobStatus::Pending => true,
            SubJobStatus::Processing => true,
            _ => false,
        }
    }
}

/// Nested details of a job: the byte range to fetch and the benchmark knobs.
#[derive(Debug)]
pub struct JobDetails {
    pub start_range: i64,
    pub end_range: i64,
    pub target_worker_count: Option<i64>,
    pub workers_count: Option<i64>,
    pub entity: Option<String>,
    pub note: Option<String>,
    pub log_interval_ms: i64,
    pub size_mb: i64,
}

impl JobDetails {
    /// Byte offsets are non-negative and ordered.
    pub open spec fn wf(self) -> bool {
        0 <= self.start_range <= self.end_range
    }

    pub fn new(
        start_range: i64,
        end_range: i64,
        target_worker_count: i64,
        entity: Option<String>,
        note: Option<String>,
        log_interval_ms: i64,
        size_mb: i64,
    ) -> (r: JobDetails)
        ensures
            r == (JobDetails {
                start_range,
                end_range,
                target_worker_count: Some(target_worker_count),
                workers_count: None,
                entity,
                note,
                log_interval_ms,
                size_mb,
            }),
    {
        JobDetails {
            start_range,
            end_range,
            target_worker_count: Some(target_worker_count),
            workers_count: None,
            entity,
            note,
            log_interval_ms,
            size_mb,
        }
    }
}

/// Type-specific details of a sub-job. A scaling sub-job carries the topic it
/// scales for; a benchmark sub-job may carry the share of workers that should
/// run it and the worker count the engine settled on. `error` is the terminal
/// failure note, if any.
#[derive(Debug)]
pub struct SubJobDetails {
    pub partial: Option<i64>,
    pub workers_count: Option<i64>,
    pub topic: Option<String>,
    pub error: Option<String>,
}

impl SubJobDetails {
    pub fn empty() -> (r: SubJobDetails)
        ensures
            r == (SubJobDetails {
                partial: None,
                workers_count: None,
                topic: None,
                error: None,
            }),
    {
        SubJobDetails { partial: None, workers_count: None, topic: None, error: None }
    }

    pub fn partial(partial: i64) -> (r: SubJobDetails)
        ensures
            r == (SubJobDetails {
                partial: Some(partial),
                workers_count: None,
                topic: None,
                error: None,
            }),
    {
        SubJobDetails { partial: Some(partial), workers_count: None, topic: None, error: None }
    }

    pub fn topic(topic: String) -> (r: SubJobDetails)
        ensures
            r == (SubJobDetails {
                partial: None,
                workers_count: None,
                topic: Some(topic),
                error: None,
            }),
    {
        SubJobDetails { partial: None, workers_count: None, topic: Some(topic), error: None }
    }
}

/// A benchmark request, as persisted.
#[derive(Debug)]
pub struct Job {
    pub id: u128,
    pub url: String,
    pub routing_key: String,
    pub status: JobStatus,
    pub details: JobDetails,
}

/// One step of a job's pipeline, as persisted. `created_at` orders the steps;
/// the engine always drives the oldest unfinished one.
#[derive(Debug)]
pub struct SubJob {
    pub id: u128,
    pub job_id: u128,
    pub status: SubJobStatus,
    pub kind: SubJobType,
    pub details: SubJobDetails,
    pub deadline_at: Option<i64>,
    pub created_at: i64,
}

impl Clone for JobDetails {
    fn clone(&self) -> (r: Self)
        ensures
            r == *self,
    {
        JobDetails {
            start_range: self.start_range,
            end_range: self.end_range,
            target_worker_count: self.target_worker_count,
            workers_count: self.workers_count,
            entity: self.entity.clone(),
            note: self.note.clone(),
            log_interval_ms: self.log_interval_ms,
            size_mb: self.size_mb,
        }
    }
}

impl Clone for SubJobDetails {
    fn clone(&self) -> (r: Self)
        ensures
            r == *self,
    {
        SubJobDetails {
            partial: self.partial,
            workers_count: self.workers_count,
            topic: self.topic.clone(),
            error: self.error.clone(),
        }
    }
}

impl Clone for Job {
    fn clone(&self) -> (r: Self)
        ensures
            r == *self,
    {
        Job {
            id: self.id,
            url: self.url.clone(),
            routing_key: self.routing_key.clone(),
            status: self.status,
            details: self.details.clone(),
        }
    }
}

impl Clone for SubJob {
    fn clone(&self) -> (r: Self)
        ensures
            r == *self,
    {
        SubJob {
            id: self.id,
            job_id: self.job_id,
            status: self.status,
            kind: self.kind,
            details: self.details.clone(),
            deadline_at: self.deadline_at,
            created_at: self.created_at,
        }
    }
}

/// Provider-specific coordinates of a service: a cloud service names its
/// cluster and region, a local one needs neither.
#[derive(Debug)]
pub struct ServiceDetails {
    pub cluster: Option<String>,
    pub region: Option<String>,
}

impl Clone for ServiceDetails {
    fn clone(&self) -> (r: Self)
        ensures
            r == *self,
    {
        let r = ServiceDetails { cluster: self.cluster.clone(), region: self.region.clone() };
        proof {
            assert(r.cluster == self.cluster);
            assert(r.region == self.region);
        }
        r
    }
}

/// A scalable worker pool.
#[derive(Clone, Debug)]
pub struct Service {
    pub id: u128,
    pub name: String,
    pub provider_type: ProviderType,
    pub details: ServiceDetails,
    pub is_enabled: bool,
    pub descale_at: Option<i64>,
}

/// A service together with the routing-key topics bound to it.
#[derive(Clone, Debug)]
pub struct ServiceWithTopics {
    pub id: u128,
    pub name: String,
    pub provider_type: ProviderType,
    pub details: ServiceDetails,
    pub is_enabled: bool,
    pub descale_at: Option<i64>,
    pub topics: Vec<String>,
}

impl ServiceWithTopics {
    pub fn to_service(&self) -> (r: Service)
        ensures
            r.id == self.id,
            r.name == self.name,
            r.provider_type == self.provider_type,
            r.details == self.details,
            r.is_enabled == self.is_enabled,
            r.descale_at == self.descale_at,
    {
        Service {
            id: self.id,
            name: self.name.clone(),
            provider_type: self.provider_type,
            details: self.details.clone(),
            is_enabled: self.is_enabled,
            descale_at: self.descale_at,
        }
    }
}

/// A worker process instance, keyed by name.
#[derive(Clone, Debug)]
pub struct WorkerRow {
    pub worker_name: String,
    pub status: WorkerStatus,
    pub last_seen: i64,
    pub started_at: Option<i64>,
    pub shutdown_at: Option<i64>,
    pub job_id: Option<u128>,
    pub topics: Vec<String>,
}

/// The terminal failure note of a worker's result payload.
#[derive(Clone, Debug)]
pub struct WorkerDataError {
    pub error: String,
}

} // verus!
