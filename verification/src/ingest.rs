//! Status ingest: how one worker status message changes the stored worker
//! row. Mutations apply only when the message's timestamp is newer than the
//! row's `last_seen`, so redelivering a message, or delivering an older one
//! after a newer one, never changes the outcome.

use vstd::prelude::*;
use crate::domain::{WorkerRow, WorkerStatus, SubJobStatus};
use crate::messages::{StatusMessage, WorkerStatusDetails, WorkerLifecycle};

verus! {

/// What a lifecycle message leaves behind: an upsert. A missing row is
/// inserted; an existing row is rewritten only when the message is newer.
/// Coming online rebinds the topics and stamps `started_at`; going offline
/// clears the topic bindings and stamps `shutdown_at`. The current job is
/// cleared either way.
pub open spec fn lifecycle_applied(
    existing: Option<WorkerRow>,
    name: String,
    ts: i64,
    lc: WorkerLifecycle,
    r: WorkerRow,
) -> bool {
    match existing {
        None => {
            &&& r.worker_name == name
            &&& r.status == lc.worker_status
            &&& r.last_seen == ts
            &&& r.job_id is None
            &&& r.started_at == if lc.worker_status is Online {
                Some(ts)
            } else {
                None::<i64>
            }
            &&& r.shutdown_at == if lc.worker_status is Offline {
                Some(ts)
            } else {
                None::<i64>
            }
            &&& r.topics@ == if lc.worker_status is Online {
                lc.worker_topics@
            } else {
                Seq::<String>::empty()
            }
        },
        Some(w) => {
            if w.last_seen < ts {
                &&& r.worker_name == w.worker_name
                &&& r.status == lc.worker_status
                &&& r.last_seen == ts
                &&& r.job_id is None
                &&& r.started_at == if lc.worker_status is Online {
                    Some(ts)
                } else {
                    w.started_at
                }
                &&& r.shutdown_at == if lc.worker_status is Offline {
                    Some(ts)
                } else {
                    w.shutdown_at
                }
                &&& r.topics@ == if lc.worker_status is Online {
                    lc.worker_topics@
                } else {
                    Seq::<String>::empty()
                }
            } else {
                r == w
            }
        },
    }
}

/// What a job-binding message leaves behind: an update of `job_id` and
/// `last_seen` when the row exists and the message is newer; no insert.
pub open spec fn job_bound_applied(
    existing: Option<WorkerRow>,
    ts: i64,
    job_id: Option<u128>,
    r: Option<WorkerRow>,
) -> bool {
    match existing {
        None => r is None,
        Some(w) => {
            if w.last_seen < ts {
                r == Some(
                    WorkerRow {
                        worker_name: w.worker_name,
                        status: w.status,
                        last_seen: ts,
                        started_at: w.started_at,
                        shutdown_at: w.shutdown_at,
                        job_id,
                        topics: w.topics,
                    },
                )
            } else {
                r == Some(w)
            }
        },
    }
}

/// What a heartbeat leaves behind: a newer stamp forces the worker online
/// and advances `last_seen`; no insert.
pub open spec fn heartbeat_applied(existing: Option<WorkerRow>, ts: i64, r: Option<
    WorkerRow,
>) -> bool {
    match existing {
        None => r is None,
        Some(w) => {
            if w.last_seen < ts {
                r == Some(
                    WorkerRow {
                        worker_name: w.worker_name,
                        status: WorkerStatus::Online,
                        last_seen: ts,
                        started_at: w.started_at,
                        shutdown_at: w.shutdown_at,
                        job_id: w.job_id,
                        topics: w.topics,
                    },
                )
            } else {
                r == Some(w)
            }
        },
    }
}

/// What one status message of any kind leaves behind.
pub open spec fn status_applied(
    existing: Option<WorkerRow>,
    msg: StatusMessage,
    r: Option<WorkerRow>,
) -> bool {
    match msg.details {
        WorkerStatusDetails::Lifecycle(lc) => r matches Some(w) && lifecycle_applied(
            existing,
            msg.worker_name,
            msg.timestamp,
            lc,
            w,
        ),
        WorkerStatusDetails::Job(binding) => job_bound_applied(
            existing,
            msg.timestamp,
            match binding {
                Some(b) => Some(b.job_id),
                None => None,
            },
            r,
        ),
        WorkerStatusDetails::Heartbeat => heartbeat_applied(existing, msg.timestamp, r),
    }
}

/// Apply one worker status message to the stored row (or its absence) and
/// return what the store must hold afterwards.
pub fn apply_status(existing: Option<WorkerRow>, msg: StatusMessage) -> (r: Option<WorkerRow>)
    ensures
        status_applied(existing, msg, r),
{
    match msg.details {
        WorkerStatusDetails::Lifecycle(lc) => {
            match existing {
                None => Some(
                    WorkerRow {
                        worker_name: msg.worker_name,
                        status: lc.worker_status,
                        last_seen: msg.timestamp,
                        started_at: if matches!(lc.worker_status, WorkerStatus::Online) {
                            Some(msg.timestamp)
                        } else {
                            None
                        },
                        shutdown_at: if matches!(lc.worker_status, WorkerStatus::Offline) {
                            Some(msg.timestamp)
                        } else {
                            None
                        },
                        job_id: None,
                        topics: if matches!(lc.worker_status, WorkerStatus::Online) {
                            lc.worker_topics
                        } else {
                            Vec::new()
                        },
                    },
                ),
                Some(w) => {
                    if w.last_seen < msg.timestamp {
                        Some(
                            WorkerRow {
                                worker_name: w.worker_name,
                                status: lc.worker_status,
                                last_seen: msg.timestamp,
                                started_at: if matches!(lc.worker_status, WorkerStatus::Online) {
                                    Some(msg.timestamp)
                                } else {
                                    w.started_at
                                },
                                shutdown_at: if matches!(lc.worker_status, WorkerStatus::Offline) {
                                    Some(msg.timestamp)
                                } else {
                                    w.shutdown_at
                                },
                                job_id: None,
                                topics: if matches!(lc.worker_status, WorkerStatus::Online) {
                                    lc.worker_topics
                                } else {
                                    Vec::new()
                                },
                            },
                        )
                    } else {
                        Some(w)
                    }
                },
            }
        },
        WorkerStatusDetails::Job(binding) => {
            match existing {
                None => None,
                Some(w) => {
                    if w.last_seen < msg.timestamp {
                        Some(
                            WorkerRow {
                                worker_name: w.worker_name,
                                status: w.status,
                                last_seen: msg.timestamp,
                                started_at: w.started_at,
                                shutdown_at: w.shutdown_at,
                                job_id: match binding {
                                    Some(b) => Some(b.job_id),
                                    None => None,
                                },
                                topics: w.topics,
                            },
                        )
                    } else {
                        Some(w)
                    }
                },
            }
        },
        WorkerStatusDetails::Heartbeat => {
            match existing {
                None => None,
                Some(w) => {
                    if w.last_seen < msg.timestamp {
                        Some(
                            WorkerRow {
                                worker_name: w.worker_name,
                                status: WorkerStatus::Online,
                                last_seen: msg.timestamp,
                                started_at: w.started_at,
                                shutdown_at: w.shutdown_at,
                                job_id: w.job_id,
                                topics: w.topics,
                            },
                        )
                    } else {
                        Some(w)
                    }
                },
            }
        },
    }
}

/// A worker reported it started a sub-job: the sub-job moves to Processing,
/// idempotently — a sub-job already Processing, or past it, is left alone.
pub fn sub_job_worker_bound_status(current: SubJobStatus) -> (r: Option<SubJobStatus>)
    ensures
        r matches Some(s) ==> s is Processing && current.step_allowed(s),
        r is None <==> (current.is_terminal() || current.rank()
            >= SubJobStatus::Processing.rank()),
{
    match current {
        SubJobStatus::Created => Some(SubJobStatus::Processing),
        SubJobStatus::Pending => Some(SubJobStatus::Processing),
        _ => None,
    }
}

/// An older (or equally old) message never changes an existing row.
pub proof fn lemma_status_stale_noop(
    existing: Option<WorkerRow>,
    msg: StatusMessage,
    r: Option<WorkerRow>,
)
    requires
        status_applied(existing, msg, r),
        existing matches Some(w) && msg.timestamp <= w.last_seen,
    ensures
        r == existing,
{
}

/// Delivering the same message twice leaves the same row as delivering it
/// once: the first delivery advances `last_seen` to at least the message's
/// timestamp, so the second one is stale.
pub proof fn lemma_status_idempotent(
    existing: Option<WorkerRow>,
    msg: StatusMessage,
    r1: Option<WorkerRow>,
    r2: Option<WorkerRow>,
)
    requires
        status_applied(existing, msg, r1),
        status_applied(r1, msg, r2),
    ensures
        r2 == r1,
{
}

} // verus!
