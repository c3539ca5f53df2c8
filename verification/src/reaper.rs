//! The two periodic reapers: the service descaler, which scales a service to
//! zero once its cooldown deadline has passed, and the worker liveness
//! check, which marks workers offline when their heartbeat is stale.

use vstd::prelude::*;
use crate::domain::{Service, WorkerRow, WorkerStatus};

verus! {

/// A worker whose heartbeat is older than this is considered gone.
pub const WORKER_STALE_AFTER_MS: i64 = 60_000;

/// A service whose cooldown deadline has been reached.
pub open spec fn descale_due(s: Service, now: i64) -> bool {
    s.descale_at matches Some(d) && d <= now
}

/// Indexes of exactly the services whose cooldown deadline has been reached,
/// in order. The descaler scales each of them down to zero and, on success,
/// clears its deadline.
pub fn select_descale_due(services: &Vec<Service>, now: i64) -> (r: Vec<usize>)
    ensures
        forall|a: int| 0 <= a < r@.len() ==> (#[trigger] r@[a]) < services@.len(),
        forall|a: int| 0 <= a < r@.len() ==> descale_due(services@[r@[a] as int], now),
        forall|j: int|
            0 <= j < services@.len() && descale_due(#[trigger] services@[j], now) ==> r@.contains(
                j as usize,
            ),
        forall|a: int, b: int| 0 <= a < b < r@.len() ==> r@[a] < r@[b],
{
    let mut r: Vec<usize> = Vec::new();
    let mut i: usize = 0;
    while i < services.len()
        invariant
            i <= services@.len(),
            forall|a: int| 0 <= a < r@.len() ==> (#[trigger] r@[a]) < i,
            forall|a: int| 0 <= a < r@.len() ==> descale_due(services@[r@[a] as int], now),
            forall|j: int|
                0 <= j < i && descale_due(#[trigger] services@[j], now) ==> r@.contains(j as usize),
            forall|a: int, b: int| 0 <= a < b < r@.len() ==> r@[a] < r@[b],
        decreases services@.len() - i,
    {
        let due = match services[i].descale_at {
            Some(d) => d <= now,
            None => false,
        };
        let ghost r0 = r@;
        if due {
            r.push(i);
        }
        proof {
            assert forall|j: int|
                0 <= j < i + 1 && descale_due(#[trigger] services@[j], now) implies r@.contains(
                j as usize,
            ) by {
                if j == i as int {
                    assert(r@.last() == i as usize);
                    assert(r@[r@.len() - 1] == i as usize);
                } else {
                    assert(r0.contains(j as usize));
                    let k = choose|k: int| 0 <= k < r0.len() && r0[k] == j as usize;
                    assert(r@[k] == j as usize);
                }
            }
        }
        i = i + 1;
    }
    r
}

/// Forget a service's cooldown deadline, after it was scaled down to zero.
pub fn clear_descale_deadline(s: Service) -> (r: Service)
    ensures
        r == (Service {
            id: s.id,
            name: s.name,
            provider_type: s.provider_type,
            details: s.details,
            is_enabled: s.is_enabled,
            descale_at: None,
        }),
{
    Service {
        id: s.id,
        name: s.name,
        provider_type: s.provider_type,
        details: s.details,
        is_enabled: s.is_enabled,
        descale_at: None,
    }
}

/// An online worker whose last heartbeat is older than the grace period.
pub open spec fn worker_stale(w: WorkerRow, now: i64) -> bool {
    w.status is Online && w.last_seen < now - WORKER_STALE_AFTER_MS
}

/// Indexes of exactly the online workers whose heartbeat went stale, in
/// order. The liveness reaper sets each of them offline.
pub fn select_stale_workers(workers: &Vec<WorkerRow>, now: i64) -> (r: Vec<usize>)
    requires
        now >= i64::MIN + WORKER_STALE_AFTER_MS,
    ensures
        forall|a: int| 0 <= a < r@.len() ==> (#[trigger] r@[a]) < workers@.len(),
        forall|a: int| 0 <= a < r@.len() ==> worker_stale(workers@[r@[a] as int], now),
        forall|j: int|
            0 <= j < workers@.len() && worker_stale(#[trigger] workers@[j], now) ==> r@.contains(
                j as usize,
            ),
        forall|a: int, b: int| 0 <= a < b < r@.len() ==> r@[a] < r@[b],
{
    let mut r: Vec<usize> = Vec::new();
    let mut i: usize = 0;
    while i < workers.len()
        invariant
            now >= i64::MIN + WORKER_STALE_AFTER_MS,
            i <= workers@.len(),
            forall|a: int| 0 <= a < r@.len() ==> (#[trigger] r@[a]) < i,
            forall|a: int| 0 <= a < r@.len() ==> worker_stale(workers@[r@[a] as int], now),
            forall|j: int|
                0 <= j < i && worker_stale(#[trigger] workers@[j], now) ==> r@.contains(j as usize),
            forall|a: int, b: int| 0 <= a < b < r@.len() ==> r@[a] < r@[b],
        decreases workers@.len() - i,
    {
        let stale = matches!(workers[i].status, WorkerStatus::Online) && workers[i].last_seen < now
            - WORKER_STALE_AFTER_MS;
        let ghost r0 = r@;
        if stale {
            r.push(i);
        }
        proof {
            assert forall|j: int|
                0 <= j < i + 1 && worker_stale(#[trigger] workers@[j], now) implies r@.contains(
                j as usize,
            ) by {
                if j == i as int {
                    assert(r@.last() == i as usize);
                    assert(r@[r@.len() - 1] == i as usize);
                } else {
                    assert(r0.contains(j as usize));
                    let k = choose|k: int| 0 <= k < r0.len() && r0[k] == j as usize;
                    assert(r@[k] == j as usize);
                }
            }
        }
        i = i + 1;
    }
    r
}

/// Mark a worker offline. Its topic bindings are kept: only an explicit
/// offline lifecycle message removes them, so a brief disconnect does not
/// lose the topology.
pub fn set_worker_offline(w: WorkerRow) -> (r: WorkerRow)
    ensures
        r == (WorkerRow {
            worker_name: w.worker_name,
            status: WorkerStatus::Offline,
            last_seen: w.last_seen,
            started_at: w.started_at,
            shutdown_at: w.shutdown_at,
            job_id: w.job_id,
            topics: w.topics,
        }),
{
    WorkerRow {
        worker_name: w.worker_name,
        status: WorkerStatus::Offline,
        last_seen: w.last_seen,
        started_at: w.started_at,
        shutdown_at: w.shutdown_at,
        job_id: w.job_id,
        topics: w.topics,
    }
}

} // verus!
