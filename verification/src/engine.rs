//! The sub-job engine: one decision per tick for the oldest unfinished
//! sub-job. Every function here is pure; the shell fetches the rows the
//! decision needs, then performs the database writes, scaler calls and the
//! one bus publish the returned outcome asks for.

use vstd::prelude::*;
use crate::domain::{SubJob, SubJobStatus, SubJobDetails, SubJobType, Service, Job, JobStatus};
use crate::messages::JobMessage;

verus! {

/// How many workers one job targets across all services of its topic.
pub const MAX_JOB_WORKERS: usize = 10;

/// How long a freshly used service stays up before the reaper may retire it.
pub const SERVICE_DESCALE_DEADLINE_MS: i64 = 1_800_000;

/// How long a scaling sub-job may wait for the fleet to come online.
pub const SCALING_SUB_JOB_DEADLINE_MS: i64 = 1_500_000;

/// Delay between dispatch and the workers' synchronized start.
pub const SYNC_DELAY_MS: i64 = 1_000;

/// Delay between the synchronized start and the download start.
pub const DOWNLOAD_DELAY_MS: i64 = 10_000;

/// The longest a single download round is allowed to take.
pub const MAX_DOWNLOAD_DURATION_MS: i64 = 60_000;

/// Why a sub-job cannot progress, or must be retried. A terminal reason is
/// written into the sub-job's `details.error` when the engine fails it.
#[derive(Clone, Copy, Debug, PartialEq, Eq, Structural)]
pub enum FailReason {
    NoServicesFound,
    InvalidPendingState,
    InvalidStatus,
    NoDeadline,
    DeadlinePassed,
    NoWorkersOnline,
    MissingTopic,
    MissingWorkersCount,
    InvalidWorkersCount,
}

/// The text stored under `details.error` for each terminal reason.
pub open spec fn fail_message(reason: FailReason) -> Seq<char> {
    match reason {
        FailReason::NoServicesFound => "No services found"@,
        FailReason::InvalidPendingState => "Invalid pending state"@,
        FailReason::InvalidStatus => "Invalid and unexpected status"@,
        FailReason::NoDeadline => "No deadline"@,
        FailReason::DeadlinePassed => "Deadline passed"@,
        FailReason::NoWorkersOnline => "No workers online"@,
        FailReason::MissingTopic => "missing service topic"@,
        FailReason::MissingWorkersCount => "missing workers count"@,
        FailReason::InvalidWorkersCount => "invalid workers count"@,
    }
}

impl FailReason {
    pub fn message(&self) -> (r: &'static str)
        ensures
            r@ == fail_message(*self),
    {
        match self {
            FailReason::NoServicesFound => "No services found",
            FailReason::InvalidPendingState => "Invalid pending state",
            FailReason::InvalidStatus => "Invalid and unexpected status",
            FailReason::NoDeadline => "No deadline",
            FailReason::DeadlinePassed => "Deadline passed",
            FailReason::NoWorkersOnline => "No workers online",
            FailReason::MissingTopic => "missing service topic",
            FailReason::MissingWorkersCount => "missing workers count",
            FailReason::InvalidWorkersCount => "invalid workers count",
        }
    }
}

impl SubJob {
    /// Move a sub-job one allowed step along the status chain.
    pub fn with_status(self, to: SubJobStatus) -> (r: SubJob)
        requires
            self.status.step_allowed(to),
        ensures
            r.status == to,
            r.id == self.id,
            r.job_id == self.job_id,
            r.kind == self.kind,
            r.details == self.details,
            r.deadline_at == self.deadline_at,
            r.created_at == self.created_at,
    {
        SubJob {
            id: self.id,
            job_id: self.job_id,
            status: to,
            kind: self.kind,
            details: self.details,
            deadline_at: self.deadline_at,
            created_at: self.created_at,
        }
    }

    /// Move a sub-job one allowed step and arm its deadline.
    pub fn with_status_and_deadline(self, to: SubJobStatus, deadline_at: i64) -> (r: SubJob)
        requires
            self.status.step_allowed(to),
        ensures
            r.status == to,
            r.deadline_at == Some(deadline_at),
            r.id == self.id,
            r.job_id == self.job_id,
            r.kind == self.kind,
            r.details == self.details,
            r.created_at == self.created_at,
    {
        SubJob {
            id: self.id,
            job_id: self.job_id,
            status: to,
            kind: self.kind,
            details: self.details,
            deadline_at: Some(deadline_at),
            created_at: self.created_at,
        }
    }

    /// Fail a sub-job terminally and record the reason under `details.error`.
    pub fn with_failure(self, reason: FailReason) -> (r: SubJob)
        requires
            !self.status.is_terminal(),
        ensures
            r.status is Failed,
            r.details.error matches Some(m) && m@ == fail_message(reason),
            r.details.partial == self.details.partial,
            r.details.workers_count == self.details.workers_count,
            r.details.topic == self.details.topic,
            r.id == self.id,
            r.job_id == self.job_id,
            r.kind == self.kind,
            r.deadline_at == self.deadline_at,
            r.created_at == self.created_at,
    {
        SubJob {
            id: self.id,
            job_id: self.job_id,
            status: SubJobStatus::Failed,
            kind: self.kind,
            details: SubJobDetails {
                partial: self.details.partial,
                workers_count: self.details.workers_count,
                topic: self.details.topic,
                error: Some(reason.message().to_owned()),
            },
            deadline_at: self.deadline_at,
            created_at: self.created_at,
        }
    }

    /// Record the worker count the engine settled on for this sub-job.
    pub fn with_workers_count(self, workers_count: i64) -> (r: SubJob)
        ensures
            r.details.workers_count == Some(workers_count),
            r.details.partial == self.details.partial,
            r.details.topic == self.details.topic,
            r.details.error == self.details.error,
            r.status == self.status,
            r.id == self.id,
            r.job_id == self.job_id,
            r.kind == self.kind,
            r.deadline_at == self.deadline_at,
            r.created_at == self.created_at,
    {
        SubJob {
            id: self.id,
            job_id: self.job_id,
            status: self.status,
            kind: self.kind,
            details: SubJobDetails {
                partial: self.details.partial,
                workers_count: Some(workers_count),
                topic: self.details.topic,
                error: self.details.error,
            },
            deadline_at: self.deadline_at,
            created_at: self.created_at,
        }
    }
}

/// The topic a scaling sub-job scales for.
pub fn sub_job_topic(sub_job: &SubJob) -> (r: Result<&String, FailReason>)
    ensures
        sub_job.details.topic matches Some(t) ==> (r matches Ok(rt) && *rt == t),
        sub_job.details.topic is None ==> (r matches Err(e) && e == FailReason::MissingTopic),
{
    match &sub_job.details.topic {
        Some(t) => Ok(t),
        None => Err(FailReason::MissingTopic),
    }
}

/// A deadline has been crossed: it exists and lies strictly in the past.
pub open spec fn deadline_expired(deadline_at: Option<i64>, now: i64) -> bool {
    deadline_at matches Some(d) && now > d
}

/// The deadline guard every non-fresh sub-job passes first: a missing
/// deadline and a crossed deadline are both terminal.
pub fn check_deadline(deadline_at: Option<i64>, now: i64) -> (r: Result<(), FailReason>)
    ensures
        deadline_at is None ==> (r matches Err(e) && e == FailReason::NoDeadline),
        deadline_expired(deadline_at, now) ==> (r matches Err(e) && e == FailReason::DeadlinePassed),
        (deadline_at matches Some(d) && now <= d) ==> r is Ok,
{
    match deadline_at {
        None => Err(FailReason::NoDeadline),
        Some(d) => {
            if now > d {
                Err(FailReason::DeadlinePassed)
            } else {
                Ok(())
            }
        },
    }
}

/// By how much each service of the topic is scaled up: the per-job target,
/// split evenly across the services, rounded up.
pub open spec fn scale_each_by_spec(service_count: int) -> int {
    (MAX_JOB_WORKERS + service_count - 1) / service_count
}

/// The worker count a scaling sub-job waits for: the per-service share times
/// the number of services (so never less than the per-job target).
pub open spec fn scaling_workers_count_spec(service_count: int) -> int {
    scale_each_by_spec(service_count) * service_count
}

/// What the engine does with a scaling sub-job this tick.
#[derive(Debug, PartialEq, Eq, Structural)]
pub enum ScalingOutcome {
    /// Enough workers are already online: record the counts, extend every
    /// service's descale deadline, and cancel the sub-job.
    Cancel { workers_count: i64, descale_at: i64 },
    /// Scale every service up by `scale_each_by`, extend the descale
    /// deadlines, and move the sub-job to Processing with the deadline armed.
    ScaleUp { workers_count: i64, scale_each_by: usize, descale_at: i64, deadline_at: i64 },
    /// The fleet is still coming up; try again next tick.
    Wait,
    /// The fleet is up: complete the sub-job.
    Complete,
}

/// One tick of the scaling handler. `services` are the enabled services
/// bound to the sub-job's topic; `workers_online_count` counts the online
/// workers bound to it. An `Err` fails the sub-job terminally with the
/// reason's message under `details.error` — in particular, a Pending or
/// Processing sub-job whose deadline lies in the past is always failed this
/// very tick.
pub fn process_scaling(
    sub_job: &SubJob,
    services: &Vec<Service>,
    workers_online_count: usize,
    now: i64,
) -> (r: Result<ScalingOutcome, FailReason>)
    requires
        sub_job.kind is Scaling,
        services@.len() * 10 <= usize::MAX,
        services@.len() * 10 <= 0x7fff_ffff_ffff_ffff,
        now <= 0x7fff_ffff_ffff_ffff - 2_000_000,
    ensures
        sub_job.status is Created && services@.len() == 0 ==> (r matches Err(e) && e
            == FailReason::NoServicesFound),
        sub_job.status is Created && services@.len() > 0 && workers_online_count as int
            >= scaling_workers_count_spec(services@.len() as int) ==> r == Ok::<
            ScalingOutcome,
            FailReason,
        >(
            ScalingOutcome::Cancel {
                workers_count: scaling_workers_count_spec(services@.len() as int) as i64,
                descale_at: (now + SERVICE_DESCALE_DEADLINE_MS) as i64,
            },
        ),
        sub_job.status is Created && services@.len() > 0 && (workers_online_count as int)
            < scaling_workers_count_spec(services@.len() as int) ==> r == Ok::<
            ScalingOutcome,
            FailReason,
        >(
            ScalingOutcome::ScaleUp {
                workers_count: scaling_workers_count_spec(services@.len() as int) as i64,
                scale_each_by: scale_each_by_spec(services@.len() as int) as usize,
                descale_at: (now + SERVICE_DESCALE_DEADLINE_MS) as i64,
                deadline_at: (now + SCALING_SUB_JOB_DEADLINE_MS) as i64,
            },
        ),
        sub_job.status is Pending ==> (r matches Err(e) && e == FailReason::InvalidPendingState),
        sub_job.status is Processing ==> {
            if sub_job.deadline_at is None {
                r matches Err(e) && e == FailReason::NoDeadline
            } else if deadline_expired(sub_job.deadline_at, now) {
                r matches Err(e) && e == FailReason::DeadlinePassed
            } else if services@.len() == 0 {
                r matches Err(e) && e == FailReason::NoServicesFound
            } else if workers_online_count as int >= scaling_workers_count_spec(
                services@.len() as int,
            ) {
                r == Ok::<ScalingOutcome, FailReason>(ScalingOutcome::Complete)
            } else {
                r == Ok::<ScalingOutcome, FailReason>(ScalingOutcome::Wait)
            }
        },
        sub_job.status.is_terminal() ==> (r matches Err(e) && e == FailReason::InvalidStatus),
        r matches Ok(o) && o is Cancel ==> sub_job.status.step_allowed(SubJobStatus::Canceled),
        r matches Ok(o) && o is ScaleUp ==> sub_job.status.step_allowed(SubJobStatus::Processing),
        r matches Ok(o) && o is Complete ==> sub_job.status.step_allowed(SubJobStatus::Completed),
        r is Err && !sub_job.status.is_terminal() ==> sub_job.status.step_allowed(
            SubJobStatus::Failed,
        ),
{
    match sub_job.status {
        SubJobStatus::Created => {
            if services.len() == 0 {
                return Err(FailReason::NoServicesFound);
            }
            let (scale_each_by, workers_count) = scaling_counts(services.len());
            let descale_at = now + SERVICE_DESCALE_DEADLINE_MS;
            if workers_online_count >= workers_count {
                Ok(ScalingOutcome::Cancel { workers_count: workers_count as i64, descale_at })
            } else {
                Ok(
                    ScalingOutcome::ScaleUp {
                        workers_count: workers_count as i64,
                        scale_each_by,
                        descale_at,
                        deadline_at: now + SCALING_SUB_JOB_DEADLINE_MS,
                    },
                )
            }
        },
        SubJobStatus::Pending => Err(FailReason::InvalidPendingState),
        SubJobStatus::Processing => {
            match check_deadline(sub_job.deadline_at, now) {
                Err(e) => Err(e),
                Ok(()) => {
                    if services.len() == 0 {
                        return Err(FailReason::NoServicesFound);
                    }
                    let (_, workers_count) = scaling_counts(services.len());
                    if workers_online_count >= workers_count {
                        Ok(ScalingOutcome::Complete)
                    } else {
                        Ok(ScalingOutcome::Wait)
                    }
                },
            }
        },
        _ => Err(FailReason::InvalidStatus),
    }
}

/// The per-service share and the total worker count for a topic with
/// `service_count` enabled services.
fn scaling_counts(service_count: usize) -> (r: (usize, usize))
    requires
        1 <= service_count,
        service_count * 10 <= usize::MAX,
    ensures
        r.0 == scale_each_by_spec(service_count as int),
        r.1 == scaling_workers_count_spec(service_count as int),
{
    proof {
        assert((MAX_JOB_WORKERS + service_count - 1) as int / service_count as int
            <= MAX_JOB_WORKERS as int) by (nonlinear_arith)
            requires
                1 <= service_count,
        ;
        assert(((MAX_JOB_WORKERS + service_count - 1) as int / service_count as int)
            * service_count as int <= service_count as int * 10) by (nonlinear_arith)
            requires
                1 <= service_count,
        ;
    }
    let scale_each_by = (MAX_JOB_WORKERS + service_count - 1) / service_count;
    let workers_count = scale_each_by * service_count;
    (scale_each_by, workers_count)
}


/// How many of the online workers a benchmark sub-job leaves out: with a
/// share `partial` of workers meant to run it, the floor of
/// `n * (100 - partial) / 100` names are excluded; an absent or out-of-range
/// share excludes nobody.
pub open spec fn exclude_count_spec(partial: Option<i64>, n: int) -> int {
    match partial {
        Some(p) => if 0 < p < 100 {
            let k = n * (100 - p) / 100;
            if k < n {
                k
            } else {
                0
            }
        } else {
            0
        },
        None => 0,
    }
}

/// The worker names excluded from a benchmark dispatch and the count of
/// workers that will run it. The excluded names are the first
/// `exclude_count_spec` entries of the (stably ordered) online list, so the
/// choice is deterministic across restarts.
pub fn excluded_workers(partial: Option<i64>, workers_online: &Vec<String>) -> (r: (
    Vec<String>,
    i64,
))
    requires
        workers_online@.len() <= 0x7fff_ffff_ffff_ffff,
    ensures
        r.0@ == workers_online@.subrange(
            0,
            exclude_count_spec(partial, workers_online@.len() as int),
        ),
        r.1 == workers_online@.len() - exclude_count_spec(partial, workers_online@.len() as int),
{
    let n = workers_online.len();
    let k: usize = match partial {
        Some(p) => {
            if 0 < p && p < 100 {
                let q = (100 - p) as u128;
                proof {
                    assert((n as u128) * (q as u128) <= 0xffff_ffff_ffff_ffff * 100u128)
                        by (nonlinear_arith)
                        requires
                            n <= 0xffff_ffff_ffff_ffffu128,
                            q <= 100,
                    ;
                    assert((n as u128) * (q as u128) / 100 <= n as u128) by (nonlinear_arith)
                        requires
                            q <= 100,
                    ;
                }
                let kk = (n as u128) * q / 100;
                let k0 = kk as usize;
                if k0 < n {
                    k0
                } else {
                    0
                }
            } else {
                0
            }
        },
        None => 0,
    };
    let ghost kg = exclude_count_spec(partial, n as int);
    assert(k == kg);
    let mut excluded: Vec<String> = Vec::new();
    let mut i: usize = 0;
    while i < k
        invariant
            k <= n,
            n == workers_online@.len(),
            i <= k,
            excluded@.len() == i as int,
            forall|j: int| 0 <= j < i ==> excluded@[j] == workers_online@[j],
        decreases k - i,
    {
        excluded.push(workers_online[i].clone());
        i = i + 1;
    }
    proof {
        assert(excluded@ =~= workers_online@.subrange(0, k as int));
    }
    (excluded, (n - k) as i64)
}

/// The exclusion arithmetic, exactly: for a share strictly between 0 and 100
/// the excluded count is the floor of `n * (100 - partial) / 100`, and it is
/// always strictly smaller than `n` when any worker is online, so at least
/// one worker runs the sub-job.
pub proof fn lemma_partial_exclusion(p: i64, n: int)
    requires
        0 < p < 100,
        0 <= n,
    ensures
        exclude_count_spec(Some(p), n) == n * (100 - p) / 100,
        n > 0 ==> exclude_count_spec(Some(p), n) < n,
{
    let k = n * (100 - p) / 100;
    if n == 0 {
        assert(k == 0);
    } else {
        assert(k < n) by (nonlinear_arith)
            requires
                0 < p < 100,
                1 <= n,
                k == n * (100 - p) / 100,
        ;
    }
}

/// What the engine does with a benchmark (download/head/ping) sub-job this
/// tick.
#[derive(Debug)]
pub enum DhpOutcome {
    /// Record `workers_count` on the sub-job, publish `message` on the job's
    /// routing key, and move the sub-job to Pending with the deadline armed.
    Dispatch { workers_count: i64, message: JobMessage, deadline_at: i64 },
    /// Nothing to do this tick.
    Wait,
    /// Enough result rows arrived: complete the sub-job, and complete the
    /// job too when `job_completed` says no unfinished benchmark sub-job of
    /// the job is left.
    Complete { job_completed: bool },
    /// A sub-job already in a terminal status is left alone.
    Ignore,
}

/// One tick of the benchmark handler. `workers_online` are the online
/// workers of the job's topic, `data_count` counts the result rows stored
/// for this sub-job, and `remaining_unfinished_dhp` counts the other
/// benchmark sub-jobs of the job still unfinished. An `Err` fails the
/// sub-job terminally — in particular, a Pending or Processing sub-job whose
/// deadline lies in the past is always failed this very tick.
pub fn process_combined_dhp(
    sub_job: &SubJob,
    job: &Job,
    workers_online: &Vec<String>,
    data_count: usize,
    remaining_unfinished_dhp: usize,
    now: i64,
) -> (r: Result<DhpOutcome, FailReason>)
    requires
        sub_job.kind is CombinedDHP,
        job.details.wf(),
        workers_online@.len() <= 0x7fff_ffff_ffff_ffff,
        now <= 0x7fff_ffff_ffff_ffff - 2_000_000,
    ensures
        sub_job.status is Created && workers_online@.len() == 0 ==> (r matches Err(e) && e
            == FailReason::NoWorkersOnline),
        sub_job.status is Created && workers_online@.len() > 0 ==> (r matches Ok(
            DhpOutcome::Dispatch { workers_count, message, deadline_at },
        ) && {
            let k = exclude_count_spec(sub_job.details.partial, workers_online@.len() as int);
            &&& workers_count == workers_online@.len() - k
            &&& message.job_id == job.id
            &&& message.sub_job_id == sub_job.id
            &&& message.url == job.url
            &&& message.start_time == now + SYNC_DELAY_MS
            &&& message.download_start_time == now + SYNC_DELAY_MS + DOWNLOAD_DELAY_MS
            &&& message.start_range == job.details.start_range as u64
            &&& message.end_range == job.details.end_range as u64
            &&& message.excluded_workers@ == workers_online@.subrange(0, k)
            &&& deadline_at == now + SYNC_DELAY_MS + DOWNLOAD_DELAY_MS + 2
                * MAX_DOWNLOAD_DURATION_MS
        }),
        sub_job.status is Pending ==> {
            if sub_job.deadline_at is None {
                r matches Err(e) && e == FailReason::NoDeadline
            } else if deadline_expired(sub_job.deadline_at, now) {
                r matches Err(e) && e == FailReason::DeadlinePassed
            } else {
                r matches Ok(o) && o is Wait
            }
        },
        sub_job.status is Processing ==> {
            if sub_job.deadline_at is None {
                r matches Err(e) && e == FailReason::NoDeadline
            } else if deadline_expired(sub_job.deadline_at, now) {
                r matches Err(e) && e == FailReason::DeadlinePassed
            } else if sub_job.details.workers_count is None {
                r matches Err(e) && e == FailReason::MissingWorkersCount
            } else if sub_job.details.workers_count->0 < 0 {
                r matches Err(e) && e == FailReason::InvalidWorkersCount
            } else if data_count as int >= sub_job.details.workers_count->0 {
                r matches Ok(o) && o == (DhpOutcome::Complete {
                    job_completed: remaining_unfinished_dhp == 0,
                })
            } else {
                r matches Ok(o) && o is Wait
            }
        },
        sub_job.status.is_terminal() ==> (r matches Ok(o) && o is Ignore),
        r matches Ok(o) && o is Dispatch ==> sub_job.status.step_allowed(SubJobStatus::Pending),
        r matches Ok(o) && o is Complete ==> sub_job.status.step_allowed(SubJobStatus::Completed),
        r is Err ==> sub_job.status.step_allowed(SubJobStatus::Failed),
{
    match sub_job.status {
        SubJobStatus::Created => {
            if workers_online.len() == 0 {
                return Err(FailReason::NoWorkersOnline);
            }
            let (excluded, workers_count) = excluded_workers(
                sub_job.details.partial,
                workers_online,
            );
            let start_time = now + SYNC_DELAY_MS;
            let download_start_time = start_time + DOWNLOAD_DELAY_MS;
            let deadline_at = download_start_time + 2 * MAX_DOWNLOAD_DURATION_MS;
            let message = JobMessage {
                job_id: job.id,
                sub_job_id: sub_job.id,
                url: job.url.clone(),
                start_time,
                download_start_time,
                start_range: job.details.start_range as u64,
                end_range: job.details.end_range as u64,
                excluded_workers: excluded,
            };
            Ok(DhpOutcome::Dispatch { workers_count, message, deadline_at })
        },
        SubJobStatus::Pending => {
            match check_deadline(sub_job.deadline_at, now) {
                Err(e) => Err(e),
                Ok(()) => Ok(DhpOutcome::Wait),
            }
        },
        SubJobStatus::Processing => {
            match check_deadline(sub_job.deadline_at, now) {
                Err(e) => Err(e),
                Ok(()) => {
                    match sub_job.details.workers_count {
                        None => Err(FailReason::MissingWorkersCount),
                        Some(w) => {
                            if w < 0 {
                                Err(FailReason::InvalidWorkersCount)
                            } else if data_count as u64 >= w as u64 {
                                Ok(
                                    DhpOutcome::Complete {
                                        job_completed: remaining_unfinished_dhp == 0,
                                    },
                                )
                            } else {
                                Ok(DhpOutcome::Wait)
                            }
                        },
                    }
                },
            }
        },
        _ => Ok(DhpOutcome::Ignore),
    }
}


/// `subs[i]` is an unfinished sub-job no other unfinished sub-job is older
/// than: what the engine drives next.
pub open spec fn oldest_unfinished(subs: Seq<SubJob>, i: int) -> bool {
    &&& 0 <= i < subs.len()
    &&& subs[i].status.is_unfinished()
    &&& forall|j: int|
        0 <= j < subs.len() && #[trigger] subs[j].status.is_unfinished() ==> subs[i].created_at
            <= subs[j].created_at
}

/// Pick the sub-job the engine drives this tick: the oldest unfinished one,
/// or none when all are finished.
pub fn pick_next_sub_job(subs: &Vec<SubJob>) -> (r: Option<usize>)
    ensures
        r matches Some(i) ==> oldest_unfinished(subs@, i as int),
        r is None ==> forall|j: int|
            0 <= j < subs@.len() ==> !(#[trigger] subs@[j].status.is_unfinished()),
{
    let mut best: Option<usize> = None;
    let mut i: usize = 0;
    while i < subs.len()
        invariant
            i <= subs@.len(),
            best matches Some(b) ==> b < i && subs@[b as int].status.is_unfinished() && forall|
                j: int,
            |
                0 <= j < i && #[trigger] subs@[j].status.is_unfinished() ==> subs@[
                    b as int
                ].created_at <= subs@[j].created_at,
            best is None ==> forall|j: int|
                0 <= j < i ==> !(#[trigger] subs@[j].status.is_unfinished()),
        decreases subs@.len() - i,
    {
        if subs[i].status.unfinished() {
            match best {
                None => {
                    best = Some(i);
                },
                Some(b) => {
                    if subs[i].created_at < subs[b].created_at {
                        best = Some(i);
                    }
                },
            }
        }
        i = i + 1;
    }
    best
}

/// The fleet is scaled before any benchmark of the same job is dispatched:
/// when the engine picks a benchmark sub-job, the job's scaling sub-job —
/// which was created strictly earlier — is already in a terminal status
/// (Completed, Failed or Canceled; on a failure-free run, that means it
/// reached Processing and completed, or was Canceled because the fleet was
/// already warm).
pub proof fn lemma_scaling_precedes_dispatch(subs: Seq<SubJob>, i: int, k: int)
    requires
        oldest_unfinished(subs, i),
        subs[i].kind is CombinedDHP,
        0 <= k < subs.len(),
        subs[k].kind is Scaling,
        subs[k].job_id == subs[i].job_id,
        subs[k].created_at < subs[i].created_at,
    ensures
        subs[k].status.is_terminal(),
{
    if subs[k].status.is_unfinished() {
        assert(subs[i].created_at <= subs[k].created_at);
    }
}

/// `subs[..]` restricted to benchmark sub-jobs of `job_id` that are still
/// unfinished, counted.
pub open spec fn count_unfinished_dhp_spec(subs: Seq<SubJob>, job_id: u128) -> int
    decreases subs.len(),
{
    if subs.len() == 0 {
        0
    } else {
        count_unfinished_dhp_spec(subs.drop_last(), job_id) + if subs.last().job_id == job_id
            && subs.last().kind is CombinedDHP && subs.last().status.is_unfinished() {
            1int
        } else {
            0int
        }
    }
}

pub proof fn lemma_count_unfinished_dhp_nonneg(subs: Seq<SubJob>, job_id: u128)
    ensures
        0 <= count_unfinished_dhp_spec(subs, job_id) <= subs.len(),
    decreases subs.len(),
{
    if subs.len() > 0 {
        lemma_count_unfinished_dhp_nonneg(subs.drop_last(), job_id);
    }
}

/// Count the benchmark sub-jobs of a job that are still unfinished: the
/// completion rule marks the job Completed exactly when this reaches zero.
pub fn count_unfinished_dhp(subs: &Vec<SubJob>, job_id: u128) -> (n: usize)
    ensures
        n == count_unfinished_dhp_spec(subs@, job_id),
{
    proof {
        lemma_count_unfinished_dhp_nonneg(subs@, job_id);
    }
    let mut n: usize = 0;
    let mut i: usize = 0;
    while i < subs.len()
        invariant
            i <= subs@.len(),
            n == count_unfinished_dhp_spec(subs@.take(i as int), job_id),
            n <= i,
        decreases subs@.len() - i,
    {
        proof {
            assert(subs@.take(i + 1).drop_last() =~= subs@.take(i as int));
            assert(subs@.take(i + 1).last() == subs@[i as int]);
        }
        if subs[i].job_id == job_id && matches!(subs[i].kind, SubJobType::CombinedDHP)
            && subs[i].status.unfinished() {
            n = n + 1;
        }
        i = i + 1;
    }
    proof {
        assert(subs@.take(subs@.len() as int) =~= subs@);
    }
    n
}

/// The completion rule: as long as no benchmark sub-job of the job has been
/// failed or canceled, the unfinished count is zero exactly when every
/// benchmark sub-job of the job is Completed.
pub proof fn lemma_completion_rule(subs: Seq<SubJob>, job_id: u128)
    requires
        forall|j: int|
            0 <= j < subs.len() && subs[j].job_id == job_id && #[trigger] subs[j].kind
                is CombinedDHP ==> !(subs[j].status is Failed) && !(subs[j].status is Canceled),
    ensures
        count_unfinished_dhp_spec(subs, job_id) == 0 <==> forall|j: int|
            0 <= j < subs.len() && subs[j].job_id == job_id && #[trigger] subs[j].kind
                is CombinedDHP ==> subs[j].status is Completed,
    decreases subs.len(),
{
    if subs.len() == 0 {
    } else {
        let prefix = subs.drop_last();
        assert(forall|j: int| 0 <= j < prefix.len() ==> prefix[j] == subs[j]);
        lemma_completion_rule(prefix, job_id);
        lemma_count_unfinished_dhp_nonneg(prefix, job_id);
        let l = subs.len() - 1;
        if count_unfinished_dhp_spec(subs, job_id) == 0 {
            assert(forall|j: int|
                0 <= j < subs.len() && subs[j].job_id == job_id && #[trigger] subs[j].kind
                    is CombinedDHP ==> subs[j].status is Completed) by {
                assert(count_unfinished_dhp_spec(prefix, job_id) == 0);
                if subs[l].job_id == job_id && subs[l].kind is CombinedDHP {
                    assert(!subs[l].status.is_unfinished());
                    assert(subs[l].status is Completed);
                }
            }
        } else {
            if subs[l].job_id == job_id && subs[l].kind is CombinedDHP && subs[l].status
                is Completed {
                assert(!subs[l].status.is_unfinished());
            }
            if count_unfinished_dhp_spec(prefix, job_id) > 0 {
                let w = choose|j: int|
                    0 <= j < prefix.len() && prefix[j].job_id == job_id && #[trigger] prefix[j].kind
                        is CombinedDHP && !(prefix[j].status is Completed);
                assert(subs[w].kind is CombinedDHP && !(subs[w].status is Completed));
            }
        }
    }
}

/// Statuses only move forward: along any run of allowed steps, the position
/// on the chain never decreases and the absorbing statuses Failed and
/// Canceled are never left — the observed status sequence is a prefix of
/// Created -> Pending -> Processing -> Completed, possibly ending in Failed
/// or Canceled.
pub proof fn lemma_status_monotonic(statuses: Seq<SubJobStatus>, i: int, j: int)
    requires
        forall|t: int|
            0 <= t < statuses.len() - 1 ==> #[trigger] statuses[t].step_allowed(statuses[t + 1]),
        0 <= i <= j < statuses.len(),
    ensures
        statuses[i].rank() <= statuses[j].rank(),
        statuses[i].is_absorbing() ==> statuses[j] == statuses[i],
    decreases j - i,
{
    if i < j {
        lemma_status_monotonic(statuses, i, j - 1);
        assert(statuses[j - 1].step_allowed(statuses[(j - 1) + 1]));
        assert(statuses[(j - 1) + 1] == statuses[j]);
    }
}


/// The same forward-only guarantee for a job's own status.
pub proof fn lemma_job_status_monotonic(statuses: Seq<JobStatus>, i: int, j: int)
    requires
        forall|t: int|
            0 <= t < statuses.len() - 1 ==> #[trigger] statuses[t].step_allowed(statuses[t + 1]),
        0 <= i <= j < statuses.len(),
    ensures
        statuses[i].rank() <= statuses[j].rank(),
        statuses[i].is_absorbing() ==> statuses[j] == statuses[i],
    decreases j - i,
{
    if i < j {
        lemma_job_status_monotonic(statuses, i, j - 1);
        assert(statuses[j - 1].step_allowed(statuses[(j - 1) + 1]));
        assert(statuses[(j - 1) + 1] == statuses[j]);
    }
}

} // verus!
