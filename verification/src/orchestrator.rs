//! Job creation and cancellation: validating a request, choosing the byte
//! range the benchmark downloads, and laying out the job's sub-job pipeline
//! (one scaling step, then the benchmark steps, oldest first).

use vstd::prelude::*;
use crate::domain::{
    Job,
    JobDetails,
    JobStatus,
    SubJob,
    SubJobDetails,
    SubJobStatus,
    SubJobType,
};

verus! {

/// Why a job request is rejected before anything is persisted.
#[derive(Clone, Copy, Debug, PartialEq, Eq, Structural)]
pub enum JobValidationError {
    InvalidUrl,
    UnsupportedScheme,
    EmptyRoutingKey,
}

/// The text each rejection answers with.
pub open spec fn validation_message(e: JobValidationError) -> Seq<char> {
    match e {
        JobValidationError::InvalidUrl => "Invalid URL provided"@,
        JobValidationError::UnsupportedScheme => "URL scheme must be http or https"@,
        JobValidationError::EmptyRoutingKey => "Routing key cannot be empty"@,
    }
}

impl JobValidationError {
    pub fn message(&self) -> (r: &'static str)
        ensures
            r@ == validation_message(*self),
    {
        match self {
            JobValidationError::InvalidUrl => "Invalid URL provided",
            JobValidationError::UnsupportedScheme => "URL scheme must be http or https",
            JobValidationError::EmptyRoutingKey => "Routing key cannot be empty",
        }
    }
}

/// The requested file is smaller than the size the benchmark must download.
#[derive(Clone, Copy, Debug, PartialEq, Eq, Structural)]
pub enum RangeError {
    ContentTooSmall,
}

/// The numeric knobs of a job request, after clamping.
#[derive(Clone, Copy, Debug, PartialEq, Eq, Structural)]
pub struct JobParams {
    pub worker_count: i64,
    pub size_mb: i64,
    pub log_interval_ms: i64,
}

/// `v` forced into `[lo, hi]`.
pub open spec fn clamp_spec(v: int, lo: int, hi: int) -> int {
    if v < lo {
        lo
    } else if v > hi {
        hi
    } else {
        v
    }
}

fn clamp_i64(v: i64, lo: i64, hi: i64) -> (r: i64)
    requires
        lo <= hi,
    ensures
        r == clamp_spec(v as int, lo as int, hi as int),
{
    if v < lo {
        lo
    } else if v > hi {
        hi
    } else {
        v
    }
}

/// The parameters a validated request settles on: each knob defaulted and
/// clamped into its documented range.
pub open spec fn clamped_params(
    worker_count: Option<i64>,
    size_mb: Option<i64>,
    log_interval_ms: Option<i64>,
) -> JobParams {
    JobParams {
        worker_count: clamp_spec(
            match worker_count {
                Some(v) => v as int,
                None => 10,
            },
            1,
            40,
        ) as i64,
        size_mb: clamp_spec(
            match size_mb {
                Some(v) => v as int,
                None => 100,
            },
            10,
            1024,
        ) as i64,
        log_interval_ms: clamp_spec(
            match log_interval_ms {
                Some(v) => v as int,
                None => 1000,
            },
            100,
            1000,
        ) as i64,
    }
}

/// The scheme of a parsed URL, or nothing for a string that is no URL. What
/// `url::Url::parse` yields depends on the characters alone.
pub uninterp spec fn url_scheme_of(s: Seq<char>) -> Option<Seq<char>>;

/// Relies on url::Url::parse and url::Url::scheme: parse a URL string and
/// hand back its (normalized) scheme, or nothing when it does not parse.
#[verifier::external_body]
fn parse_scheme(s: &str) -> (r: Option<String>)
    ensures
        r matches Some(sch) ==> url_scheme_of(s@) == Some(sch@),
        r is None ==> url_scheme_of(s@) is None,
{
    url::Url::parse(s).ok().map(|u| u.scheme().to_string())
}

/// Validate a request given the already-extracted URL scheme: the scheme
/// must be http or https and the routing key non-empty; the numeric knobs
/// are defaulted and clamped, never rejected.
pub fn validate_with_scheme(
    scheme: &Option<String>,
    routing_key: &str,
    worker_count: Option<i64>,
    size_mb: Option<i64>,
    log_interval_ms: Option<i64>,
) -> (r: Result<JobParams, JobValidationError>)
    ensures
        scheme is None ==> r == Err::<JobParams, JobValidationError>(
            JobValidationError::InvalidUrl,
        ),
        scheme matches Some(s) && !(s@ == "http"@ || s@ == "https"@) ==> r == Err::<
            JobParams,
            JobValidationError,
        >(JobValidationError::UnsupportedScheme),
        scheme matches Some(s) && (s@ == "http"@ || s@ == "https"@) && routing_key@.len() == 0
            ==> r == Err::<JobParams, JobValidationError>(JobValidationError::EmptyRoutingKey),
        scheme matches Some(s) && (s@ == "http"@ || s@ == "https"@) && routing_key@.len() > 0
            ==> r == Ok::<JobParams, JobValidationError>(
            clamped_params(worker_count, size_mb, log_interval_ms),
        ),
{
    match scheme {
        None => Err(JobValidationError::InvalidUrl),
        Some(s) => {
            let http = "http".to_owned();
            let https = "https".to_owned();
            if !(*s == http || *s == https) {
                Err(JobValidationError::UnsupportedScheme)
            } else if routing_key.unicode_len() == 0 {
                Err(JobValidationError::EmptyRoutingKey)
            } else {
                Ok(
                    JobParams {
                        worker_count: clamp_i64(
                            match worker_count {
                                Some(v) => v,
                                None => 10,
                            },
                            1,
                            40,
                        ),
                        size_mb: clamp_i64(
                            match size_mb {
                                Some(v) => v,
                                None => 100,
                            },
                            10,
                            1024,
                        ),
                        log_interval_ms: clamp_i64(
                            match log_interval_ms {
                                Some(v) => v,
                                None => 1000,
                            },
                            100,
                            1000,
                        ),
                    },
                )
            }
        },
    }
}

/// Validate a raw job request: parse the URL, then check scheme, routing key
/// and knobs.
pub fn validate_job_request(
    url: &str,
    routing_key: &str,
    worker_count: Option<i64>,
    size_mb: Option<i64>,
    log_interval_ms: Option<i64>,
) -> (r: Result<JobParams, JobValidationError>)
    ensures
        url_scheme_of(url@) is None ==> r == Err::<JobParams, JobValidationError>(
            JobValidationError::InvalidUrl,
        ),
        url_scheme_of(url@) matches Some(s) && !(s == "http"@ || s == "https"@) ==> r == Err::<
            JobParams,
            JobValidationError,
        >(JobValidationError::UnsupportedScheme),
        url_scheme_of(url@) matches Some(s) && (s == "http"@ || s == "https"@) && routing_key@.len()
            == 0 ==> r == Err::<JobParams, JobValidationError>(
            JobValidationError::EmptyRoutingKey,
        ),
        url_scheme_of(url@) matches Some(s) && (s == "http"@ || s == "https"@) && routing_key@.len()
            > 0 ==> r == Ok::<JobParams, JobValidationError>(
            clamped_params(worker_count, size_mb, log_interval_ms),
        ),
{
    let scheme = parse_scheme(url);
    validate_with_scheme(&scheme, routing_key, worker_count, size_mb, log_interval_ms)
}

/// Relies on rand::random_range over `0..bound`: a non-empty integer range
/// yields a value of the range.
#[verifier::external_body]
fn random_below(bound: i64) -> (r: i64)
    requires
        bound > 0,
    ensures
        0 <= r < bound,
{
    rand::random_range(0..bound)
}

/// Check a HEAD response's content length against the requested benchmark
/// size and choose the byte range to download: a uniformly random offset
/// such that the whole range lies inside the file.
pub fn pick_byte_range(content_length: i64, size_mb: i64) -> (r: Result<(i64, i64), RangeError>)
    requires
        10 <= size_mb <= 1024,
    ensures
        content_length < size_mb * 1_048_576 ==> r == Err::<(i64, i64), RangeError>(
            RangeError::ContentTooSmall,
        ),
        content_length >= size_mb * 1_048_576 ==> (r matches Ok((start, end)) && 0 <= start && end
            == start + size_mb * 1_048_576 && end <= content_length),
{
    let size = size_mb * 1024 * 1024;
    if content_length < size {
        Err(RangeError::ContentTooSmall)
    } else if content_length == size {
        Ok((0, size))
    } else {
        let start = random_below(content_length - size);
        Ok((start, start + size))
    }
}

/// Relies on uuid::Uuid::new_v4: a fresh random identifier; nothing is
/// promised of its value.
#[verifier::external_body]
fn fresh_id() -> (r: u128)
{
    uuid::Uuid::new_v4().as_u128()
}

/// Lay out a new job and its sub-job pipeline: the job starts Pending, and
/// its sub-jobs — oldest first — are the scaling step for the routing key,
/// a benchmark for 1 percent of the workers, one for 80 percent, and one for
/// all of them. All sub-jobs start Created with no deadline.
pub fn create_job_plan(
    url: String,
    routing_key: String,
    params: JobParams,
    entity: Option<String>,
    note: Option<String>,
    start_range: i64,
    end_range: i64,
    now: i64,
) -> (r: (Job, Vec<SubJob>))
    requires
        now <= i64::MAX - 3,
    ensures
        r.0.url == url,
        r.0.routing_key == routing_key,
        r.0.status is Pending,
        r.0.details == (JobDetails {
            start_range,
            end_range,
            target_worker_count: Some(params.worker_count),
            workers_count: None,
            entity,
            note,
            log_interval_ms: params.log_interval_ms,
            size_mb: params.size_mb,
        }),
        r.1@.len() == 4,
        forall|i: int|
            0 <= i < 4 ==> (#[trigger] r.1@[i]).job_id == r.0.id && r.1@[i].status is Created
                && r.1@[i].deadline_at is None && r.1@[i].created_at == now + i
                && r.1@[i].details.workers_count is None && r.1@[i].details.error is None,
        r.1@[0].kind is Scaling,
        r.1@[0].details.topic matches Some(t) && t == routing_key,
        r.1@[0].details.partial is None,
        forall|i: int| 1 <= i < 4 ==> (#[trigger] r.1@[i]).kind is CombinedDHP && r.1@[i].details.topic is None,
        r.1@[1].details.partial == Some(1i64),
        r.1@[2].details.partial == Some(80i64),
        r.1@[3].details.partial is None,
{
    let job_id = fresh_id();
    let topic = routing_key.clone();
    let job = Job {
        id: job_id,
        url,
        routing_key,
        status: JobStatus::Pending,
        details: JobDetails {
            start_range,
            end_range,
            target_worker_count: Some(params.worker_count),
            workers_count: None,
            entity,
            note,
            log_interval_ms: params.log_interval_ms,
            size_mb: params.size_mb,
        },
    };
    let mut sub_jobs: Vec<SubJob> = Vec::new();
    sub_jobs.push(
        SubJob {
            id: fresh_id(),
            job_id,
            status: SubJobStatus::Created,
            kind: SubJobType::Scaling,
            details: SubJobDetails::topic(topic),
            deadline_at: None,
            created_at: now,
        },
    );
    sub_jobs.push(
        SubJob {
            id: fresh_id(),
            job_id,
            status: SubJobStatus::Created,
            kind: SubJobType::CombinedDHP,
            details: SubJobDetails::partial(1),
            deadline_at: None,
            created_at: now + 1,
        },
    );
    sub_jobs.push(
        SubJob {
            id: fresh_id(),
            job_id,
            status: SubJobStatus::Created,
            kind: SubJobType::CombinedDHP,
            details: SubJobDetails::partial(80),
            deadline_at: None,
            created_at: now + 2,
        },
    );
    sub_jobs.push(
        SubJob {
            id: fresh_id(),
            job_id,
            status: SubJobStatus::Created,
            kind: SubJobType::CombinedDHP,
            details: SubJobDetails::empty(),
            deadline_at: None,
            created_at: now + 3,
        },
    );
    (job, sub_jobs)
}

/// Cancel a job: whatever its status was — a Completed job included — it
/// becomes Canceled, and nothing else changes.
pub fn cancel_job(job: Job) -> (r: Job)
    ensures
        r.status is Canceled,
        r.id == job.id,
        r.url == job.url,
        r.routing_key == job.routing_key,
        r.details == job.details,
{
    Job {
        id: job.id,
        url: job.url,
        routing_key: job.routing_key,
        status: JobStatus::Canceled,
        details: job.details,
    }
}

/// Cancel every sub-job of a job: each one — Completed ones included —
/// becomes Canceled, and nothing else changes.
pub fn cancel_sub_jobs(sub_jobs: &Vec<SubJob>) -> (r: Vec<SubJob>)
    ensures
        r@.len() == sub_jobs@.len(),
        forall|i: int|
            0 <= i < sub_jobs@.len() ==> #[trigger] r@[i] == (SubJob {
                id: sub_jobs@[i].id,
                job_id: sub_jobs@[i].job_id,
                status: SubJobStatus::Canceled,
                kind: sub_jobs@[i].kind,
                details: sub_jobs@[i].details,
                deadline_at: sub_jobs@[i].deadline_at,
                created_at: sub_jobs@[i].created_at,
            }),
{
    let mut r: Vec<SubJob> = Vec::new();
    let mut i: usize = 0;
    while i < sub_jobs.len()
        invariant
            i <= sub_jobs@.len(),
            r@.len() == i as int,
            forall|j: int|
                0 <= j < i ==> #[trigger] r@[j] == (SubJob {
                    id: sub_jobs@[j].id,
                    job_id: sub_jobs@[j].job_id,
                    status: SubJobStatus::Canceled,
                    kind: sub_jobs@[j].kind,
                    details: sub_jobs@[j].details,
                    deadline_at: sub_jobs@[j].deadline_at,
                    created_at: sub_jobs@[j].created_at,
                }),
        decreases sub_jobs@.len() - i,
    {
        let sub = &sub_jobs[i];
        r.push(
            SubJob {
                id: sub.id,
                job_id: sub.job_id,
                status: SubJobStatus::Canceled,
                kind: sub.kind,
                details: sub.details.clone(),
                deadline_at: sub.deadline_at,
                created_at: sub.created_at,
            },
        );
        i = i + 1;
    }
    r
}

/// The page and page size a job listing uses: page defaults to the first,
/// the size is at least one hundred.
pub fn normalize_page(page: Option<i64>, limit: Option<i64>) -> (r: (i64, i64))
    ensures
        r.0 == match page {
            Some(p) => p,
            None => 0,
        },
        r.1 == {
            let l = match limit {
                Some(l) => l as int,
                None => 100,
            };
            if l > 100 {
                l
            } else {
                100
            }
        },
{
    let p = match page {
        Some(p) => p,
        None => 0,
    };
    let l = match limit {
        Some(l) => l,
        None => 100,
    };
    (p, if l > 100 {
        l
    } else {
        100
    })
}

} // verus!
