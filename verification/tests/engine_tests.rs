use bench_scheduler::domain::{
    Job, JobDetails, JobStatus, ProviderType, Service, ServiceDetails, SubJob, SubJobDetails,
    SubJobStatus, SubJobType,
};
use bench_scheduler::engine::{
    count_unfinished_dhp, excluded_workers, pick_next_sub_job, process_combined_dhp,
    process_scaling, DhpOutcome, FailReason, ScalingOutcome,
};

fn scaling_sub_job(status: SubJobStatus, deadline_at: Option<i64>) -> SubJob {
    SubJob {
        id: 1,
        job_id: 100,
        status,
        kind: SubJobType::Scaling,
        details: SubJobDetails::topic("us_east".to_string()),
        deadline_at,
        created_at: 0,
    }
}

fn dhp_sub_job(status: SubJobStatus, details: SubJobDetails, deadline_at: Option<i64>) -> SubJob {
    SubJob {
        id: 2,
        job_id: 100,
        status,
        kind: SubJobType::CombinedDHP,
        details,
        deadline_at,
        created_at: 1,
    }
}

fn service(id: u128) -> Service {
    Service {
        id,
        name: format!("svc{id}"),
        provider_type: ProviderType::DockerLocal,
        details: ServiceDetails { cluster: None, region: None },
        is_enabled: true,
        descale_at: None,
    }
}

fn job() -> Job {
    Job {
        id: 100,
        url: "http://files.example/piece".to_string(),
        routing_key: "us_east".to_string(),
        status: JobStatus::Pending,
        details: JobDetails::new(1024, 2048, 10, None, None, 1000, 100),
    }
}

fn names(n: usize) -> Vec<String> {
    (0..n).map(|i| format!("worker{i}")).collect()
}

#[test]
fn scaling_created_two_services_scales_each_by_five() {
    let sub = scaling_sub_job(SubJobStatus::Created, None);
    let services = vec![service(1), service(2)];
    let r = process_scaling(&sub, &services, 0, 50_000);
    assert_eq!(
        r,
        Ok(ScalingOutcome::ScaleUp {
            workers_count: 10,
            scale_each_by: 5,
            descale_at: 50_000 + 1_800_000,
            deadline_at: 50_000 + 1_500_000,
        })
    );
}

#[test]
fn scaling_created_three_services_rounds_up() {
    let sub = scaling_sub_job(SubJobStatus::Created, None);
    let services = vec![service(1), service(2), service(3)];
    let r = process_scaling(&sub, &services, 0, 0);
    assert_eq!(
        r,
        Ok(ScalingOutcome::ScaleUp {
            workers_count: 12,
            scale_each_by: 4,
            descale_at: 1_800_000,
            deadline_at: 1_500_000,
        })
    );
}

#[test]
fn scaling_created_warm_fleet_cancels() {
    // Workers already online: no scaling, the sub-job is canceled.
    let sub = scaling_sub_job(SubJobStatus::Created, None);
    let services = vec![service(1), service(2)];
    let r = process_scaling(&sub, &services, 10, 0);
    assert_eq!(
        r,
        Ok(ScalingOutcome::Cancel { workers_count: 10, descale_at: 1_800_000 })
    );
}

#[test]
fn scaling_created_no_services_fails() {
    let sub = scaling_sub_job(SubJobStatus::Created, None);
    let r = process_scaling(&sub, &Vec::new(), 0, 0);
    assert_eq!(r, Err(FailReason::NoServicesFound));
    assert_eq!(FailReason::NoServicesFound.message(), "No services found");
}

#[test]
fn scaling_pending_is_invalid() {
    let sub = scaling_sub_job(SubJobStatus::Pending, Some(10));
    let r = process_scaling(&sub, &vec![service(1)], 0, 0);
    assert_eq!(r, Err(FailReason::InvalidPendingState));
    assert_eq!(FailReason::InvalidPendingState.message(), "Invalid pending state");
}

#[test]
fn scaling_processing_completes_when_enough_online() {
    let sub = scaling_sub_job(SubJobStatus::Processing, Some(1_000_000));
    let services = vec![service(1), service(2)];
    assert_eq!(process_scaling(&sub, &services, 10, 0), Ok(ScalingOutcome::Complete));
    assert_eq!(process_scaling(&sub, &services, 9, 0), Ok(ScalingOutcome::Wait));
}

#[test]
fn scaling_processing_past_deadline_fails() {
    // Deadline safety: a Processing sub-job with a crossed deadline fails
    // this very tick.
    let sub = scaling_sub_job(SubJobStatus::Processing, Some(1_000));
    let r = process_scaling(&sub, &vec![service(1)], 10, 1_000);
    assert_eq!(r, Ok(ScalingOutcome::Complete));
    let r = process_scaling(&sub, &vec![service(1)], 10, 1_001);
    assert_eq!(r, Err(FailReason::DeadlinePassed));
    assert_eq!(FailReason::DeadlinePassed.message(), "Deadline passed");
}

#[test]
fn scaling_terminal_status_is_unexpected() {
    let sub = scaling_sub_job(SubJobStatus::Completed, None);
    let r = process_scaling(&sub, &vec![service(1)], 0, 0);
    assert_eq!(r, Err(FailReason::InvalidStatus));
}

#[test]
fn dhp_created_dispatches_with_exclusions() {
    let sub = dhp_sub_job(SubJobStatus::Created, SubJobDetails::partial(80), None);
    let online = names(10);
    let r = process_combined_dhp(&sub, &job(), &online, 0, 0, 1_000);
    match r {
        Ok(DhpOutcome::Dispatch { workers_count, message, deadline_at }) => {
            assert_eq!(workers_count, 8);
            assert_eq!(message.job_id, 100);
            assert_eq!(message.sub_job_id, 2);
            assert_eq!(message.url, "http://files.example/piece");
            assert_eq!(message.start_time, 2_000);
            assert_eq!(message.download_start_time, 12_000);
            assert_eq!(message.start_range, 1024);
            assert_eq!(message.end_range, 2048);
            assert_eq!(message.excluded_workers, vec!["worker0", "worker1"]);
            assert_eq!(deadline_at, 12_000 + 120_000);
        }
        other => panic!("expected a dispatch, got {other:?}"),
    }
}

#[test]
fn dhp_created_without_workers_fails() {
    let sub = dhp_sub_job(SubJobStatus::Created, SubJobDetails::empty(), None);
    let r = process_combined_dhp(&sub, &job(), &Vec::new(), 0, 0, 0);
    assert!(matches!(r, Err(FailReason::NoWorkersOnline)));
    assert_eq!(FailReason::NoWorkersOnline.message(), "No workers online");
}

#[test]
fn dhp_pending_waits_until_deadline() {
    let sub = dhp_sub_job(SubJobStatus::Pending, SubJobDetails::empty(), Some(5_000));
    assert!(matches!(
        process_combined_dhp(&sub, &job(), &names(1), 0, 0, 5_000),
        Ok(DhpOutcome::Wait)
    ));
    // One millisecond past the deadline the sub-job fails terminally.
    assert!(matches!(
        process_combined_dhp(&sub, &job(), &names(1), 0, 0, 5_001),
        Err(FailReason::DeadlinePassed)
    ));
}

#[test]
fn dhp_processing_completes_on_enough_data() {
    let mut details = SubJobDetails::empty();
    details.workers_count = Some(2);
    let sub = dhp_sub_job(SubJobStatus::Processing, details, Some(5_000));
    // One result row of two expected: keep waiting.
    assert!(matches!(
        process_combined_dhp(&sub, &job(), &names(2), 1, 1, 0),
        Ok(DhpOutcome::Wait)
    ));
    // Both rows in, but a sibling benchmark is still unfinished.
    assert!(matches!(
        process_combined_dhp(&sub, &job(), &names(2), 2, 1, 0),
        Ok(DhpOutcome::Complete { job_completed: false })
    ));
    // Both rows in and no sibling left: the job completes too.
    assert!(matches!(
        process_combined_dhp(&sub, &job(), &names(2), 2, 0, 0),
        Ok(DhpOutcome::Complete { job_completed: true })
    ));
}

#[test]
fn dhp_processing_missing_workers_count_fails() {
    let sub = dhp_sub_job(SubJobStatus::Processing, SubJobDetails::empty(), Some(5_000));
    assert!(matches!(
        process_combined_dhp(&sub, &job(), &names(1), 5, 0, 0),
        Err(FailReason::MissingWorkersCount)
    ));
    let mut details = SubJobDetails::empty();
    details.workers_count = Some(-1);
    let sub = dhp_sub_job(SubJobStatus::Processing, details, Some(5_000));
    assert!(matches!(
        process_combined_dhp(&sub, &job(), &names(1), 5, 0, 0),
        Err(FailReason::InvalidWorkersCount)
    ));
}

#[test]
fn dhp_terminal_status_is_ignored() {
    let sub = dhp_sub_job(SubJobStatus::Canceled, SubJobDetails::empty(), None);
    assert!(matches!(
        process_combined_dhp(&sub, &job(), &names(1), 0, 0, 0),
        Ok(DhpOutcome::Ignore)
    ));
}

#[test]
fn excluded_workers_partial_split() {
    // partial = 1: nine of ten workers are excluded, one runs.
    let online = names(10);
    let (excluded, workers_count) = excluded_workers(Some(1), &online);
    assert_eq!(excluded.len(), 9);
    assert_eq!(workers_count, 1);
    // partial = 80: two excluded, eight run.
    let (excluded, workers_count) = excluded_workers(Some(80), &online);
    assert_eq!(excluded, vec!["worker0", "worker1"]);
    assert_eq!(workers_count, 8);
    // partial = 100 means all workers: no exclusion.
    let (excluded, workers_count) = excluded_workers(Some(100), &online);
    assert!(excluded.is_empty());
    assert_eq!(workers_count, 10);
    // No partial at all: no exclusion.
    let (excluded, workers_count) = excluded_workers(None, &online);
    assert!(excluded.is_empty());
    assert_eq!(workers_count, 10);
    // Out-of-range shares are ignored.
    let (excluded, workers_count) = excluded_workers(Some(0), &online);
    assert!(excluded.is_empty());
    assert_eq!(workers_count, 10);
}

#[test]
fn excluded_workers_empty_fleet() {
    let (excluded, workers_count) = excluded_workers(Some(50), &Vec::new());
    assert!(excluded.is_empty());
    assert_eq!(workers_count, 0);
}

#[test]
fn pick_prefers_oldest_unfinished() {
    // The scaling sub-job is the oldest unfinished one: it is picked before
    // the benchmark sub-jobs, so scaling precedes dispatch.
    let scaling = scaling_sub_job(SubJobStatus::Created, None);
    let bench = dhp_sub_job(SubJobStatus::Created, SubJobDetails::partial(1), None);
    let subs = vec![bench.clone(), scaling.clone()];
    assert_eq!(pick_next_sub_job(&subs), Some(1));
    // Once the scaling sub-job is finished, the benchmark is picked.
    let done = scaling_sub_job(SubJobStatus::Completed, None);
    let subs = vec![bench, done];
    assert_eq!(pick_next_sub_job(&subs), Some(0));
}

#[test]
fn pick_ignores_finished_pipelines() {
    let subs = vec![
        scaling_sub_job(SubJobStatus::Completed, None),
        dhp_sub_job(SubJobStatus::Failed, SubJobDetails::empty(), None),
        dhp_sub_job(SubJobStatus::Canceled, SubJobDetails::empty(), None),
    ];
    assert_eq!(pick_next_sub_job(&subs), None);
    assert_eq!(pick_next_sub_job(&Vec::new()), None);
}

#[test]
fn unfinished_dhp_count_drives_completion() {
    let mut a = dhp_sub_job(SubJobStatus::Completed, SubJobDetails::partial(1), None);
    a.id = 11;
    let mut b = dhp_sub_job(SubJobStatus::Processing, SubJobDetails::partial(80), None);
    b.id = 12;
    let mut c = dhp_sub_job(SubJobStatus::Completed, SubJobDetails::empty(), None);
    c.id = 13;
    let scaling = scaling_sub_job(SubJobStatus::Completed, None);
    let mut other = dhp_sub_job(SubJobStatus::Processing, SubJobDetails::empty(), None);
    other.job_id = 999;
    let subs = vec![scaling, a, b.clone(), c, other];
    // The scaling sub-job and other jobs' sub-jobs do not count.
    assert_eq!(count_unfinished_dhp(&subs, 100), 1);
    let mut done = subs;
    done[2] = SubJob { status: SubJobStatus::Completed, ..b };
    assert_eq!(count_unfinished_dhp(&done, 100), 0);
}

#[test]
fn failing_a_sub_job_records_the_reason() {
    let sub = dhp_sub_job(SubJobStatus::Pending, SubJobDetails::empty(), Some(0));
    let failed = sub.with_failure(FailReason::DeadlinePassed);
    assert!(matches!(failed.status, SubJobStatus::Failed));
    assert_eq!(failed.details.error.as_deref(), Some("Deadline passed"));
}

#[test]
fn status_updates_keep_the_rest_of_the_row() {
    let sub = dhp_sub_job(SubJobStatus::Created, SubJobDetails::partial(80), None);
    let sub = sub.with_workers_count(8);
    assert_eq!(sub.details.workers_count, Some(8));
    assert_eq!(sub.details.partial, Some(80));
    let sub = sub.with_status_and_deadline(SubJobStatus::Pending, 42_000);
    assert!(matches!(sub.status, SubJobStatus::Pending));
    assert_eq!(sub.deadline_at, Some(42_000));
    let sub = sub.with_status(SubJobStatus::Processing);
    assert!(matches!(sub.status, SubJobStatus::Processing));
    assert_eq!(sub.details.workers_count, Some(8));
}
