//! Drives the verified engine through a whole job pipeline the way the
//! runtime shell does: pick the oldest unfinished sub-job, apply its
//! decision, repeat.

use bench_scheduler::domain::{
    JobStatus, ProviderType, Service, ServiceDetails, SubJobStatus, SubJobType,
};
use bench_scheduler::engine::{
    count_unfinished_dhp, pick_next_sub_job, process_combined_dhp, process_scaling, DhpOutcome,
    ScalingOutcome,
};
use bench_scheduler::orchestrator::{create_job_plan, JobParams};

fn services(n: u128) -> Vec<Service> {
    (0..n)
        .map(|id| Service {
            id,
            name: format!("svc{id}"),
            provider_type: ProviderType::DockerLocal,
            details: ServiceDetails { cluster: None, region: None },
            is_enabled: true,
            descale_at: None,
        })
        .collect()
}

#[test]
fn a_job_runs_to_completion() {
    // Two enabled services on the topic, no worker online yet.
    let params = JobParams { worker_count: 10, size_mb: 10, log_interval_ms: 1000 };
    let (mut job, mut subs) = create_job_plan(
        "http://files.example/piece".to_string(),
        "us_east".to_string(),
        params,
        None,
        None,
        0,
        10 * 1_048_576,
        0,
    );
    let services = services(2);
    let mut online: Vec<String> = Vec::new();
    let mut data_counts = [0usize; 4];
    let mut now: i64 = 5_000;
    let mut published = Vec::new();

    for _ in 0..64 {
        let Some(i) = pick_next_sub_job(&subs) else {
            break;
        };
        now += 5_000;
        let sub = subs[i].clone();
        match sub.kind {
            SubJobType::Scaling => {
                match process_scaling(&sub, &services, online.len(), now).unwrap() {
                    ScalingOutcome::ScaleUp { workers_count, scale_each_by, deadline_at, .. } => {
                        job.details.workers_count = Some(workers_count);
                        subs[i] = sub.with_status_and_deadline(
                            SubJobStatus::Processing,
                            deadline_at,
                        );
                        // The fleet comes up: each service contributes its share.
                        for s in 0..services.len() {
                            for k in 0..scale_each_by {
                                online.push(format!("svc{s}-worker{k}"));
                            }
                        }
                    }
                    ScalingOutcome::Complete => {
                        subs[i] = sub.with_status(SubJobStatus::Completed);
                    }
                    ScalingOutcome::Cancel { .. } => {
                        subs[i] = sub.with_status(SubJobStatus::Canceled);
                    }
                    ScalingOutcome::Wait => {}
                }
            }
            SubJobType::CombinedDHP => {
                let remaining = count_unfinished_dhp(&subs, job.id) - 1;
                let outcome = process_combined_dhp(
                    &sub,
                    &job,
                    &online,
                    data_counts[i],
                    remaining,
                    now,
                )
                .unwrap();
                match outcome {
                    DhpOutcome::Dispatch { workers_count, message, deadline_at } => {
                        published.push(message);
                        subs[i] = sub
                            .with_workers_count(workers_count)
                            .with_status_and_deadline(SubJobStatus::Pending, deadline_at);
                        // Workers pick the sub-job up and report results.
                        subs[i] = subs[i].clone().with_status(SubJobStatus::Processing);
                        data_counts[i] = workers_count as usize;
                    }
                    DhpOutcome::Complete { job_completed } => {
                        subs[i] = sub.with_status(SubJobStatus::Completed);
                        if job_completed {
                            job.status = JobStatus::Completed;
                        }
                    }
                    DhpOutcome::Wait | DhpOutcome::Ignore => {}
                }
            }
        }
    }

    // Ten workers came online: five per service.
    assert_eq!(online.len(), 10);
    // The scaling step completed, every benchmark completed, the job completed.
    assert!(matches!(subs[0].status, SubJobStatus::Completed));
    assert!(subs[1..].iter().all(|s| matches!(s.status, SubJobStatus::Completed)));
    assert!(matches!(job.status, JobStatus::Completed));
    // Three dispatches, with the partial exclusions of 1%, 80% and none.
    assert_eq!(published.len(), 3);
    assert_eq!(published[0].excluded_workers.len(), 9);
    assert_eq!(published[1].excluded_workers.len(), 2);
    assert_eq!(published[2].excluded_workers.len(), 0);
    assert_eq!(subs[1].details.workers_count, Some(1));
    assert_eq!(subs[2].details.workers_count, Some(8));
    assert_eq!(subs[3].details.workers_count, Some(10));
    // Every dispatch happened after the scaling sub-job left the unfinished
    // statuses.
    assert!(published.iter().all(|m| m.job_id == job.id));
}

#[test]
fn a_warm_fleet_skips_scaling() {
    // Ten workers already online: the scaling sub-job is canceled, the
    // benchmarks dispatch right away.
    let params = JobParams { worker_count: 10, size_mb: 10, log_interval_ms: 1000 };
    let (job, mut subs) = create_job_plan(
        "http://files.example/piece".to_string(),
        "us_east".to_string(),
        params,
        None,
        None,
        0,
        10 * 1_048_576,
        0,
    );
    let services = services(2);
    let online: Vec<String> = (0..10).map(|i| format!("w{i}")).collect();
    let now = 5_000;

    let i = pick_next_sub_job(&subs).unwrap();
    assert_eq!(i, 0);
    let sub = subs[0].clone();
    match process_scaling(&sub, &services, online.len(), now).unwrap() {
        ScalingOutcome::Cancel { workers_count, .. } => {
            assert_eq!(workers_count, 10);
            subs[0] = sub.with_status(SubJobStatus::Canceled);
        }
        other => panic!("expected the warm fleet to cancel scaling, got {other:?}"),
    }
    // The next pick is the first benchmark, and it dispatches.
    let i = pick_next_sub_job(&subs).unwrap();
    assert_eq!(i, 1);
    let r = process_combined_dhp(&subs[i], &job, &online, 0, 0, now).unwrap();
    assert!(matches!(r, DhpOutcome::Dispatch { workers_count: 1, .. }));
}
