use bench_scheduler::domain::{
    ProviderType, Service, ServiceDetails, ServiceWithTopics, WorkerRow, WorkerStatus,
};
use bench_scheduler::reaper::{
    clear_descale_deadline, select_descale_due, select_stale_workers, set_worker_offline,
};
use bench_scheduler::scaler::{
    count_output_lines, scaler_available, service_cluster_region, should_clear_descale,
    DockerScaler, FargateScaler, ServiceScalerError, ServiceScalerInfo,
};
use bench_scheduler::services::{validate_service_input, ServiceInputError};

fn service(id: u128, descale_at: Option<i64>) -> Service {
    Service {
        id,
        name: format!("svc{id}"),
        provider_type: ProviderType::AWSFargate,
        details: ServiceDetails {
            cluster: Some("a-cluster".to_string()),
            region: Some("us-east-1".to_string()),
        },
        is_enabled: true,
        descale_at,
    }
}

fn worker(name: &str, status: WorkerStatus, last_seen: i64) -> WorkerRow {
    WorkerRow {
        worker_name: name.to_string(),
        status,
        last_seen,
        started_at: None,
        shutdown_at: None,
        job_id: None,
        topics: vec!["us_east".to_string()],
    }
}

#[test]
fn descaler_selects_exactly_the_due_services() {
    let services = vec![
        service(1, Some(5_000)),  // due
        service(2, None),         // no deadline
        service(3, Some(5_001)),  // not yet due
        service(4, Some(4_000)),  // due
    ];
    assert_eq!(select_descale_due(&services, 5_000), vec![0, 3]);
}

#[test]
fn cooldown_scales_to_zero_and_clears_the_deadline() {
    // A forced scale-down (largest amount) always plans desired = 0.
    let fargate = FargateScaler::new();
    assert_eq!(fargate.plan_scale_down(5, i32::MAX), Some(0));
    assert_eq!(fargate.plan_scale_down(0, i32::MAX), None);
    let docker = DockerScaler::new();
    assert_eq!(docker.plan_scale_down(7, i32::MAX), Some(0));
    assert_eq!(docker.plan_scale_down(0, i32::MAX), None);
    // On success the deadline is cleared.
    let s = clear_descale_deadline(service(1, Some(5_000)));
    assert_eq!(s.descale_at, None);
    assert_eq!(s.id, 1);
}

#[test]
fn scale_plans_change_only_what_changes() {
    let docker = DockerScaler::new();
    assert_eq!(docker.plan_scale_up(3, 5), Some(8));
    assert_eq!(docker.plan_scale_up(3, 0), None);
    assert_eq!(docker.plan_scale_up(3, -2), None);
    assert_eq!(docker.plan_scale_down(3, 1), Some(2));
    assert_eq!(docker.plan_scale_down(3, 5), Some(0));
    let fargate = FargateScaler::new();
    assert_eq!(fargate.plan_scale_up(3, 5), Some(8));
    assert_eq!(fargate.plan_scale_up(3, 0), None);
    assert_eq!(fargate.plan_scale_down(3, 1), Some(2));
    assert_eq!(fargate.plan_scale_down(3, 5), Some(0));
    assert_eq!(fargate.plan_scale_down(3, -4), Some(7));
}

#[test]
fn liveness_reaper_selects_stale_online_workers() {
    let workers = vec![
        worker("fresh", WorkerStatus::Online, 100_000),
        worker("stale", WorkerStatus::Online, 39_999),
        worker("offline", WorkerStatus::Offline, 0),
        worker("boundary", WorkerStatus::Online, 40_000),
    ];
    // At t = 100s the grace window is one minute: stale means last seen
    // strictly before 40s.
    assert_eq!(select_stale_workers(&workers, 100_000), vec![1]);
    let off = set_worker_offline(workers[1].clone());
    assert_eq!(off.status, WorkerStatus::Offline);
    // The topic bindings survive the reaper.
    assert_eq!(off.topics, vec!["us_east".to_string()]);
}

#[test]
fn registry_offers_one_scaler_per_mode() {
    assert!(scaler_available(true, ProviderType::DockerLocal));
    assert!(!scaler_available(true, ProviderType::AWSFargate));
    assert!(scaler_available(false, ProviderType::AWSFargate));
    assert!(!scaler_available(false, ProviderType::DockerLocal));
}

#[test]
fn descale_deadline_cleared_only_at_zero_desired() {
    assert!(should_clear_descale(Some(0)));
    assert!(!should_clear_descale(Some(1)));
    assert!(!should_clear_descale(None));
}

#[test]
fn cluster_and_region_are_required_for_cloud_calls() {
    let ok = ServiceDetails {
        cluster: Some("a-cluster".to_string()),
        region: Some("us-east-1".to_string()),
    };
    let (cluster, region) = service_cluster_region(&ok).unwrap();
    assert_eq!(cluster, "a-cluster");
    assert_eq!(region, "us-east-1");
    let missing_region = ServiceDetails { cluster: Some("c".to_string()), region: None };
    match service_cluster_region(&missing_region) {
        Err(ServiceScalerError::InvalidService(m)) => assert_eq!(m, "Region not found"),
        other => panic!("expected a missing-region error, got {other:?}"),
    }
    let missing_cluster = ServiceDetails { cluster: None, region: Some("r".to_string()) };
    match service_cluster_region(&missing_cluster) {
        Err(ServiceScalerError::InvalidService(m)) => assert_eq!(m, "Cluster not found"),
        other => panic!("expected a missing-cluster error, got {other:?}"),
    }
}

#[test]
fn scaler_errors_render_with_their_kind() {
    let e = ServiceScalerError::CommandError("docker not running".to_string());
    assert_eq!(e.to_str(), "ServiceScalerError::CommandError: docker not running");
    let e = ServiceScalerError::GenericError("boom".to_string());
    assert_eq!(e.to_str(), "ServiceScalerError::GenericError: boom");
    let e = ServiceScalerError::InvalidService("no region".to_string());
    assert_eq!(e.to_str(), "ServiceScalerError::InvalidService: no region");
}

#[test]
fn scaler_info_constructors_fill_the_provider_fields() {
    let d = ServiceScalerInfo::docker("svc".to_string(), 3);
    assert_eq!(d.provider_type, ProviderType::DockerLocal);
    assert_eq!(d.instances, 3);
    assert_eq!(d.desired_count, None);
    let f = ServiceScalerInfo::fargate("svc".to_string(), 3, 4, 3, 1);
    assert_eq!(f.provider_type, ProviderType::AWSFargate);
    assert_eq!(f.desired_count, Some(4));
    assert_eq!(f.running_count, Some(3));
    assert_eq!(f.pending_count, Some(1));
}

#[test]
fn container_ids_are_counted_by_line() {
    assert_eq!(count_output_lines(b""), 0);
    assert_eq!(count_output_lines(b"abc12\n9f0e1\n"), 2);
    assert_eq!(count_output_lines(b"abc12\n9f0e1"), 2);
    assert_eq!(count_output_lines(b"\n"), 1);
    assert_eq!(count_output_lines(b"abc12"), 1);
}

#[test]
fn service_input_validation() {
    let topics = vec!["us_east".to_string()];
    let none: Vec<String> = Vec::new();
    assert!(matches!(
        validate_service_input(ProviderType::DockerLocal, &none, None, None),
        Err(ServiceInputError::EmptyTopics)
    ));
    let d = validate_service_input(ProviderType::DockerLocal, &topics, None, None).unwrap();
    assert_eq!(d.cluster, None);
    assert_eq!(d.region, None);
    assert!(matches!(
        validate_service_input(ProviderType::AWSFargate, &topics, None, None),
        Err(ServiceInputError::MissingCluster)
    ));
    assert!(matches!(
        validate_service_input(ProviderType::AWSFargate, &topics, Some("c".to_string()), None),
        Err(ServiceInputError::MissingRegion)
    ));
    let d = validate_service_input(
        ProviderType::AWSFargate,
        &topics,
        Some("c".to_string()),
        Some("r".to_string()),
    )
    .unwrap();
    assert_eq!(d.cluster.as_deref(), Some("c"));
    assert_eq!(d.region.as_deref(), Some("r"));
    assert_eq!(
        ServiceInputError::EmptyTopics.message(),
        "Field 'topics' cannot be empty"
    );
}

#[test]
fn a_service_with_topics_projects_to_a_service() {
    let swt = ServiceWithTopics {
        id: 9,
        name: "svc9".to_string(),
        provider_type: ProviderType::DockerLocal,
        details: ServiceDetails { cluster: None, region: None },
        is_enabled: true,
        descale_at: Some(10),
        topics: vec!["a".to_string(), "b".to_string()],
    };
    let s = swt.to_service();
    assert_eq!(s.id, 9);
    assert_eq!(s.name, "svc9");
    assert_eq!(s.is_enabled, true);
    assert_eq!(s.descale_at, Some(10));
}
