use octodaemon::docker::containers::{
    container_creation, create_container, get_container_resource_stats, get_container_stats,
    ContainerInspection, ContainerState, ContainerStatus, CreateContainer, NetworkCounters,
    StatsSample,
};
use octodaemon::docker::DockerError;
use octodaemon::messages::ResourceStats;

fn full_inspection(status: Option<ContainerStatus>) -> ContainerInspection {
    ContainerInspection {
        id: Some("4f1c2a".to_string()),
        name: Some("/web".to_string()),
        image: Some("nginx:latest".to_string()),
        created: Some("2023-05-01T10:00:00Z".to_string()),
        state: Some(ContainerState { status }),
    }
}

#[test]
fn stats_pass_present_fields_through() {
    let report = get_container_stats(Some(full_inspection(Some(ContainerStatus::Running)))).unwrap();
    assert_eq!(report.container_id, "4f1c2a");
    assert_eq!(report.name, "/web");
    assert_eq!(report.image, "nginx:latest");
    assert_eq!(report.created, "2023-05-01T10:00:00Z");
    assert_eq!(report.status, "running");
}

#[test]
fn stats_fill_missing_fields_with_unknown() {
    let inspection = ContainerInspection {
        id: None,
        name: None,
        image: None,
        created: None,
        state: Some(ContainerState { status: Some(ContainerStatus::Exited) }),
    };
    let report = get_container_stats(Some(inspection)).unwrap();
    assert_eq!(report.container_id, "Unknown");
    assert_eq!(report.name, "Unknown");
    assert_eq!(report.image, "Unknown");
    assert_eq!(report.created, "Unknown");
    assert_eq!(report.status, "exited");
}

#[test]
fn stats_missing_status_reads_empty() {
    let report = get_container_stats(Some(full_inspection(None))).unwrap();
    assert_eq!(report.status, "");
}

#[test]
fn stats_name_every_status() {
    let cases = [
        (ContainerStatus::Empty, ""),
        (ContainerStatus::Created, "created"),
        (ContainerStatus::Running, "running"),
        (ContainerStatus::Paused, "paused"),
        (ContainerStatus::Restarting, "restarting"),
        (ContainerStatus::Removing, "removing"),
        (ContainerStatus::Exited, "exited"),
        (ContainerStatus::Dead, "dead"),
    ];
    for (status, text) in cases {
        let report = get_container_stats(Some(full_inspection(Some(status)))).unwrap();
        assert_eq!(report.status, text);
    }
}

#[test]
fn stats_of_failed_inspection_is_an_error() {
    let res = get_container_stats(None);
    assert_eq!(res, Err(DockerError::StatsUnavailable));
    assert_eq!(DockerError::StatsUnavailable.message(), "Could not get container stats");
}

#[test]
fn resource_stats_copy_the_sample() {
    let sample = StatsSample {
        memory_usage: Some(1024),
        memory_limit: Some(4096),
        cpu_total_usage: 777,
        network: Some(NetworkCounters { rx_bytes: 11, tx_bytes: 22 }),
    };
    let report = get_container_resource_stats(Some(sample)).unwrap();
    assert_eq!(
        report.resources,
        Some(ResourceStats { memory_usage: 1024, memory_limit: 4096, cpu_usage: 777, network_rx: 11, network_tx: 22 })
    );
}

#[test]
fn resource_stats_read_missing_counters_as_zero() {
    let sample = StatsSample { memory_usage: None, memory_limit: None, cpu_total_usage: 5, network: None };
    let report = get_container_resource_stats(Some(sample)).unwrap();
    assert_eq!(
        report.resources,
        Some(ResourceStats { memory_usage: 0, memory_limit: 0, cpu_usage: 5, network_rx: 0, network_tx: 0 })
    );
}

#[test]
fn resource_stats_without_sample_is_an_error() {
    assert_eq!(get_container_resource_stats(None), Err(DockerError::StatsUnavailable));
}

fn request(uuid: Option<u128>) -> CreateContainer {
    CreateContainer {
        name: "worker".to_string(),
        image: "alpine:3".to_string(),
        uuid,
        env: Some(vec!["A=1".to_string(), "B=2".to_string()]),
    }
}

#[test]
fn creation_with_chosen_uuid_is_labelled_with_it() {
    let creation = create_container(request(Some(0xa1a2a3a4b1b2c1c2d1d2d3d4d5d6d7d8)));
    assert_eq!(creation.name, "worker");
    assert_eq!(creation.image, "alpine:3");
    assert_eq!(
        creation.labels,
        vec![("octo-id".to_string(), "a1a2a3a4-b1b2-c1c2-d1d2-d3d4d5d6d7d8".to_string())]
    );
    assert!(creation.attach_stderr && creation.attach_stdin && creation.attach_stdout);
    assert_eq!(creation.env, Some(vec!["A=1".to_string(), "B=2".to_string()]));
}

#[test]
fn creation_label_writes_leading_zeros() {
    let creation = create_container(request(Some(1)));
    assert_eq!(creation.labels[0].1, "00000000-0000-0000-0000-000000000001");
}

#[test]
fn creation_without_uuid_gets_a_random_version_four_label() {
    let creation = create_container(request(None));
    assert_eq!(creation.labels.len(), 1);
    assert_eq!(creation.labels[0].0, "octo-id");
    let id = &creation.labels[0].1;
    assert_eq!(id.len(), 36);
    let chars: Vec<char> = id.chars().collect();
    for p in [8, 13, 18, 23] {
        assert_eq!(chars[p], '-');
    }
    assert_eq!(chars[14], '4');
    assert!(matches!(chars[19], '8' | '9' | 'a' | 'b'));
    assert!(chars.iter().all(|c| *c == '-' || c.is_ascii_digit() || ('a'..='f').contains(c)));
}

#[test]
fn two_fresh_creations_differ() {
    let first = create_container(request(None));
    let second = create_container(request(None));
    assert_ne!(first.labels[0].1, second.labels[0].1);
}

#[test]
fn creation_with_given_identity() {
    let creation = container_creation(request(None), "my-id".to_string());
    assert_eq!(creation.labels, vec![("octo-id".to_string(), "my-id".to_string())]);
    assert_eq!(creation.env, Some(vec!["A=1".to_string(), "B=2".to_string()]));
}

#[test]
fn creation_keeps_missing_environment() {
    let mut opts = request(Some(7));
    opts.env = None;
    let creation = create_container(opts);
    assert_eq!(creation.env, None);
}

#[test]
fn distinct_uuids_give_distinct_labels() {
    let a = create_container(request(Some(0x0123456789abcdef0123456789abcdef)));
    let b = create_container(request(Some(0x0123456789abcdef0123456789abcdee)));
    assert_eq!(a.labels[0].1, "01234567-89ab-cdef-0123-456789abcdef");
    assert_ne!(a.labels[0].1, b.labels[0].1);
}
