use octodaemon::docker::containers::{
    ContainerInspection, ContainerState, ContainerStatus, NetworkCounters, StatsSample,
};
use octodaemon::handlers::{DockerRpcService, SystemService};
use octodaemon::messages::ResourceStats;
use octodaemon::system::SystemInfo;

fn sample() -> StatsSample {
    StatsSample {
        memory_usage: Some(300),
        memory_limit: None,
        cpu_total_usage: 42,
        network: Some(NetworkCounters { rx_bytes: 1, tx_bytes: 2 }),
    }
}

fn expected() -> ResourceStats {
    ResourceStats { memory_usage: 300, memory_limit: 0, cpu_usage: 42, network_rx: 1, network_tx: 2 }
}

#[test]
fn container_stat_reply() {
    let service = DockerRpcService::default();
    let report = service.get_container_stat(ContainerInspection {
        id: Some("abc".to_string()),
        name: None,
        image: Some("redis".to_string()),
        created: None,
        state: Some(ContainerState { status: Some(ContainerStatus::Paused) }),
    });
    assert_eq!(report.container_id, "abc");
    assert_eq!(report.name, "Unknown");
    assert_eq!(report.image, "redis");
    assert_eq!(report.created, "Unknown");
    assert_eq!(report.status, "paused");
}

#[test]
fn resource_stats_reply() {
    let service = DockerRpcService::default();
    assert_eq!(service.get_container_resource_stats(sample()).resources, Some(expected()));
}

#[test]
fn stream_keeps_positive_interval() {
    let stream = DockerRpcService::default().stream_container_resource_stats(sample(), 3);
    assert_eq!(stream.period_secs, 3);
    assert_eq!(stream.report.resources, Some(expected()));
}

#[test]
fn stream_defaults_to_ten_seconds() {
    let service = DockerRpcService::default();
    assert_eq!(service.stream_container_resource_stats(sample(), 0).period_secs, 10);
    assert_eq!(service.stream_container_resource_stats(sample(), -5).period_secs, 10);
    assert_eq!(service.stream_container_resource_stats(sample(), i64::MIN).period_secs, 10);
    assert_eq!(service.stream_container_resource_stats(sample(), i64::MAX).period_secs, i64::MAX as u64);
}

#[test]
fn system_stats_reply() {
    let report = SystemService::default().get_system_stats(SystemInfo {
        os_version: Some("12".to_string()),
        kernel_version: None,
        architecture: "x86_64".to_string(),
        long_os_version: None,
        cpu_brand: "Intel".to_string(),
    });
    assert_eq!(report.version, "12");
    assert_eq!(report.kernel_version, "unknown");
    assert_eq!(report.os, "unknown");
    assert_eq!(report.cpu, "Intel");
}
