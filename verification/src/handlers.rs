//! The two services that answer the daemon's clients.

use vstd::prelude::*;
use crate::messages::{ContainerStatResponse, ContainerResourceStatsResponse, SystemStatsReponse};
use crate::docker::containers::{
    get_container_stats, get_container_resource_stats, reports_inspection, sample_resources,
    ContainerInspection, StatsSample,
};
use crate::system::{get_system_stats, text_or_lower_unknown, SystemInfo};

verus! {

/// Answers questions about the containers.
#[derive(Debug, Default, Clone, Copy)]
pub struct DockerRpcService {}

/// The seconds between two reports of a stream: the period the client asked
/// for, or ten where it asked for none that is positive.
pub open spec fn stream_period(requested: i64) -> int {
    if requested <= 0 {
        10
    } else {
        requested as int
    }
}

/// A stream of resource reports: the same report, sent once every
/// `period_secs` seconds.
#[derive(Debug, Clone, Copy, PartialEq, Eq)]
pub struct ResourceStream {
    pub report: ContainerResourceStatsResponse,
    pub period_secs: u64,
}

impl DockerRpcService {
    /// Answers a request for the report of a container whose inspection
    /// succeeded (with its state present).
    pub fn get_container_stat(&self, inspection: ContainerInspection) -> (report: ContainerStatResponse)
        requires
            inspection.state is Some,
        ensures
            reports_inspection(inspection, report),
            inspection.id matches Some(v) ==> report.container_id@ == v@,
            inspection.id is None ==> report.container_id@ == "Unknown"@,
            inspection.name matches Some(v) ==> report.name@ == v@,
            inspection.name is None ==> report.name@ == "Unknown"@,
            inspection.image matches Some(v) ==> report.image@ == v@,
            inspection.image is None ==> report.image@ == "Unknown"@,
            inspection.created matches Some(v) ==> report.created@ == v@,
            inspection.created is None ==> report.created@ == "Unknown"@,
    {
        match get_container_stats(Some(inspection)) {
            Ok(report) => report,
            Err(_) => vstd::pervasive::unreached(),
        }
    }

    /// Answers a request for the resource counters of a container, from the
    /// first sample of its statistics stream.
    pub fn get_container_resource_stats(&self, first: StatsSample) -> (report: ContainerResourceStatsResponse)
        ensures
            report.resources == Some(sample_resources(first)),
            report.resources matches Some(r) && r.cpu_usage == first.cpu_total_usage,
            first.memory_usage matches Some(m) ==> report.resources.unwrap().memory_usage == m,
            first.memory_usage is None ==> report.resources.unwrap().memory_usage == 0,
            first.memory_limit matches Some(m) ==> report.resources.unwrap().memory_limit == m,
            first.memory_limit is None ==> report.resources.unwrap().memory_limit == 0,
            first.network matches Some(n) ==> report.resources.unwrap().network_rx == n.rx_bytes
                && report.resources.unwrap().network_tx == n.tx_bytes,
            first.network is None ==> report.resources.unwrap().network_rx == 0
                && report.resources.unwrap().network_tx == 0,
    {
        match get_container_resource_stats(Some(first)) {
            Ok(report) => report,
            Err(_) => vstd::pervasive::unreached(),
        }
    }

    /// Plans the stream of resource reports that a client asked for: the
    /// report of the first sample, repeated, at the period the client asked
    /// for, or every ten seconds where that is not positive.
    pub fn stream_container_resource_stats(&self, first: StatsSample, interval: i64) -> (stream: ResourceStream)
        ensures
            stream.report.resources == Some(sample_resources(first)),
            stream.period_secs == stream_period(interval),
            stream.period_secs > 0,
            interval > 0 ==> stream.period_secs == interval,
            interval <= 0 ==> stream.period_secs == 10,
            stream.report.resources matches Some(r) && r.cpu_usage == first.cpu_total_usage,
            first.memory_usage matches Some(m) ==> stream.report.resources.unwrap().memory_usage == m,
            first.memory_usage is None ==> stream.report.resources.unwrap().memory_usage == 0,
            first.memory_limit matches Some(m) ==> stream.report.resources.unwrap().memory_limit == m,
            first.memory_limit is None ==> stream.report.resources.unwrap().memory_limit == 0,
            first.network matches Some(n) ==> stream.report.resources.unwrap().network_rx == n.rx_bytes
                && stream.report.resources.unwrap().network_tx == n.tx_bytes,
            first.network is None ==> stream.report.resources.unwrap().network_rx == 0
                && stream.report.resources.unwrap().network_tx == 0,
    {
        let report = self.get_container_resource_stats(first);
        let period_secs: u64 = if interval <= 0 {
            10
        } else {
            interval as u64
        };
        ResourceStream { report, period_secs }
    }
}

/// Answers questions about the host.
#[derive(Debug, Default, Clone, Copy)]
pub struct SystemService {}

impl SystemService {
    /// Answers a request for the host report.
    pub fn get_system_stats(&self, info: SystemInfo) -> (report: SystemStatsReponse)
        ensures
            report.version@ == text_or_lower_unknown(info.os_version),
            report.kernel_version@ == text_or_lower_unknown(info.kernel_version),
            report.architecture@ == info.architecture@,
            report.os@ == text_or_lower_unknown(info.long_os_version),
            report.cpu@ == info.cpu_brand@,
            info.os_version matches Some(s) ==> report.version@ == s@,
            info.os_version is None ==> report.version@ == "unknown"@,
            info.kernel_version matches Some(s) ==> report.kernel_version@ == s@,
            info.kernel_version is None ==> report.kernel_version@ == "unknown"@,
            info.long_os_version matches Some(s) ==> report.os@ == s@,
            info.long_os_version is None ==> report.os@ == "unknown"@,
    {
        get_system_stats(info)
    }
}

/// A client's positive interval is the period it gets, second for second;
/// only an interval that is not positive is replaced, by ten seconds.
pub proof fn lemma_stream_period_is_the_request(requested: i64)
    ensures
        requested > 0 ==> stream_period(requested) == requested,
        requested <= 0 ==> stream_period(requested) == 10,
        stream_period(requested) > 0,
{
}

} // verus!
