//! The reply messages that the daemon sends to its clients.

use vstd::prelude::*;

verus! {

/// What the daemon reports of one container.
#[derive(Debug, Clone, PartialEq, Eq)]
pub struct ContainerStatResponse {
    pub container_id: String,
    pub name: String,
    pub image: String,
    pub status: String,
    pub created: String,
}

/// The resource counters of one container.
#[derive(Debug, Clone, Copy, PartialEq, Eq)]
pub struct ResourceStats {
    pub memory_usage: u64,
    pub memory_limit: u64,
    pub cpu_usage: u64,
    pub network_rx: u64,
    pub network_tx: u64,
}

/// Reply to a request for the resource counters of a container.
#[derive(Debug, Clone, Copy, PartialEq, Eq)]
pub struct ContainerResourceStatsResponse {
    pub resources: Option<ResourceStats>,
}

/// What the daemon reports of its host.
#[derive(Debug, Clone, PartialEq, Eq)]
pub struct SystemStatsReponse {
    pub version: String,
    pub kernel_version: String,
    pub architecture: String,
    pub os: String,
    pub cpu: String,
}

} // verus!
