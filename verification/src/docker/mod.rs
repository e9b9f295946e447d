//! The daemon's use of Docker: its network, and the reports and descriptions of
//! containers.

use vstd::prelude::*;

pub mod containers;

verus! {

/// Why a request to Docker gave no report.
#[derive(Debug, Clone, Copy, PartialEq, Eq)]
pub enum DockerError {
    /// Docker could not tell the state or the statistics of the container.
    StatsUnavailable,
}

impl DockerError {
    /// The text of the error.
    pub fn message(&self) -> (text: String)
        ensures
            text@ == "Could not get container stats"@,
    {
        match self {
            DockerError::StatsUnavailable => "Could not get container stats".to_string(),
        }
    }
}

/// The description of a Docker network that the daemon asks for.
#[derive(Debug, Clone, PartialEq, Eq)]
pub struct NetworkSpec {
    pub name: String,
    pub driver: String,
    pub check_duplicate: bool,
    pub internal: bool,
    pub attachable: bool,
    pub ingress: bool,
    pub enable_ipv6: bool,
    pub options: Vec<(String, String)>,
    pub labels: Vec<(String, String)>,
}

/// Describes the daemon's network, `octonet`, with the given driver: Docker is
/// to refuse a second network of that name; it is neither internal, attachable,
/// an ingress network nor IPv6-enabled, and has no options and no labels
/// (its address management is Docker's default).
pub fn create_network(network_driver: &str) -> (spec: NetworkSpec)
    ensures
        spec.name@ == "octonet"@,
        spec.driver@ == network_driver@,
        spec.check_duplicate,
        !spec.internal,
        !spec.attachable,
        !spec.ingress,
        !spec.enable_ipv6,
        spec.options@.len() == 0,
        spec.labels@.len() == 0,
{
    NetworkSpec {
        name: "octonet".to_string(),
        driver: network_driver.to_string(),
        check_duplicate: true,
        internal: false,
        attachable: false,
        ingress: false,
        enable_ipv6: false,
        options: Vec::new(),
        labels: Vec::new(),
    }
}

/// The network that setup asks Docker for: `octonet` on the `bridge` driver.
pub fn configure_network() -> (spec: NetworkSpec)
    ensures
        spec.name@ == "octonet"@,
        spec.driver@ == "bridge"@,
        spec.check_duplicate,
        !spec.internal,
        !spec.attachable,
        !spec.ingress,
        !spec.enable_ipv6,
        spec.options@.len() == 0,
        spec.labels@.len() == 0,
{
    create_network("bridge")
}

/// How Docker answered the request to create the daemon's network.
#[derive(Debug, Clone, PartialEq, Eq)]
pub enum NetworkCreation {
    /// The network was created.
    Created,
    /// The Docker server refused it with a status code and a message.
    ServerError { status_code: u16, message: String },
    /// Any other failure, described in words.
    OtherError { description: String },
}

/// What the daemon makes of that answer.
#[derive(Debug, Clone, PartialEq, Eq)]
pub enum ConfigureOutcome {
    /// The network was created now.
    Created,
    /// The server refused: the network exists already, and setup goes on.
    AlreadyPresent { status_code: u16, message: String },
    /// Setup cannot go on.
    Fatal { description: String },
}

/// Decides how setup goes on after the request to create the daemon's network:
/// a refusal by the server means the network is there already; any other
/// failure ends setup. What Docker said is kept.
pub fn configure_docker(answer: NetworkCreation) -> (outcome: ConfigureOutcome)
    ensures
        answer is Created <==> outcome is Created,
        answer matches NetworkCreation::ServerError { status_code, message }
            ==> outcome == (ConfigureOutcome::AlreadyPresent { status_code, message }),
        answer matches NetworkCreation::OtherError { description }
            ==> outcome == (ConfigureOutcome::Fatal { description }),
{
    match answer {
        NetworkCreation::Created => ConfigureOutcome::Created,
        NetworkCreation::ServerError { status_code, message } => ConfigureOutcome::AlreadyPresent { status_code, message },
        NetworkCreation::OtherError { description } => ConfigureOutcome::Fatal { description },
    }
}

} // verus!
