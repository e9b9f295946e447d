use octodaemon::docker::{
    configure_docker, configure_network, create_network, ConfigureOutcome, NetworkCreation,
};

#[test]
fn network_description() {
    let spec = create_network("overlay");
    assert_eq!(spec.name, "octonet");
    assert_eq!(spec.driver, "overlay");
    assert!(spec.check_duplicate);
    assert!(!spec.internal && !spec.attachable && !spec.ingress && !spec.enable_ipv6);
    assert!(spec.options.is_empty());
    assert!(spec.labels.is_empty());
}

#[test]
fn setup_network_uses_bridge() {
    let spec = configure_network();
    assert_eq!(spec.name, "octonet");
    assert_eq!(spec.driver, "bridge");
    assert!(spec.check_duplicate);
}

#[test]
fn created_network_goes_on() {
    assert_eq!(configure_docker(NetworkCreation::Created), ConfigureOutcome::Created);
}

#[test]
fn server_refusal_means_network_exists() {
    let outcome = configure_docker(NetworkCreation::ServerError {
        status_code: 409,
        message: "network with name octonet already exists".to_string(),
    });
    assert_eq!(
        outcome,
        ConfigureOutcome::AlreadyPresent {
            status_code: 409,
            message: "network with name octonet already exists".to_string()
        }
    );
}

#[test]
fn other_failure_is_fatal() {
    let outcome = configure_docker(NetworkCreation::OtherError { description: "socket closed".to_string() });
    assert_eq!(outcome, ConfigureOutcome::Fatal { description: "socket closed".to_string() });
}
