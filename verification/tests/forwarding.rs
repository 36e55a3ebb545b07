use ssh_forward::error::ForwardingError;
use ssh_forward::forwarding::{
    bind_error, channel_error, listener_step, plan_listeners, probe_before, should_probe,
    Forwarding, ListenerAction, ListenerEvent, Port,
};

fn port(remote_host: &str, remote_port: u16, local_port: u16, label: &str) -> Port {
    Port {
        remote_host: remote_host.to_string(),
        remote_port,
        local_port,
        local_host: None,
        label: label.to_string(),
    }
}

fn mapping(host: &str, ssh_port: u16, user: &str, pass: &str, ports: Vec<Port>) -> Forwarding {
    Forwarding {
        ssh_host: host.to_string(),
        ssh_password: pass.to_string(),
        ssh_username: user.to_string(),
        ssh_port,
        ports,
    }
}

#[test]
fn plan_is_one_listener_per_rule_in_order() {
    let ms = vec![
        mapping(
            "10.0.0.1",
            22,
            "u",
            "p",
            vec![port("db", 5432, 15432, "db"), port("web", 80, 8080, "web")],
        ),
        mapping("10.0.0.2", 22, "u2", "p2", vec![port("cache", 6379, 16379, "cache")]),
    ];
    let plan = plan_listeners(&ms);
    assert_eq!(plan, vec![(0, 0), (0, 1), (1, 0)]);
}

#[test]
fn plan_of_empty_configuration_is_empty() {
    let ms: Vec<Forwarding> = Vec::new();
    assert_eq!(plan_listeners(&ms), Vec::<(usize, usize)>::new());
}

#[test]
fn plan_skips_mappings_without_rules() {
    let ms = vec![
        mapping("10.0.0.1", 22, "u", "p", vec![]),
        mapping("10.0.0.2", 2222, "u2", "p2", vec![port("web", 80, 8080, "web")]),
    ];
    assert_eq!(plan_listeners(&ms), vec![(1, 0)]);
}

#[test]
fn plan_keeps_duplicate_local_ports() {
    // Two rules asking for the same local port both appear in the plan;
    // only the bind decides which one actually listens.
    let ms = vec![mapping(
        "10.0.0.1",
        22,
        "u",
        "p",
        vec![port("a", 81, 8080, "first"), port("b", 82, 8080, "second")],
    )];
    assert_eq!(plan_listeners(&ms), vec![(0, 0), (0, 1)]);
}

#[test]
fn probe_only_mappings_with_rules() {
    let with_rules = mapping("h", 22, "u", "p", vec![port("a", 1, 2, "l")]);
    let without_rules = mapping("h", 22, "u", "p", vec![]);
    assert!(should_probe(&with_rules));
    assert!(!should_probe(&without_rules));
}

#[test]
fn each_mapping_is_probed_once_before_its_first_rule() {
    let plan = vec![(0, 0), (0, 1), (1, 0)];
    assert!(probe_before(&plan, 0));
    assert!(!probe_before(&plan, 1));
    assert!(probe_before(&plan, 2));
}

#[test]
fn bind_error_names_the_rule() {
    let p = port("db", 5432, 15432, "db-tunnel");
    match bind_error(&p) {
        ForwardingError::BindError { label, local_port } => {
            assert_eq!(label, "db-tunnel");
            assert_eq!(local_port, 15432);
        }
        other => panic!("wrong variant: {:?}", other),
    }
}

#[test]
fn channel_error_names_the_destination() {
    let p = port("db.internal", 5432, 15432, "db-tunnel");
    match channel_error(&p) {
        ForwardingError::RemoteChannelError { label, remote_host, remote_port } => {
            assert_eq!(label, "db-tunnel");
            assert_eq!(remote_host, "db.internal");
            assert_eq!(remote_port, 5432);
        }
        other => panic!("wrong variant: {:?}", other),
    }
}

#[test]
fn accepted_connection_gets_a_tunnel() {
    let p = port("db", 5432, 15432, "db");
    assert!(matches!(
        listener_step(&p, ListenerEvent::Accepted),
        ListenerAction::EstablishTunnel
    ));
    assert!(matches!(
        listener_step(&p, ListenerEvent::TunnelReady),
        ListenerAction::SpawnRelay
    ));
}

#[test]
fn setup_failure_keeps_the_listener_up() {
    let p = port("db", 5432, 15432, "db");
    let err = channel_error(&p);
    match listener_step(&p, ListenerEvent::SetupFailed(err)) {
        ListenerAction::ContinueAccept(ForwardingError::RemoteChannelError {
            label, ..
        }) => assert_eq!(label, "db"),
        other => panic!("setup failure must not stop the listener: {:?}", other),
    }
}

#[test]
fn accept_failure_downs_only_this_listener() {
    let p = port("db", 5432, 15432, "db-tunnel");
    match listener_step(&p, ListenerEvent::AcceptFailed) {
        ListenerAction::Shutdown(ForwardingError::ListeningError { label, local_port }) => {
            assert_eq!(label, "db-tunnel");
            assert_eq!(local_port, 15432);
        }
        other => panic!("wrong action: {:?}", other),
    }
}
