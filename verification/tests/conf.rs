use ssh_forward::conf::{select_conf_file, Conf};
use ssh_forward::forwarding::{Forwarding, Port};
use ssh_forward::relay::{Relay, RelayAction, RelayEvent};
use ssh_forward::session::{SessionEvent, SessionState};
use ssh_forward::forwarding::plan_listeners;

#[test]
fn first_existing_candidate_wins() {
    assert_eq!(select_conf_file(&vec![false, true, true]).unwrap(), 1);
    assert_eq!(select_conf_file(&vec![true, false]).unwrap(), 0);
}

#[test]
fn no_existing_candidate_is_fatal() {
    let e = select_conf_file(&vec![false, false]).unwrap_err();
    assert_eq!(e.msg, "configuration file not found");
    assert!(select_conf_file(&Vec::new()).is_err());
}

#[test]
fn echo_mapping_end_to_end_through_the_engine_model() {
    // The whole engine on one mapping: a local listener on 8080 forwarding
    // through 127.0.0.1:22 to an echo service on 127.0.0.1:9000. A client
    // sends "ping"; the echo comes back unchanged.
    let conf = Conf {
        remote_mappings: vec![Forwarding {
            ssh_host: "127.0.0.1".to_string(),
            ssh_password: "p".to_string(),
            ssh_username: "u".to_string(),
            ssh_port: 22,
            ports: vec![Port {
                remote_host: "127.0.0.1".to_string(),
                remote_port: 9000,
                local_port: 8080,
                local_host: None,
                label: "echo".to_string(),
            }],
        }],
    };

    let plan = plan_listeners(&conf.remote_mappings);
    assert_eq!(plan, vec![(0, 0)]);
    let f = &conf.remote_mappings[0];
    assert_eq!(f.ports[0].local_port, 8080);

    let session = SessionState::Connecting
        .step(f, SessionEvent::ConnectOk)
        .step(f, SessionEvent::InitOk)
        .step(f, SessionEvent::HandshakeOk)
        .step(f, SessionEvent::AuthOk);
    assert!(matches!(session, SessionState::Ready));

    let mut relay = Relay::new();
    let sent = match relay.step(RelayEvent::LocalData(b"ping".to_vec())) {
        RelayAction::WriteRemote(b) => b,
        other => panic!("client bytes must go to the channel: {:?}", other),
    };
    assert_eq!(sent, b"ping".to_vec());

    // The echo service answers with the same bytes.
    let echoed = match relay.step(RelayEvent::RemoteData(sent)) {
        RelayAction::WriteLocal(b) => b,
        other => panic!("echoed bytes must go back to the client: {:?}", other),
    };
    assert_eq!(echoed, b"ping".to_vec());

    let done = relay.step(RelayEvent::LocalClosed);
    assert!(matches!(done, RelayAction::Stop));
    assert!(!relay.running);
}
