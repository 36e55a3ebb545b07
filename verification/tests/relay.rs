use ssh_forward::relay::{Relay, RelayAction, RelayEvent};

fn expect_remote_write(a: RelayAction) -> Vec<u8> {
    match a {
        RelayAction::WriteRemote(b) => b,
        other => panic!("expected a write to the channel, got {:?}", other),
    }
}

fn expect_local_write(a: RelayAction) -> Vec<u8> {
    match a {
        RelayAction::WriteLocal(b) => b,
        other => panic!("expected a write to the local stream, got {:?}", other),
    }
}

#[test]
fn local_reads_reach_the_remote_side_in_order() {
    let mut r = Relay::new();
    let mut observed: Vec<u8> = Vec::new();
    observed.extend(expect_remote_write(r.step(RelayEvent::LocalData(b"abc".to_vec()))));
    observed.extend(expect_remote_write(r.step(RelayEvent::LocalData(b"def".to_vec()))));
    assert_eq!(observed, b"abcdef".to_vec());
    assert!(r.running);
}

#[test]
fn remote_reads_reach_the_local_side_in_order() {
    let mut r = Relay::new();
    let mut observed: Vec<u8> = Vec::new();
    observed.extend(expect_local_write(r.step(RelayEvent::RemoteData(b"abc".to_vec()))));
    observed.extend(expect_local_write(r.step(RelayEvent::RemoteData(b"def".to_vec()))));
    assert_eq!(observed, b"abcdef".to_vec());
    assert!(r.running);
}

#[test]
fn directions_are_independent_streams() {
    let mut r = Relay::new();
    let to_remote = expect_remote_write(r.step(RelayEvent::LocalData(b"ping".to_vec())));
    let to_local = expect_local_write(r.step(RelayEvent::RemoteData(b"pong".to_vec())));
    assert_eq!(to_remote, b"ping".to_vec());
    assert_eq!(to_local, b"pong".to_vec());
    assert!(r.running);
}

#[test]
fn local_close_stops_the_relay() {
    let mut r = Relay::new();
    expect_remote_write(r.step(RelayEvent::LocalData(b"tail".to_vec())));
    let a = r.step(RelayEvent::LocalClosed);
    assert!(matches!(a, RelayAction::Stop));
    assert!(!r.running);
}

#[test]
fn remote_close_stops_the_relay() {
    let mut r = Relay::new();
    let a = r.step(RelayEvent::RemoteClosed);
    assert!(matches!(a, RelayAction::Stop));
    assert!(!r.running);
}

#[test]
fn write_failure_on_either_side_stops_the_relay() {
    let mut r = Relay::new();
    assert!(matches!(r.step(RelayEvent::RemoteWriteFailed), RelayAction::Stop));
    assert!(!r.running);

    let mut r2 = Relay::new();
    assert!(matches!(r2.step(RelayEvent::LocalWriteFailed), RelayAction::Stop));
    assert!(!r2.running);
}
