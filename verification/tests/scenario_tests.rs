use awake_on_proxy::relay::{RelayCommand, RelayDirection};
use awake_on_proxy::wake::{Connector, WakeAction, WakeEvent, WakePhase};
use awake_on_proxy::{ProxyMapping, TargetAddr, TargetIp};

/// One client connection through a mapping whose target (an echo service)
/// is reachable at once: "ping" goes out, "ping" comes back, no wake
/// packet is sent, and both directions shut down cleanly when the client
/// closes.
#[test]
fn reachable_echo_target_round_trip() {
    let mapping = ProxyMapping::build(
        9981,
        TargetAddr { ip: TargetIp::V4 { octets: [127, 0, 0, 1] }, port: 9982 },
        b"00:11:22:33:44:55",
        3,
    )
    .unwrap();

    // wake-and-connect: the direct attempt succeeds, so no wake is sent
    let mut connector = Connector::new(mapping.awake_delay);
    assert_eq!(connector.next_action(), WakeAction::AttemptDirect);
    connector.step(WakeEvent::Connect { ok: true });
    assert_eq!(connector.phase, WakePhase::Connected);
    assert_eq!(connector.next_action(), WakeAction::UseConnection);
    assert_eq!(connector.wakes_sent, 0);

    // forward direction: the client's "ping" reaches the target unchanged
    let mut forward = RelayDirection::new();
    let inbound_read: Vec<u8> = b"ping".to_vec();
    let to_target = match forward.on_read(&inbound_read, inbound_read.len()) {
        RelayCommand::Forward(data) => data,
        RelayCommand::ShutdownPeer => panic!("positive read must forward"),
    };
    assert_eq!(to_target, b"ping");

    // backward direction: the echo comes back unchanged
    let mut backward = RelayDirection::new();
    let outbound_read: Vec<u8> = to_target.clone();
    let to_client = match backward.on_read(&outbound_read, outbound_read.len()) {
        RelayCommand::Forward(data) => data,
        RelayCommand::ShutdownPeer => panic!("positive read must forward"),
    };
    assert_eq!(to_client, b"ping");

    // the client closes: the forward direction shuts the target's write
    // side down, the echo service then closes, and the backward direction
    // shuts the client's write side down — both directions terminate
    match forward.on_read(&Vec::new(), 0) {
        RelayCommand::ShutdownPeer => {}
        RelayCommand::Forward(_) => panic!("zero read must shut the peer down"),
    }
    match backward.on_read(&Vec::new(), 0) {
        RelayCommand::ShutdownPeer => {}
        RelayCommand::Forward(_) => panic!("zero read must shut the peer down"),
    }
    assert!(forward.done && backward.done);
    assert_eq!(connector.wakes_sent, 0);
}

/// An unreachable target: the connection wakes the host once, polls its
/// whole budget, and gives up without relaying anything.
#[test]
fn unreachable_target_wakes_polls_and_gives_up() {
    let mapping = ProxyMapping::build(
        9981,
        TargetAddr { ip: TargetIp::V4 { octets: [192, 168, 1, 10] }, port: 9981 },
        b"b4:2e:99:82:34:5a",
        2,
    )
    .unwrap();

    let mut connector = Connector::new(mapping.awake_delay);
    connector.step(WakeEvent::Connect { ok: false });
    assert_eq!(connector.next_action(), WakeAction::SendWake);
    connector.step(WakeEvent::Wake { ok: true });
    assert_eq!(connector.phase, WakePhase::Polling { remaining: 2 });
    connector.step(WakeEvent::Connect { ok: false });
    connector.step(WakeEvent::Connect { ok: false });
    assert_eq!(connector.next_action(), WakeAction::GiveUp);
    assert_eq!(connector.wakes_sent, 1);
    assert_eq!(connector.poll_attempts, 2);
}
