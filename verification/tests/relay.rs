use tunnel_core::config::Config;
use tunnel_core::forward::{ForwardEnd, Side};
use tunnel_core::handshake::HandshakeError;
use tunnel_core::relay::{Relay, RelayAction, RelayEvent, RelayState};

fn relay_with(secret: &[u8]) -> Relay {
    let config = Config::new(
        String::from("relay.example.org"),
        7000,
        7001,
        String::from("127.0.0.1:3000"),
        secret.to_vec(),
    )
    .ok()
    .unwrap();
    Relay::new(&config)
}

fn forwarding_relay() -> Relay {
    let mut relay = relay_with(b"s3cr3t");
    relay.step(RelayEvent::TunnelAccepted);
    relay.step(RelayEvent::HandshakeRead(Some(b"s3cr3t")));
    assert_eq!(relay.step(RelayEvent::ConsumerAccepted), RelayAction::Forward);
    relay
}

#[test]
fn a_fresh_relay_waits_for_a_tunnel() {
    let relay = relay_with(b"s3cr3t");
    assert_eq!(relay.state(), RelayState::WaitTunnel);
    assert_eq!(relay.action(), RelayAction::AcceptTunnel);
}

#[test]
fn an_accepted_tunnel_is_asked_for_its_handshake() {
    let mut relay = relay_with(b"s3cr3t");
    assert_eq!(relay.step(RelayEvent::TunnelAccepted), RelayAction::ReadHandshake(6));
    assert_eq!(relay.state(), RelayState::Validating);
}

#[test]
fn the_handshake_is_as_long_as_the_secret() {
    let mut relay = relay_with(b"x");
    assert_eq!(relay.step(RelayEvent::TunnelAccepted), RelayAction::ReadHandshake(1));
    let mut relay = relay_with(&[0u8; 300]);
    assert_eq!(relay.step(RelayEvent::TunnelAccepted), RelayAction::ReadHandshake(300));
}

#[test]
fn a_failed_tunnel_accept_is_tried_again() {
    let mut relay = relay_with(b"s3cr3t");
    assert_eq!(relay.step(RelayEvent::TunnelAcceptFailed), RelayAction::AcceptTunnel);
    assert_eq!(relay.step(RelayEvent::TunnelAcceptFailed), RelayAction::AcceptTunnel);
    assert_eq!(relay.state(), RelayState::WaitTunnel);
    assert_eq!(relay.step(RelayEvent::TunnelAccepted), RelayAction::ReadHandshake(6));
}

#[test]
fn a_valid_handshake_leads_to_the_wait_for_a_consumer() {
    let mut relay = relay_with(b"s3cr3t");
    relay.step(RelayEvent::TunnelAccepted);
    assert_eq!(
        relay.step(RelayEvent::HandshakeRead(Some(b"s3cr3t"))),
        RelayAction::AcceptConsumer
    );
    assert_eq!(relay.state(), RelayState::WaitConsumer);
}

#[test]
fn a_wrong_handshake_is_rejected() {
    let mut relay = relay_with(b"s3cr3t");
    relay.step(RelayEvent::TunnelAccepted);
    assert_eq!(
        relay.step(RelayEvent::HandshakeRead(Some(b"wrong!"))),
        RelayAction::RejectTunnel(HandshakeError::Mismatch)
    );
    assert_eq!(relay.state(), RelayState::Rejecting(HandshakeError::Mismatch));
}

#[test]
fn an_unfinished_handshake_is_rejected() {
    let mut relay = relay_with(b"s3cr3t");
    relay.step(RelayEvent::TunnelAccepted);
    assert_eq!(
        relay.step(RelayEvent::HandshakeRead(None)),
        RelayAction::RejectTunnel(HandshakeError::Incomplete)
    );
}

#[test]
fn a_rejected_tunnel_is_closed_before_the_next_is_accepted() {
    let mut relay = relay_with(b"s3cr3t");
    relay.step(RelayEvent::TunnelAccepted);
    let reject = relay.step(RelayEvent::HandshakeRead(Some(b"wrong!")));
    assert_eq!(relay.step(RelayEvent::TunnelAccepted), reject);
    assert_eq!(relay.step(RelayEvent::ConsumerAccepted), reject);
    assert_eq!(relay.step(RelayEvent::HandshakeRead(Some(b"s3cr3t"))), reject);
    assert_eq!(relay.step(RelayEvent::TunnelClosed), RelayAction::AcceptTunnel);
    assert_eq!(relay.state(), RelayState::WaitTunnel);
}

#[test]
fn a_rejection_does_not_block_the_next_tunnel() {
    let mut relay = relay_with(b"s3cr3t");
    for _ in 0..3 {
        relay.step(RelayEvent::TunnelAccepted);
        relay.step(RelayEvent::HandshakeRead(Some(b"nope!!")));
        assert_eq!(relay.step(RelayEvent::TunnelClosed), RelayAction::AcceptTunnel);
    }
    relay.step(RelayEvent::TunnelAccepted);
    assert_eq!(
        relay.step(RelayEvent::HandshakeRead(Some(b"s3cr3t"))),
        RelayAction::AcceptConsumer
    );
}

#[test]
fn a_failed_consumer_accept_is_tried_again_with_the_tunnel_kept() {
    let mut relay = relay_with(b"s3cr3t");
    relay.step(RelayEvent::TunnelAccepted);
    relay.step(RelayEvent::HandshakeRead(Some(b"s3cr3t")));
    assert_eq!(relay.step(RelayEvent::ConsumerAcceptFailed), RelayAction::AcceptConsumer);
    assert_eq!(relay.step(RelayEvent::ConsumerAcceptFailed), RelayAction::AcceptConsumer);
    assert_eq!(relay.state(), RelayState::WaitConsumer);
    assert_eq!(relay.step(RelayEvent::ConsumerAccepted), RelayAction::Forward);
}

#[test]
fn an_accepted_consumer_starts_forwarding() {
    let relay = forwarding_relay();
    assert_eq!(relay.state(), RelayState::Forwarding);
    assert_eq!(relay.action(), RelayAction::Forward);
}

#[test]
fn no_tunnel_is_accepted_while_a_pair_is_forwarded() {
    let mut relay = forwarding_relay();
    assert_eq!(relay.step(RelayEvent::TunnelAccepted), RelayAction::Forward);
    assert_eq!(relay.step(RelayEvent::TunnelAcceptFailed), RelayAction::Forward);
    assert_eq!(relay.step(RelayEvent::HandshakeRead(Some(b"s3cr3t"))), RelayAction::Forward);
    assert_eq!(relay.step(RelayEvent::HandshakeRead(None)), RelayAction::Forward);
    assert_eq!(relay.step(RelayEvent::TunnelClosed), RelayAction::Forward);
    assert_eq!(relay.step(RelayEvent::ConsumerAccepted), RelayAction::Forward);
    assert_eq!(relay.step(RelayEvent::ConsumerAcceptFailed), RelayAction::Forward);
    assert_eq!(relay.state(), RelayState::Forwarding);
}

#[test]
fn the_end_of_a_pair_leads_back_to_the_wait_for_a_tunnel() {
    let ends = [
        ForwardEnd::Closed(Side::Tunnel),
        ForwardEnd::Closed(Side::Local),
        ForwardEnd::ReadFailed(Side::Tunnel),
        ForwardEnd::ReadFailed(Side::Local),
        ForwardEnd::WriteFailed(Side::Tunnel),
        ForwardEnd::WriteFailed(Side::Local),
    ];
    for end in ends {
        let mut relay = forwarding_relay();
        assert_eq!(relay.step(RelayEvent::PairEnded(end)), RelayAction::AcceptTunnel);
        assert_eq!(relay.state(), RelayState::WaitTunnel);
    }
}

#[test]
fn pairs_follow_one_another() {
    let mut relay = relay_with(b"s3cr3t");
    for _ in 0..4 {
        assert_eq!(relay.action(), RelayAction::AcceptTunnel);
        relay.step(RelayEvent::TunnelAccepted);
        relay.step(RelayEvent::HandshakeRead(Some(b"s3cr3t")));
        relay.step(RelayEvent::ConsumerAccepted);
        assert_eq!(relay.action(), RelayAction::Forward);
        relay.step(RelayEvent::PairEnded(ForwardEnd::Closed(Side::Local)));
    }
    assert_eq!(relay.state(), RelayState::WaitTunnel);
}

#[test]
fn events_out_of_turn_change_nothing() {
    let mut relay = relay_with(b"s3cr3t");
    assert_eq!(relay.step(RelayEvent::ConsumerAccepted), RelayAction::AcceptTunnel);
    assert_eq!(relay.step(RelayEvent::HandshakeRead(Some(b"s3cr3t"))), RelayAction::AcceptTunnel);
    assert_eq!(
        relay.step(RelayEvent::PairEnded(ForwardEnd::Closed(Side::Local))),
        RelayAction::AcceptTunnel
    );
    assert_eq!(relay.step(RelayEvent::TunnelClosed), RelayAction::AcceptTunnel);
    relay.step(RelayEvent::TunnelAccepted);
    assert_eq!(relay.step(RelayEvent::TunnelAccepted), RelayAction::ReadHandshake(6));
    assert_eq!(relay.step(RelayEvent::ConsumerAccepted), RelayAction::ReadHandshake(6));
    assert_eq!(relay.step(RelayEvent::TunnelClosed), RelayAction::ReadHandshake(6));
    relay.step(RelayEvent::HandshakeRead(Some(b"s3cr3t")));
    assert_eq!(relay.step(RelayEvent::TunnelAccepted), RelayAction::AcceptConsumer);
    assert_eq!(relay.step(RelayEvent::HandshakeRead(Some(b"wrong!"))), RelayAction::AcceptConsumer);
    assert_eq!(relay.state(), RelayState::WaitConsumer);
}

#[test]
fn without_the_secret_no_consumer_is_ever_asked_for() {
    let mut relay = relay_with(b"s3cr3t");
    let attempts: [Option<&[u8]>; 6] =
        [Some(b"wrong!"), None, Some(b"S3CR3T"), Some(b"s3cr3"), Some(b"s3cr3t "), Some(b"")];
    for attempt in attempts {
        let events = [
            RelayEvent::TunnelAcceptFailed,
            RelayEvent::TunnelAccepted,
            RelayEvent::ConsumerAccepted,
            RelayEvent::HandshakeRead(attempt),
            RelayEvent::ConsumerAccepted,
            RelayEvent::PairEnded(ForwardEnd::Closed(Side::Tunnel)),
            RelayEvent::TunnelClosed,
        ];
        for event in events {
            let action = relay.step(event);
            assert_ne!(action, RelayAction::AcceptConsumer);
            assert_ne!(action, RelayAction::Forward);
        }
    }
}
