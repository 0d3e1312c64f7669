use tunnel_core::client::{Client, ClientAction, ClientEvent};
use tunnel_core::config::Config;
use tunnel_core::forward::{ForwardAction, ForwardEnd, ForwardEvent, Forwarder, ReadOutcome, Side};
use tunnel_core::handshake::HandshakeError;
use tunnel_core::port::parse_port;
use tunnel_core::relay::{Relay, RelayAction, RelayEvent};

fn shared_config() -> Config {
    Config::new(
        String::from("relay.example.org"),
        parse_port("7000").unwrap(),
        parse_port("7001").unwrap(),
        String::from("127.0.0.1:3000"),
        b"s3cr3t".to_vec(),
    )
    .ok()
    .unwrap()
}

/// What a read of exactly `len` bytes gives on a connection that carries
/// `sent` and is then closed.
fn read_exactly(sent: &[u8], len: usize) -> Option<&[u8]> {
    if sent.len() >= len {
        Some(&sent[..len])
    } else {
        None
    }
}

#[test]
fn the_secret_of_six_bytes_opens_the_tunnel() {
    let config = shared_config();
    let mut client = Client::new(&config, 5);
    let mut relay = Relay::new(&config);

    assert_eq!(client.action(), ClientAction::DialRelay);
    assert_eq!(relay.action(), RelayAction::AcceptTunnel);
    assert_eq!(client.step(ClientEvent::RelayConnected), ClientAction::SendHandshake);
    assert_eq!(relay.step(RelayEvent::TunnelAccepted), RelayAction::ReadHandshake(6));

    let wire = client.handshake().to_vec();
    assert_eq!(wire, b"s3cr3t");
    assert_eq!(client.step(ClientEvent::HandshakeSent(true)), ClientAction::DialLocal);

    let received = read_exactly(&wire, 6);
    assert_eq!(relay.step(RelayEvent::HandshakeRead(received)), RelayAction::AcceptConsumer);
    assert_eq!(relay.step(RelayEvent::ConsumerAccepted), RelayAction::Forward);
    assert_eq!(client.step(ClientEvent::LocalConnected), ClientAction::Forward);
}

#[test]
fn a_wrong_secret_closes_the_tunnel_and_the_relay_listens_on() {
    let config = shared_config();
    let mut relay = Relay::new(&config);

    assert_eq!(relay.step(RelayEvent::TunnelAccepted), RelayAction::ReadHandshake(6));
    let received = read_exactly(b"wrong!", 6);
    assert_eq!(
        relay.step(RelayEvent::HandshakeRead(received)),
        RelayAction::RejectTunnel(HandshakeError::Mismatch)
    );
    assert_eq!(relay.step(RelayEvent::ConsumerAccepted), RelayAction::RejectTunnel(HandshakeError::Mismatch));
    assert_eq!(relay.step(RelayEvent::TunnelClosed), RelayAction::AcceptTunnel);

    assert_eq!(relay.step(RelayEvent::TunnelAccepted), RelayAction::ReadHandshake(6));
    let received = read_exactly(b"s3cr3t", 6);
    assert_eq!(relay.step(RelayEvent::HandshakeRead(received)), RelayAction::AcceptConsumer);
}

#[test]
fn a_tunnel_closed_before_the_whole_secret_is_rejected() {
    let config = shared_config();
    let mut relay = Relay::new(&config);
    for sent in [&b""[..], b"s", b"s3", b"s3c", b"s3cr", b"s3cr3"] {
        assert_eq!(relay.step(RelayEvent::TunnelAccepted), RelayAction::ReadHandshake(6));
        let received = read_exactly(sent, 6);
        assert_eq!(
            relay.step(RelayEvent::HandshakeRead(received)),
            RelayAction::RejectTunnel(HandshakeError::Incomplete)
        );
        assert_eq!(relay.step(RelayEvent::TunnelClosed), RelayAction::AcceptTunnel);
    }
}

#[test]
fn bytes_after_the_secret_are_the_first_to_be_forwarded() {
    let config = shared_config();
    let mut relay = Relay::new(&config);
    let sent = b"s3cr3tHTTP/1.1 200 OK\r\n";
    relay.step(RelayEvent::TunnelAccepted);
    let received = read_exactly(sent, 6);
    assert_eq!(relay.step(RelayEvent::HandshakeRead(received)), RelayAction::AcceptConsumer);
    assert_eq!(relay.step(RelayEvent::ConsumerAccepted), RelayAction::Forward);

    let mut forwarder = Forwarder::new();
    let rest = &sent[6..];
    forwarder.step(ForwardEvent::Read(Side::Tunnel, ReadOutcome::Bytes(rest)));
    assert_eq!(forwarder.wanted(Side::Tunnel), ForwardAction::Write(Side::Local));
    assert_eq!(forwarder.chunk(Side::Local), b"HTTP/1.1 200 OK\r\n");
}

#[test]
fn a_request_of_nine_bytes_reaches_the_local_service_unaltered() {
    let request = b"GET /\r\n\r\n";
    assert_eq!(request.len(), 9);

    let mut at_relay = Forwarder::new();
    let mut at_client = Forwarder::new();

    at_relay.step(ForwardEvent::Read(Side::Local, ReadOutcome::Bytes(request)));
    assert_eq!(at_relay.wanted(Side::Local), ForwardAction::Write(Side::Tunnel));
    let on_the_tunnel = at_relay.chunk(Side::Tunnel).to_vec();
    assert_eq!(on_the_tunnel, request);
    at_relay.step(ForwardEvent::Written(Side::Tunnel, true));

    at_client.step(ForwardEvent::Read(Side::Tunnel, ReadOutcome::Bytes(&on_the_tunnel)));
    assert_eq!(at_client.wanted(Side::Tunnel), ForwardAction::Write(Side::Local));
    let at_the_service = at_client.chunk(Side::Local).to_vec();
    assert_eq!(at_the_service, [71u8, 69, 84, 32, 47, 13, 10, 13, 10]);
    at_client.step(ForwardEvent::Written(Side::Local, true));

    // The response flows back the other way, as untouched as the request.
    let response = b"HTTP/1.1 200 OK\r\n\r\n";
    at_client.step(ForwardEvent::Read(Side::Local, ReadOutcome::Bytes(response)));
    assert_eq!(at_client.wanted(Side::Local), ForwardAction::Write(Side::Tunnel));
    let back_on_the_tunnel = at_client.chunk(Side::Tunnel).to_vec();
    at_client.step(ForwardEvent::Written(Side::Tunnel, true));
    at_relay.step(ForwardEvent::Read(Side::Tunnel, ReadOutcome::Bytes(&back_on_the_tunnel)));
    assert_eq!(at_relay.wanted(Side::Tunnel), ForwardAction::Write(Side::Local));
    assert_eq!(at_relay.chunk(Side::Local), response);
}

#[test]
fn the_close_of_the_local_service_travels_to_the_consumer() {
    let config = shared_config();
    let mut client = Client::new(&config, 5);
    let mut relay = Relay::new(&config);
    client.step(ClientEvent::RelayConnected);
    relay.step(RelayEvent::TunnelAccepted);
    client.step(ClientEvent::HandshakeSent(true));
    relay.step(RelayEvent::HandshakeRead(Some(b"s3cr3t")));
    relay.step(RelayEvent::ConsumerAccepted);
    client.step(ClientEvent::LocalConnected);

    let mut at_client = Forwarder::new();
    let mut at_relay = Forwarder::new();

    // The local service closes: the client closes both of its streams,
    // pauses, and dials again.
    let end_at_client = ForwardEnd::Closed(Side::Local);
    at_client.step(ForwardEvent::Read(Side::Local, ReadOutcome::Bytes(b"")));
    assert_eq!(at_client.wanted(Side::Tunnel), ForwardAction::Close(end_at_client));
    assert_eq!(at_client.wanted(Side::Local), ForwardAction::Close(end_at_client));
    assert_eq!(client.step(ClientEvent::PairEnded(end_at_client)), ClientAction::Wait(5));
    assert_eq!(client.step(ClientEvent::WaitOver), ClientAction::DialRelay);

    // The relay sees its tunnel closed and closes the consumer with it.
    let end_at_relay = ForwardEnd::Closed(Side::Tunnel);
    at_relay.step(ForwardEvent::Read(Side::Tunnel, ReadOutcome::Bytes(b"")));
    assert_eq!(at_relay.wanted(Side::Tunnel), ForwardAction::Close(end_at_relay));
    assert_eq!(at_relay.wanted(Side::Local), ForwardAction::Close(end_at_relay));
    assert_eq!(relay.step(RelayEvent::PairEnded(end_at_relay)), RelayAction::AcceptTunnel);
}
