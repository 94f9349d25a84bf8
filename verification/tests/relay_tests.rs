use i2p_proxy::echo::{echo_step, EchoAction};
use i2p_proxy::relay::{classify_read, Connection, ConnState, RelayAction, RelayEvent, Side};

fn forward_of(a: RelayAction) -> (Side, Vec<u8>) {
    match a {
        RelayAction::Forward(side, bytes) => (side, bytes),
        other => panic!("expected a Forward action, got {:?}", other),
    }
}

#[test]
fn data_is_forwarded_verbatim_to_the_other_side() {
    let mut c = Connection::new();
    c.start_relaying();
    let a = c.on_event(RelayEvent::Data(Side::Tcp, b"hello".to_vec()));
    let (side, bytes) = forward_of(a);
    assert_eq!(side, Side::Overlay);
    assert_eq!(bytes, b"hello".to_vec());
    let a = c.on_event(RelayEvent::Data(Side::Overlay, b"reply".to_vec()));
    let (side, bytes) = forward_of(a);
    assert_eq!(side, Side::Tcp);
    assert_eq!(bytes, b"reply".to_vec());
}

#[test]
fn multi_chunk_writes_arrive_in_order_without_loss() {
    let mut c = Connection::new();
    c.start_relaying();
    let chunks: [&[u8]; 3] = [b"one", b"two", b"three"];
    let mut delivered: Vec<u8> = Vec::new();
    for chunk in chunks {
        let a = c.on_event(RelayEvent::Data(Side::Tcp, chunk.to_vec()));
        let (side, bytes) = forward_of(a);
        assert_eq!(side, Side::Overlay);
        delivered.extend_from_slice(&bytes);
    }
    assert_eq!(delivered, b"onetwothree".to_vec());
}

#[test]
fn half_close_leaves_the_other_direction_open() {
    let mut c = Connection::new();
    c.start_relaying();
    let a = c.on_event(RelayEvent::Eof(Side::Tcp));
    match a {
        RelayAction::ShutdownWrite(side) => assert_eq!(side, Side::Overlay),
        other => panic!("expected ShutdownWrite, got {:?}", other),
    }
    assert_eq!(c.state, ConnState::HalfClosed(Side::Tcp));
    // The overlay side keeps writing toward the TCP side.
    let a = c.on_event(RelayEvent::Data(Side::Overlay, b"late data".to_vec()));
    let (side, bytes) = forward_of(a);
    assert_eq!(side, Side::Tcp);
    assert_eq!(bytes, b"late data".to_vec());
    assert_eq!(c.state, ConnState::HalfClosed(Side::Tcp));
    // Only once the overlay side also ends is the connection closed.
    let a = c.on_event(RelayEvent::Eof(Side::Overlay));
    match a {
        RelayAction::ShutdownWrite(side) => assert_eq!(side, Side::Tcp),
        other => panic!("expected ShutdownWrite, got {:?}", other),
    }
    assert_eq!(c.state, ConnState::Closed);
}

#[test]
fn an_error_fails_the_whole_connection() {
    let mut c = Connection::new();
    c.start_relaying();
    let a = c.on_event(RelayEvent::Failure(Side::Overlay));
    assert!(matches!(a, RelayAction::TearDownBoth));
    assert_eq!(c.state, ConnState::Failed);
    c.finish_teardown();
    assert_eq!(c.state, ConnState::Closed);
}

#[test]
fn zero_length_read_is_end_of_stream_not_empty_data() {
    let ev = classify_read(Side::Tcp, Vec::new());
    assert!(matches!(ev, RelayEvent::Eof(Side::Tcp)));
    let ev = classify_read(Side::Overlay, b"x".to_vec());
    match ev {
        RelayEvent::Data(side, bytes) => {
            assert_eq!(side, Side::Overlay);
            assert_eq!(bytes, b"x".to_vec());
        }
        other => panic!("expected Data, got {:?}", other),
    }
}

#[test]
fn echo_replies_byte_identical_until_peer_closes() {
    match echo_step(b"ping".to_vec()) {
        EchoAction::Reply(bytes) => assert_eq!(bytes, b"ping".to_vec()),
        EchoAction::Finish => panic!("expected a reply"),
    }
    assert!(matches!(echo_step(Vec::new()), EchoAction::Finish));
}

#[test]
fn round_trip_ping_through_both_modes() {
    // Forwarder mode's connection: a TCP client on one side, the overlay
    // stream to the server's destination on the other.
    let mut forwarder = Connection::new();
    forwarder.start_relaying();
    // Server mode's connection: the accepted overlay stream on one side,
    // the local TCP backend (an echo service) on the other.
    let mut server = Connection::new();
    server.start_relaying();

    // The client sends "ping" to the forwarder's TCP listener.
    let (side, to_overlay) = forward_of(forwarder.on_event(RelayEvent::Data(Side::Tcp, b"ping".to_vec())));
    assert_eq!(side, Side::Overlay);
    // The bytes cross the overlay and arrive at the server's connection.
    let (side, to_backend) = forward_of(server.on_event(RelayEvent::Data(Side::Overlay, to_overlay)));
    assert_eq!(side, Side::Tcp);
    // The echo backend receives "ping" and replies byte-identical.
    assert_eq!(to_backend, b"ping".to_vec());
    let reply = match echo_step(to_backend) {
        EchoAction::Reply(bytes) => bytes,
        EchoAction::Finish => panic!("echo backend closed early"),
    };
    // The reply travels back: backend -> server connection -> overlay.
    let (side, back_over) = forward_of(server.on_event(RelayEvent::Data(Side::Tcp, reply)));
    assert_eq!(side, Side::Overlay);
    // ... -> forwarder connection -> the TCP client.
    let (side, to_client) = forward_of(forwarder.on_event(RelayEvent::Data(Side::Overlay, back_over)));
    assert_eq!(side, Side::Tcp);
    assert_eq!(to_client, b"ping".to_vec());
}

#[test]
fn concurrent_connections_see_only_their_own_bytes() {
    let mut conns: Vec<Connection> = (0..3)
        .map(|_| {
            let mut c = Connection::new();
            c.start_relaying();
            c
        })
        .collect();
    let payloads: [&[u8]; 3] = [b"alpha", b"beta", b"gamma"];
    let mut observed: Vec<Vec<u8>> = vec![Vec::new(), Vec::new(), Vec::new()];
    // Interleave the writes: one chunk per connection per round.
    for round in 0..2 {
        for i in 0..3 {
            let half = payloads[i].len() / 2;
            let chunk = if round == 0 { &payloads[i][..half] } else { &payloads[i][half..] };
            let (side, bytes) = forward_of(conns[i].on_event(RelayEvent::Data(Side::Tcp, chunk.to_vec())));
            assert_eq!(side, Side::Overlay);
            observed[i].extend_from_slice(&bytes);
        }
    }
    for i in 0..3 {
        assert_eq!(observed[i], payloads[i].to_vec());
    }
}
