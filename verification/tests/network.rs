use std::time::{Duration, Instant};

use zenpaws::backoff::RetryBackoff;
use zenpaws::ids::PeerId;
use zenpaws::protocol::{
    check_frame_version, encode_frame, frame_body_length, AckKind, Envelope, FrameError,
    LamportClock, MAX_FRAME_BYTES, PROTOCOL_VERSION,
};
use zenpaws::service::receive_envelope;
use zenpaws::session::HandshakeIdentity;
use zenpaws::shared::{ConnectionState, EventBus, ZenPawsEvent};
use zenpaws::state::{is_valid_transition, ConnectionStateMachine, StateError};

#[test]
fn caps_and_resets_retry_delay() {
    let mut backoff = RetryBackoff::new(Duration::from_secs(1), Duration::from_secs(4));

    assert_eq!(backoff.next_delay(), Duration::from_secs(1));
    assert_eq!(backoff.next_delay(), Duration::from_secs(2));
    assert_eq!(backoff.next_delay(), Duration::from_secs(4));
    assert_eq!(backoff.next_delay(), Duration::from_secs(4));
    backoff.reset();
    assert_eq!(backoff.next_delay(), Duration::from_secs(1));
}

#[test]
fn backoff_grows_from_sub_second_delays() {
    let mut backoff = RetryBackoff::new(Duration::from_millis(250), Duration::from_secs(5));
    let delays: Vec<Duration> = (0..7).map(|_| backoff.next_delay()).collect();
    assert_eq!(
        delays,
        vec![
            Duration::from_millis(250),
            Duration::from_millis(500),
            Duration::from_secs(1),
            Duration::from_secs(2),
            Duration::from_secs(4),
            Duration::from_secs(5),
            Duration::from_secs(5),
        ]
    );
}

#[test]
fn backoff_keeps_maximum_after_many_attempts() {
    let mut backoff = RetryBackoff::new(Duration::from_nanos(1), Duration::MAX);
    for _ in 0..40 {
        backoff.next_delay();
    }
    assert_eq!(backoff.next_delay(), Duration::from_nanos(1 << 31));
}

#[test]
fn orders_equal_counter_clocks_by_peer_id() {
    let lower = LamportClock {
        counter: 7,
        peer_id: PeerId::from_uuid(uuid::Uuid::from_u128(1)),
    };
    let higher = LamportClock {
        counter: 7,
        peer_id: PeerId::from_uuid(uuid::Uuid::from_u128(2)),
    };

    assert!(higher.is_newer_than(lower));
    assert!(!lower.is_newer_than(higher));
}

#[test]
fn higher_counter_wins_regardless_of_peer() {
    let older = LamportClock { counter: 3, peer_id: PeerId::from_u128(u128::MAX) };
    let newer = LamportClock { counter: 4, peer_id: PeerId::from_u128(0) };
    assert!(newer.is_newer_than(older));
    assert!(!older.is_newer_than(newer));
    assert!(!older.is_newer_than(older));
}

#[test]
fn heartbeat_timeout_degrades_a_connected_peer() {
    let mut session = ConnectionStateMachine::new(PeerId::new(), EventBus::new(1));
    session
        .connected(Duration::from_millis(1))
        .expect("valid transition");
    session
        .check_heartbeat(Instant::now() + Duration::from_secs(1))
        .expect("timeout check is valid");

    assert_eq!(session.state(), ConnectionState::Degraded);
}

#[test]
fn heartbeat_restores_a_degraded_peer_and_announces_changes() {
    let bus = EventBus::new(8);
    let mut events = bus.subscribe();
    let peer = PeerId::new();
    let mut session = ConnectionStateMachine::new(peer, bus);
    session.connected(Duration::from_millis(1)).expect("connects");
    session
        .check_heartbeat(Instant::now() + Duration::from_secs(1))
        .expect("degrades");
    session.heartbeat(Duration::from_secs(30)).expect("recovers");
    assert_eq!(session.state(), ConnectionState::Connected);
    session.disconnected().expect("disconnects");
    assert_eq!(
        session.heartbeat(Duration::from_secs(30)),
        Err(StateError::HeartbeatWhileDisconnected)
    );
    let announced: Vec<ConnectionState> = std::iter::from_fn(|| events.try_recv().ok())
        .map(|event| match event {
            ZenPawsEvent::PeerStateChanged { peer_id, state } => {
                assert_eq!(peer_id, peer);
                state
            }
            other => panic!("unexpected event {other:?}"),
        })
        .collect();
    assert_eq!(
        announced,
        vec![
            ConnectionState::Connected,
            ConnectionState::Degraded,
            ConnectionState::Connected,
            ConnectionState::Disconnected,
        ]
    );
}

#[test]
fn refuses_to_connect_a_disconnected_peer() {
    let mut session = ConnectionStateMachine::new(PeerId::new(), EventBus::new(1));
    session.disconnected().expect("disconnects");
    assert_eq!(
        session.connected(Duration::from_secs(1)),
        Err(StateError::InvalidTransition {
            from: ConnectionState::Disconnected,
            to: ConnectionState::Connected,
        })
    );
    assert_eq!(session.state(), ConnectionState::Disconnected);
}

#[test]
fn undue_heartbeat_check_keeps_the_state() {
    let mut session = ConnectionStateMachine::new(PeerId::new(), EventBus::new(1));
    session.connected(Duration::from_secs(3600)).expect("connects");
    session.check_heartbeat(Instant::now()).expect("not due");
    assert_eq!(session.state(), ConnectionState::Connected);
}

#[test]
fn lists_the_permitted_transitions() {
    let connecting = ConnectionState::Connecting;
    let connected = ConnectionState::Connected;
    let degraded = ConnectionState::Degraded;
    let disconnected = ConnectionState::Disconnected;
    let all = [connecting, connected, degraded, disconnected];
    let permitted = [
        (connecting, connected),
        (connecting, disconnected),
        (degraded, connected),
        (degraded, disconnected),
        (connected, degraded),
        (connected, disconnected),
        (disconnected, connecting),
    ];
    for from in all {
        for to in all {
            assert_eq!(
                is_valid_transition(from, to),
                from == to || permitted.contains(&(from, to)),
                "{from:?} -> {to:?}"
            );
        }
    }
}

#[test]
fn frames_a_body_with_length_and_version() {
    let frame = encode_frame(&[0xAA, 0xBB, 0xCC]).expect("small body frames");
    assert_eq!(frame, vec![3, 0, 0, 0, PROTOCOL_VERSION, 0xAA, 0xBB, 0xCC]);
    assert_eq!(frame_body_length([3, 0, 0, 0]), Ok(3));
    assert_eq!(check_frame_version(frame[4]), Ok(()));
}

#[test]
fn refuses_oversized_frames() {
    let body = vec![0u8; MAX_FRAME_BYTES + 1];
    assert_eq!(
        encode_frame(&body),
        Err(FrameError::FrameTooLarge { received: MAX_FRAME_BYTES + 1, maximum: MAX_FRAME_BYTES })
    );
    assert_eq!(
        frame_body_length([0x01, 0x00, 0x10, 0x00]),
        Err(FrameError::FrameTooLarge { received: 1_048_577, maximum: MAX_FRAME_BYTES })
    );
    assert_eq!(frame_body_length([0x00, 0x00, 0x10, 0x00]), Ok(MAX_FRAME_BYTES));
    assert_eq!(check_frame_version(2), Err(FrameError::UnsupportedVersion { received: 2 }));
}

#[test]
fn frames_a_maximum_size_body() {
    let body = vec![7u8; MAX_FRAME_BYTES];
    let frame = encode_frame(&body).expect("limit is inclusive");
    assert_eq!(frame.len(), MAX_FRAME_BYTES + 5);
    assert_eq!(frame_body_length([frame[0], frame[1], frame[2], frame[3]]), Ok(MAX_FRAME_BYTES));
    assert_eq!(&frame[5..], &body[..]);
}

#[test]
fn publishes_to_subscribers() {
    let bus = EventBus::new(1);
    let mut receiver = bus.subscribe();
    let event = ZenPawsEvent::PeerStateChanged {
        peer_id: PeerId::new(),
        state: ConnectionState::Connected,
    };

    bus.publish(event.clone());

    assert_eq!(receiver.try_recv().expect("event is available"), event);
}

#[test]
fn a_received_heartbeat_restores_a_degraded_peer() {
    let peer = PeerId::from_u128(3);
    let remote = HandshakeIdentity::new(peer, "Remote".to_string()).unwrap();
    let mut session = ConnectionStateMachine::new(peer, EventBus::new(4));
    session.connected(Duration::from_millis(1)).expect("connects");
    session
        .check_heartbeat(Instant::now() + Duration::from_secs(1))
        .expect("degrades");
    assert_eq!(session.state(), ConnectionState::Degraded);
    let action = receive_envelope(&mut session, Duration::from_secs(30), Envelope::Heartbeat, &remote)
        .expect("heartbeat accepted");
    assert!(action.event.is_none() && action.reply.is_none());
    assert_eq!(session.state(), ConnectionState::Connected);
    let ack = receive_envelope(
        &mut session,
        Duration::from_secs(30),
        Envelope::Ack { message_id: 9, kind: AckKind::Delivered },
        &remote,
    )
    .expect("ack accepted");
    assert_eq!(
        ack.event,
        Some(ZenPawsEvent::MessageAckReceived { message_id: 9, peer_id: peer, read: false })
    );
    session.disconnected().expect("disconnects");
    assert_eq!(
        receive_envelope(&mut session, Duration::from_secs(30), Envelope::Heartbeat, &remote).err(),
        Some(StateError::HeartbeatWhileDisconnected)
    );
}
