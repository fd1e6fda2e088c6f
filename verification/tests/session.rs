use std::time::Duration;

use zenpaws::backoff::RetryBackoff;
use zenpaws::discovery::{DiscoveredPeer, DiscoveryError, PeerAddress};
use zenpaws::ids::PeerId;
use zenpaws::protocol::{AckKind, Envelope, LamportClock, MessageBody, MessagePayload};
use zenpaws::service::{
    after_failed_attempt, inbound_action, initial_sync_request, is_pin_mismatch,
    lan_broadcast_octets, outbound_server_name, push_log, ConnectingPeers, DiscoveryStep,
    RetryStep, ServiceError, TransportError, MAX_LOG_LINES,
};
use zenpaws::session::{
    expect_peer, handshake_envelope, identity_from_envelope, HandshakeError, HandshakeIdentity,
};
use zenpaws::shared::ZenPawsEvent;
use zenpaws::text::is_valid_username;
use zenpaws::tls::TlsError;
use zenpaws::trust::TrustStoreError;

#[test]
fn validates_display_names() {
    assert!(is_valid_username("Mochi"));
    assert!(is_valid_username("猫猫猫猫猫猫猫猫猫猫"));
    assert!(!is_valid_username("猫猫猫猫猫猫猫猫猫猫猫"));
    assert!(is_valid_username(&"a".repeat(32)));
    assert!(!is_valid_username(&"a".repeat(33)));
    assert!(!is_valid_username(""));
    assert!(!is_valid_username("tab\there"));
    assert!(!is_valid_username("del\u{7f}"));
    assert!(!is_valid_username("c1\u{85}"));
}

#[test]
fn handshake_identity_round_trips_through_its_envelope() {
    let peer = PeerId::from_u128(42);
    let identity = HandshakeIdentity::new(peer, "Mochi".to_string()).expect("valid name");
    assert_eq!(identity.peer_id(), peer);
    assert_eq!(identity.username(), "Mochi");
    let envelope = handshake_envelope(&identity);
    assert_eq!(
        envelope,
        Envelope::Handshake { peer_id: peer, username: "Mochi".to_string() }
    );
    let received = identity_from_envelope(envelope).expect("handshake parses");
    assert_eq!(received, identity);
    assert_eq!(expect_peer(received.clone(), peer), Ok(received.clone()));
    assert_eq!(
        expect_peer(received, PeerId::from_u128(43)),
        Err(HandshakeError::UnexpectedPeer)
    );
}

#[test]
fn handshake_refuses_other_envelopes_and_bad_names() {
    assert_eq!(
        identity_from_envelope(Envelope::Heartbeat),
        Err(HandshakeError::ExpectedHandshake)
    );
    assert_eq!(
        identity_from_envelope(Envelope::Handshake {
            peer_id: PeerId::from_u128(1),
            username: "\u{0}".to_string()
        }),
        Err(HandshakeError::InvalidUsername)
    );
    assert_eq!(
        HandshakeIdentity::new(PeerId::from_u128(1), String::new()),
        Err(HandshakeError::InvalidUsername)
    );
}

#[test]
fn keeps_the_most_recent_log_lines() {
    let mut logs = Vec::new();
    for line in 0..150 {
        push_log(&mut logs, &format!("line {line}"));
    }
    assert_eq!(logs.len(), MAX_LOG_LINES);
    assert_eq!(logs[0], "line 50");
    assert_eq!(logs[99], "line 149");
}

#[test]
fn computes_the_lan_broadcast_address() {
    assert_eq!(lan_broadcast_octets(Some([192, 168, 4, 17])), [192, 168, 4, 255]);
    assert_eq!(lan_broadcast_octets(None), [255, 255, 255, 255]);
}

#[test]
fn requests_the_shared_room_from_the_start() {
    let local = PeerId::from_u128(11);
    assert_eq!(
        initial_sync_request(local),
        Envelope::SyncRequest {
            room: "shared".to_string(),
            since: LamportClock { counter: 0, peer_id: local }
        }
    );
}

#[test]
fn admits_each_discovered_peer_once() {
    let local = PeerId::from_u128(1);
    let remote = PeerId::from_u128(2);
    let mut connecting = ConnectingPeers::new();
    assert_eq!(connecting.on_discovered(local, local), DiscoveryStep::IgnoreSelf);
    assert_eq!(connecting.on_discovered(local, remote), DiscoveryStep::Connect);
    assert_eq!(connecting.on_discovered(local, remote), DiscoveryStep::IgnoreDuplicate);
    connecting.clear_connecting(remote);
    assert!(connecting.mark_connecting(remote));
    assert!(!connecting.mark_connecting(remote));
}

fn discovered(peer_id: PeerId) -> DiscoveredPeer {
    DiscoveredPeer {
        certificate_der: vec![],
        endpoint: PeerAddress { ip: [127, 0, 0, 1], port: 1 },
        peer_id,
        username: "B".to_string(),
    }
}

#[test]
fn dials_other_peers_by_server_name() {
    let local = PeerId::from_u128(1);
    assert!(matches!(
        outbound_server_name(local, &discovered(local)),
        Err(ServiceError::SelfConnection)
    ));
    assert_eq!(
        outbound_server_name(local, &discovered(PeerId::from_u128(2))).expect("other peer"),
        "zenpaws-00000000-0000-0000-0000-000000000002.local"
    );
}

#[test]
fn gives_up_only_on_a_changed_pin() {
    let peer = PeerId::from_u128(3);
    let mut retry = RetryBackoff::new(Duration::from_secs(1), Duration::from_secs(30));
    let mismatch = ServiceError::Tls(TlsError::Trust(TrustStoreError::PinMismatch));
    assert!(is_pin_mismatch(&mismatch));
    assert!(!is_pin_mismatch(&ServiceError::Discovery(DiscoveryError::Mdns)));
    match after_failed_attempt(&mismatch, peer, &mut retry) {
        RetryStep::GiveUp(event) => {
            assert_eq!(event, ZenPawsEvent::PeerTrustViolation { peer_id: peer })
        }
        other => panic!("unexpected {other:?}"),
    }
    for expected in [1, 2, 4] {
        match after_failed_attempt(&ServiceError::Transport(TransportError::Io), peer, &mut retry) {
            RetryStep::RetryAfter(delay) => assert_eq!(delay, Duration::from_secs(expected)),
            other => panic!("unexpected {other:?}"),
        }
    }
}

fn payload(body: MessageBody) -> MessagePayload {
    MessagePayload {
        author: PeerId::from_u128(7),
        body,
        clock: LamportClock { counter: 12, peer_id: PeerId::from_u128(8) },
        created_at: 1_000,
        id: 99,
        mentions: vec![],
        reply_to: Some(98),
        room: "shared".to_string(),
    }
}

#[test]
fn dispatches_received_envelopes() {
    let remote = HandshakeIdentity::new(PeerId::from_u128(7), "Remote".to_string()).unwrap();
    let action = inbound_action(Envelope::Message(payload(MessageBody::Text("hi".into()))), &remote);
    assert_eq!(action.reply, Some(Envelope::Ack { message_id: 99, kind: AckKind::Delivered }));
    assert_eq!(
        action.event,
        Some(ZenPawsEvent::MessageReceived {
            message_id: 99,
            room: "shared".to_string(),
            author: PeerId::from_u128(7),
            author_name: "Remote".to_string(),
            body: "hi".to_string(),
            created_at: 1_000,
            lamport_counter: 12,
            reply_to: Some(98),
        })
    );
    let edit = inbound_action(
        Envelope::Message(payload(MessageBody::Edit { message_id: 5, body: "new".into() })),
        &remote,
    );
    assert_eq!(
        edit.event,
        Some(ZenPawsEvent::MessageEdited {
            message_id: 5,
            body: "new".to_string(),
            edited_at: 1_000,
            lamport_counter: 12,
            lamport_peer: PeerId::from_u128(8),
        })
    );
    let delete = inbound_action(Envelope::Message(payload(MessageBody::Delete { message_id: 5 })), &remote);
    assert_eq!(
        delete.event,
        Some(ZenPawsEvent::MessageDeleted {
            message_id: 5,
            deleted_at: 1_000,
            lamport_counter: 12,
            lamport_peer: PeerId::from_u128(8),
        })
    );
    let reaction = inbound_action(
        Envelope::Message(payload(MessageBody::Reaction {
            message_id: 5,
            emoji: "🐾".into(),
            removed: true,
        })),
        &remote,
    );
    assert_eq!(
        reaction.event,
        Some(ZenPawsEvent::MessageReactionChanged {
            message_id: 5,
            peer_id: PeerId::from_u128(7),
            emoji: "🐾".to_string(),
            removed: true,
        })
    );
    let ack = inbound_action(Envelope::Ack { message_id: 4, kind: AckKind::Read }, &remote);
    assert_eq!(ack.reply, None);
    assert_eq!(
        ack.event,
        Some(ZenPawsEvent::MessageAckReceived { message_id: 4, peer_id: PeerId::from_u128(7), read: true })
    );
    let sync = inbound_action(
        Envelope::SyncRequest {
            room: "shared".to_string(),
            since: LamportClock { counter: 3, peer_id: PeerId::from_u128(2) },
        },
        &remote,
    );
    assert_eq!(
        sync.event,
        Some(ZenPawsEvent::SyncRequested {
            peer_id: PeerId::from_u128(7),
            room: "shared".to_string(),
            since_counter: 3,
            since_peer: PeerId::from_u128(2),
        })
    );
    let heartbeat = inbound_action(Envelope::Heartbeat, &remote);
    assert_eq!(heartbeat.event, None);
    assert_eq!(heartbeat.reply, None);
}
