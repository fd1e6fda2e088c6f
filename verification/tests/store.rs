use zenpaws::chat::{
    author_display_name, check_pet_window_label, compose_message, is_blank, is_pet_window_label, millis_to_timestamp,
    mutation_envelope, now_millis, persist_event, project_message, sync_envelope, validate_body,
    validate_emoji, ChatError, Persistence,
};
use zenpaws::database::{
    acknowledgement_allowed, page_limit, remote_mutation_wins, row_to_message, search_limit,
    status_from_kinds, toggle_after_delete, trusted_peer_from_row, LamportCursor,
    MessageAckError, MessageAckKind, MessageRecord, MessageRow, MessageStatus, ReactionToggle,
    RowDecodeError,
};
use zenpaws::ids::PeerId;
use zenpaws::protocol::{Envelope, LamportClock, MessageBody, MessagePayload};
use zenpaws::shared::ZenPawsEvent;
use zenpaws::trust::TrustStoreError;

const A: &str = "00000000-0000-0000-0000-00000000000a";
const B: &str = "00000000-0000-0000-0000-00000000000b";

fn record() -> MessageRecord {
    MessageRecord {
        author: PeerId::from_u128(10),
        body: "hello".to_string(),
        created_at: 500,
        id: 11,
        lamport_counter: 600,
        lamport_peer: PeerId::from_u128(12),
        reply_to: Some(13),
        room: "shared".to_string(),
    }
}

#[test]
fn names_acknowledgement_kinds() {
    assert_eq!(MessageAckKind::Delivered.as_sql(), "delivered");
    assert_eq!(MessageAckKind::Read.as_sql(), "read");
}

#[test]
fn folds_acknowledgement_kinds() {
    let kinds = vec!["read".to_string(), "bogus".to_string()];
    assert_eq!(status_from_kinds(&kinds), MessageStatus { delivered: false, read: true });
    let kinds = vec!["delivered".to_string(), "read".to_string()];
    assert_eq!(status_from_kinds(&kinds), MessageStatus { delivered: true, read: true });
    assert_eq!(status_from_kinds(&vec![]), MessageStatus { delivered: false, read: false });
}

#[test]
fn refuses_read_receipts_in_the_shared_room() {
    assert_eq!(
        acknowledgement_allowed(MessageAckKind::Read, "shared"),
        Err(MessageAckError::SharedRoomRead)
    );
    assert_eq!(acknowledgement_allowed(MessageAckKind::Delivered, "shared"), Ok(()));
    assert_eq!(acknowledgement_allowed(MessageAckKind::Read, "dm:x"), Ok(()));
}

#[test]
fn clamps_query_limits() {
    assert_eq!(page_limit(0), 1);
    assert_eq!(page_limit(50), 50);
    assert_eq!(page_limit(10_000), 200);
    assert_eq!(search_limit(0), 1);
    assert_eq!(search_limit(100), 100);
    assert_eq!(search_limit(101), 100);
}

#[test]
fn rejects_an_older_remote_mutation() {
    let newer = LamportCursor { counter: 20, peer_id: PeerId::from_u128(1) };
    let older = LamportCursor { counter: 10, peer_id: PeerId::from_u128(9) };
    assert!(remote_mutation_wins(older, newer));
    assert!(!remote_mutation_wins(newer, older));
    assert!(!remote_mutation_wins(newer, newer));
    let tie = LamportCursor { counter: 20, peer_id: PeerId::from_u128(2) };
    assert!(remote_mutation_wins(newer, tie));
}

fn row() -> MessageRow {
    MessageRow {
        id: A.to_string(),
        room: "shared".to_string(),
        author: B.to_string(),
        body: "hi".to_string(),
        reply_to: None,
        lamport_peer: B.to_string(),
        lamport_counter: 3,
        created_at: 4,
    }
}

#[test]
fn decodes_message_rows() {
    let message = row_to_message(row()).expect("valid row");
    assert_eq!(message.id, 10);
    assert_eq!(message.author, PeerId::from_u128(11));
    assert_eq!(message.lamport_peer, PeerId::from_u128(11));
    assert_eq!(message.reply_to, None);
    assert_eq!(message.body, "hi");
    let mut bad = row();
    bad.id = "x".to_string();
    assert_eq!(row_to_message(bad).unwrap_err(), RowDecodeError { column: 0 });
    let mut bad = row();
    bad.author = "x".to_string();
    assert_eq!(row_to_message(bad).unwrap_err(), RowDecodeError { column: 2 });
    let mut bad = row();
    bad.reply_to = Some("x".to_string());
    assert_eq!(row_to_message(bad).unwrap_err(), RowDecodeError { column: 4 });
    let mut bad = row();
    bad.lamport_peer = "x".to_string();
    assert_eq!(row_to_message(bad).unwrap_err(), RowDecodeError { column: 5 });
    let mut reply = row();
    reply.reply_to = Some(A.to_string());
    assert_eq!(row_to_message(reply).unwrap().reply_to, Some(10));
}

#[test]
fn rebuilds_trusted_peers_from_rows() {
    let peer = trusted_peer_from_row(PeerId::from_u128(1), vec![7; 32], vec![1, 2]).expect("valid pin");
    assert_eq!(peer.pin().as_bytes(), [7; 32]);
    assert_eq!(peer.certificate_der(), &[1, 2]);
    assert!(matches!(
        trusted_peer_from_row(PeerId::from_u128(1), vec![7; 31], vec![]),
        Err(TrustStoreError::Storage(_))
    ));
}

#[test]
fn toggles_reactions() {
    assert_eq!(toggle_after_delete(1), ReactionToggle::Removed);
    assert_eq!(toggle_after_delete(0), ReactionToggle::Insert);
}

#[test]
fn projects_messages_for_the_frontend() {
    let projected = project_message(
        &record(),
        "Mochi".to_string(),
        false,
        vec!["🐾".to_string()],
        Some(("Kiki".to_string(), "earlier".to_string())),
    );
    assert_eq!(projected.id, "00000000-0000-0000-0000-00000000000b");
    assert_eq!(projected.author_id, "00000000-0000-0000-0000-00000000000a");
    assert_eq!(projected.reply_to.as_deref(), Some("00000000-0000-0000-0000-00000000000d"));
    assert_eq!(projected.reply_author_name.as_deref(), Some("Kiki"));
    assert_eq!(projected.reply_body.as_deref(), Some("earlier"));
    assert_eq!(projected.body, "hello");
    assert_eq!(projected.created_at, 500);
    assert_eq!(projected.reactions, vec!["🐾".to_string()]);
}

#[test]
fn validates_bodies_emoji_and_window_labels() {
    assert!(is_blank(" \t\n\u{3000}"));
    assert!(!is_blank(" x "));
    assert_eq!(validate_body("  "), Err(ChatError::EmptyBody));
    assert_eq!(validate_body("hi"), Ok(()));
    assert_eq!(validate_emoji(""), Err(ChatError::InvalidEmoji));
    assert_eq!(validate_emoji(&"x".repeat(17)), Err(ChatError::InvalidEmoji));
    assert_eq!(validate_emoji(&"x".repeat(16)), Ok(()));
    assert!(is_pet_window_label("pet-1"));
    assert!(!is_pet_window_label("pet"));
    assert!(!is_pet_window_label("main"));
    assert_eq!(check_pet_window_label("main"), Err(ChatError::OutsidePetScope));
    assert_eq!(check_pet_window_label("pet-x"), Ok(()));
}

#[test]
fn composes_and_replicates_messages() {
    let author = PeerId::from_u128(10);
    let (stored, envelope) = compose_message(author, "hello".into(), 500, 11, None, "shared".into());
    assert_eq!(stored.lamport_counter, 500);
    assert_eq!(stored.lamport_peer, author);
    assert_eq!(
        envelope,
        Envelope::Message(MessagePayload {
            author,
            body: MessageBody::Text("hello".into()),
            clock: LamportClock { counter: 500, peer_id: author },
            created_at: 500,
            id: 11,
            mentions: vec![],
            reply_to: None,
            room: "shared".into(),
        })
    );
    let mutation = mutation_envelope(author, "dm:x".into(), MessageBody::Delete { message_id: 11 }, 900, 12);
    match mutation {
        Envelope::Message(p) => {
            assert_eq!(p.clock, LamportClock { counter: 900, peer_id: author });
            assert_eq!(p.body, MessageBody::Delete { message_id: 11 });
        }
        other => panic!("unexpected {other:?}"),
    }
    match sync_envelope(record()) {
        Envelope::Message(p) => {
            assert_eq!(p.clock, LamportClock { counter: 600, peer_id: PeerId::from_u128(12) });
            assert_eq!(p.reply_to, Some(13));
        }
        other => panic!("unexpected {other:?}"),
    }
}

#[test]
fn persists_replicated_events() {
    let author = PeerId::from_u128(3);
    match persist_event(
        ZenPawsEvent::MessageReceived {
            message_id: 1,
            room: "shared".into(),
            author,
            author_name: "A".into(),
            body: "b".into(),
            created_at: 5,
            lamport_counter: 6,
            reply_to: None,
        },
        100,
    ) {
        Some(Persistence::Received { author: a, seen_at, record, .. }) => {
            assert_eq!(a, author);
            assert_eq!(seen_at, 5);
            assert_eq!(record.lamport_counter, 6);
            assert_eq!(record.lamport_peer, author);
        }
        other => panic!("unexpected {other:?}"),
    }
    match persist_event(ZenPawsEvent::MessageAckReceived { message_id: 1, peer_id: author, read: true }, 100) {
        Some(Persistence::Acknowledge { kind, acked_at, .. }) => {
            assert_eq!(kind, MessageAckKind::Read);
            assert_eq!(acked_at, 100);
        }
        other => panic!("unexpected {other:?}"),
    }
    assert!(matches!(
        persist_event(
            ZenPawsEvent::MessageReactionChanged { message_id: 1, peer_id: author, emoji: "x".into(), removed: false },
            0
        ),
        Some(Persistence::AddReaction { .. })
    ));
    assert!(persist_event(ZenPawsEvent::PeerTrustViolation { peer_id: author }, 0).is_none());
}

#[test]
fn wall_clock_timestamps_saturate() {
    assert_eq!(millis_to_timestamp(None), 0);
    assert_eq!(millis_to_timestamp(Some(12)), 12);
    assert_eq!(millis_to_timestamp(Some(u128::MAX)), i64::MAX);
    assert!(now_millis() > 1_600_000_000_000);
}

#[test]
fn shows_a_stored_name_or_the_author_id() {
    let author = PeerId::from_u128(10);
    assert_eq!(author_display_name(Some("Mochi".to_string()), author), "Mochi");
    assert_eq!(author_display_name(None, author), A);
}
