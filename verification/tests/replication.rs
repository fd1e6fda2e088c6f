use zenpaws::chat::{compose_message, mutation_envelope, persist_event, sync_envelope, Persistence};
use zenpaws::database::LamportCursor;
use zenpaws::ids::PeerId;
use zenpaws::protocol::{AckKind, Envelope, MessageBody};
use zenpaws::service::inbound_action;
use zenpaws::session::HandshakeIdentity;

#[test]
fn a_sent_message_is_stored_alike_by_the_receiver() {
    let author = PeerId::from_u128(0xa);
    let remote = HandshakeIdentity::new(author, "Mochi".to_string()).unwrap();
    let (stored, envelope) =
        compose_message(author, "hello".into(), 1_700, 0x55, Some(0x44), "shared".into());
    let action = inbound_action(envelope, &remote);
    assert_eq!(action.reply, Some(Envelope::Ack { message_id: 0x55, kind: AckKind::Delivered }));
    match persist_event(action.event.expect("an event"), 9) {
        Some(Persistence::Received { author: a, author_name, seen_at, record }) => {
            assert_eq!(a, author);
            assert_eq!(author_name, "Mochi");
            assert_eq!(seen_at, 1_700);
            assert_eq!(record, stored);
        }
        other => panic!("unexpected {other:?}"),
    }
}

#[test]
fn a_synced_message_is_stored_alike() {
    let author = PeerId::from_u128(0xb);
    let relay = HandshakeIdentity::new(PeerId::from_u128(0xc), "Relay".to_string()).unwrap();
    let (stored, _) = compose_message(author, "old".into(), 10, 0x66, None, "shared".into());
    let action = inbound_action(sync_envelope(stored.clone()), &relay);
    match persist_event(action.event.expect("an event"), 0) {
        Some(Persistence::Received { record, .. }) => assert_eq!(record, stored),
        other => panic!("unexpected {other:?}"),
    }
}

#[test]
fn a_mutation_is_applied_alike_by_the_receiver() {
    let editor = PeerId::from_u128(0xd);
    let remote = HandshakeIdentity::new(editor, "Kiki".to_string()).unwrap();
    let envelope = mutation_envelope(
        editor,
        "shared".into(),
        MessageBody::Edit { message_id: 0x55, body: "fixed".into() },
        2_000,
        0x77,
    );
    let action = inbound_action(envelope, &remote);
    assert_eq!(action.reply, Some(Envelope::Ack { message_id: 0x77, kind: AckKind::Delivered }));
    match persist_event(action.event.expect("an event"), 0) {
        Some(Persistence::RemoteEdit { message_id, body, edited_at, clock }) => {
            assert_eq!(message_id, 0x55);
            assert_eq!(body, "fixed");
            assert_eq!(edited_at, 2_000);
            assert_eq!(clock, LamportCursor { counter: 2_000, peer_id: editor });
        }
        other => panic!("unexpected {other:?}"),
    }
    let removal = mutation_envelope(
        editor,
        "shared".into(),
        MessageBody::Reaction { message_id: 0x55, emoji: "🐾".into(), removed: true },
        2_001,
        0x78,
    );
    match persist_event(inbound_action(removal, &remote).event.expect("an event"), 0) {
        Some(Persistence::RemoveReaction { message_id, peer_id, emoji }) => {
            assert_eq!((message_id, peer_id, emoji.as_str()), (0x55, editor, "🐾"));
        }
        other => panic!("unexpected {other:?}"),
    }
}
