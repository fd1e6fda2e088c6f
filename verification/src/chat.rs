//! Chat messages as the frontend sees them, locally authored messages and
//! mutations, and the store writes that replicated events call for.

use vstd::prelude::*;

use crate::database::{LamportCursor, MessageAckKind, MessageRecord};
use crate::ids::{format_uuid, random_uuid_value, uuid_hyphenated, PeerId};
use crate::protocol::{AckKind, Envelope, LamportClock, MessageBody, MessagePayload};
use crate::service::{inbound_as, InboundAction};
use crate::session::HandshakeIdentityView;
use crate::shared::ZenPawsEvent;

verus! {

/// Frontend-safe message projection without database internals.
#[derive(Clone, Debug, PartialEq, Eq)]
pub struct ChatMessage {
    pub author_id: String,
    pub author_name: String,
    pub body: String,
    pub created_at: i64,
    pub deleted: bool,
    pub id: String,
    pub reply_to: Option<String>,
    pub reactions: Vec<String>,
    pub reply_author_name: Option<String>,
    pub reply_body: Option<String>,
    pub room: String,
}

/// Keyset cursor accepted from the chat frontend.
#[derive(Clone, Debug, PartialEq, Eq)]
pub struct ChatCursor {
    pub created_at: i64,
    pub id: String,
}

/// Direct-message acknowledgement state for the frontend.
#[derive(Clone, Copy, Debug, PartialEq, Eq, Structural)]
pub struct ChatMessageStatus {
    pub delivered: bool,
    pub read: bool,
}

/// Name and version reported by the application status command.
#[derive(Clone, Copy, Debug, PartialEq, Eq)]
pub struct AppStatus {
    pub name: &'static str,
    pub version: &'static str,
}

/// Details returned after the local LAN listener begins.
#[derive(Clone, Debug, PartialEq, Eq)]
pub struct NetworkStatus {
    pub peer_id: String,
    pub tcp_port: u16,
}

/// Details returned after a transparent pet overlay is created.
#[derive(Clone, Debug, PartialEq, Eq)]
pub struct PetWindowStatus {
    pub label: String,
}

/// Chat command failures decided by the library.
#[derive(Clone, Copy, Debug, PartialEq, Eq, Structural)]
pub enum ChatError {
    EmptyBody,
    InvalidEmoji,
    OutsidePetScope,
}

impl ChatError {
    /// The message shown to the user for this failure.
    pub fn message(&self) -> (text: String)
        ensures
            text@ == match *self {
                ChatError::EmptyBody => "message body cannot be empty"@,
                ChatError::InvalidEmoji => "reaction emoji is invalid"@,
                ChatError::OutsidePetScope => "window label is outside the pet scope"@,
            },
    {
        match self {
            ChatError::EmptyBody => "message body cannot be empty".to_string(),
            ChatError::InvalidEmoji => "reaction emoji is invalid".to_string(),
            ChatError::OutsidePetScope => "window label is outside the pet scope".to_string(),
        }
    }
}

/// Projects a stored message for the frontend, with its author's display
/// name, deletion flag, reactions, and the preview of the message it answers.
pub fn project_message(
    message: &MessageRecord,
    author_name: String,
    deleted: bool,
    reactions: Vec<String>,
    reply_preview: Option<(String, String)>,
) -> (projected: ChatMessage)
    ensures
        projected.author_id@ == uuid_hyphenated(message.author.spec_value()),
        projected.author_name@ == author_name@,
        projected.body@ == message.body@,
        projected.created_at == message.created_at,
        projected.deleted == deleted,
        projected.id@ == uuid_hyphenated(message.id),
        match message.reply_to {
            Some(target) => projected.reply_to matches Some(t) && t@ == uuid_hyphenated(target),
            None => projected.reply_to is None,
        },
        projected.reactions@ == reactions@,
        match reply_preview {
            Some((name, body)) => {
                &&& (projected.reply_author_name matches Some(n) && n@ == name@)
                &&& (projected.reply_body matches Some(b) && b@ == body@)
            },
            None => projected.reply_author_name is None && projected.reply_body is None,
        },
        projected.room@ == message.room@,
{
    let (reply_author_name, reply_body) = match reply_preview {
        Some((name, body)) => (Some(name), Some(body)),
        None => (None, None),
    };
    ChatMessage {
        author_id: format_uuid(message.author.as_u128()),
        author_name,
        body: message.body.clone(),
        created_at: message.created_at,
        deleted,
        id: format_uuid(message.id),
        reply_to: match message.reply_to {
            Some(target) => Some(format_uuid(target)),
            None => None,
        },
        reactions,
        reply_author_name,
        reply_body,
        room: message.room.clone(),
    }
}

/// The name shown for a message's author: the display name stored for the
/// author, or the author's hyphenated UUID when none is stored.
pub fn author_display_name(stored: Option<String>, author: PeerId) -> (name: String)
    ensures
        match stored {
            Some(known) => name@ == known@,
            None => name@ == uuid_hyphenated(author.spec_value()),
        },
{
    match stored {
        Some(known) => known,
        None => format_uuid(author.as_u128()),
    }
}

/// Unicode `White_Space`: U+0009..U+000D, U+0020, U+0085, U+00A0, U+1680,
/// U+2000..U+200A, U+2028, U+2029, U+202F, U+205F and U+3000.
pub open spec fn is_whitespace_char(c: char) -> bool {
    let u = c as u32;
    (0x9 <= u && u <= 0xd) || u == 0x20 || u == 0x85 || u == 0xa0 || u == 0x1680
        || (0x2000 <= u && u <= 0x200a) || u == 0x2028 || u == 0x2029 || u == 0x202f
        || u == 0x205f || u == 0x3000
}

/// Calls `char::is_whitespace`, which holds exactly for characters with the
/// Unicode `White_Space` property.
#[verifier::external_body]
fn char_is_whitespace(c: char) -> (white: bool)
    ensures
        white == is_whitespace_char(c),
{
    c.is_whitespace()
}

/// Whether a message body is empty once surrounding whitespace is trimmed,
/// that is, whether it holds only whitespace.
pub fn is_blank(body: &str) -> (blank: bool)
    ensures
        blank == forall|i: int| 0 <= i < body@.len() ==> is_whitespace_char(#[trigger] body@[i]),
{
    let mut blank = true;
    for c in iter: body.chars()
        invariant
            iter.seq() == body@,
            blank == (forall|i: int| 0 <= i < iter.index() ==> is_whitespace_char(#[trigger] body@[i])),
    {
        if !char_is_whitespace(c) {
            blank = false;
        }
    }
    blank
}

/// Checks a locally authored message body: it must hold something besides whitespace.
pub fn validate_body(body: &str) -> (result: Result<(), ChatError>)
    ensures
        (forall|i: int| 0 <= i < body@.len() ==> is_whitespace_char(#[trigger] body@[i])) ==> result == Err::<(), ChatError>(ChatError::EmptyBody),
        !(forall|i: int| 0 <= i < body@.len() ==> is_whitespace_char(#[trigger] body@[i])) ==> result is Ok,
{
    if is_blank(body) { Err(ChatError::EmptyBody) } else { Ok(()) }
}

/// Checks a reaction: between one and sixteen characters.
pub fn validate_emoji(emoji: &str) -> (result: Result<(), ChatError>)
    ensures
        (0 < emoji@.len() <= 16) ==> result is Ok,
        !(0 < emoji@.len() <= 16) ==> result == Err::<(), ChatError>(ChatError::InvalidEmoji),
{
    if emoji.is_empty() || emoji.unicode_len() > 16 { Err(ChatError::InvalidEmoji) } else { Ok(()) }
}

/// Whether `envelope` carries the stored message `message` to a peer: a
/// text message with its author, body, clock, time, ID, reply target and
/// room, mentioning nobody.
pub open spec fn carries(envelope: Envelope, message: MessageRecord) -> bool {
    envelope matches Envelope::Message(p) && {
        &&& p.author == message.author
        &&& (p.body matches MessageBody::Text(t) && t@ == message.body@)
        &&& p.clock == (LamportClock { counter: message.lamport_counter, peer_id: message.lamport_peer })
        &&& p.created_at == message.created_at
        &&& p.id == message.id
        &&& p.mentions@.len() == 0
        &&& p.reply_to == message.reply_to
        &&& p.room@ == message.room@
    }
}

/// Whether two stored messages hold the same content.
pub open spec fn same_message(a: MessageRecord, b: MessageRecord) -> bool {
    &&& a.author == b.author
    &&& a.body@ == b.body@
    &&& a.created_at == b.created_at
    &&& a.id == b.id
    &&& a.lamport_counter == b.lamport_counter
    &&& a.lamport_peer == b.lamport_peer
    &&& a.reply_to == b.reply_to
    &&& a.room@ == b.room@
}

/// Composes a locally authored message: the stored record, stamped with a
/// Lamport counter equal to its creation time, and the envelope that
/// replicates it to every peer.
pub fn compose_message(
    author: PeerId,
    body: String,
    created_at: i64,
    id: u128,
    reply_to: Option<u128>,
    room: String,
) -> (composed: (MessageRecord, Envelope))
    ensures
        composed.0.author == author && composed.0.body@ == body@ && composed.0.created_at == created_at
            && composed.0.id == id && composed.0.lamport_counter == created_at && composed.0.lamport_peer == author
            && composed.0.reply_to == reply_to && composed.0.room@ == room@,
        carries(composed.1, composed.0),
{
    let envelope = Envelope::Message(MessagePayload {
        author,
        body: MessageBody::Text(body.clone()),
        clock: LamportClock { counter: created_at, peer_id: author },
        created_at,
        id,
        mentions: Vec::new(),
        reply_to,
        room: room.clone(),
    });
    let record = MessageRecord {
        author,
        body,
        created_at,
        id,
        lamport_counter: created_at,
        lamport_peer: author,
        reply_to,
        room,
    };
    (record, envelope)
}

/// Whether `envelope` replicates the mutation `body` of `peer_id` in `room`,
/// made at `created_at`: a fresh message `id` stamped with the mutation time
/// as its Lamport counter.
pub open spec fn carries_mutation(envelope: Envelope, peer_id: PeerId, room: String, body: MessageBody, created_at: i64, id: u128) -> bool {
    envelope matches Envelope::Message(p) && {
        &&& p.author == peer_id
        &&& p.body == body
        &&& p.clock == (LamportClock { counter: created_at, peer_id })
        &&& p.created_at == created_at
        &&& p.id == id
        &&& p.mentions@.len() == 0
        &&& p.reply_to is None
        &&& p.room == room
    }
}

/// The envelope that replicates a local edit, delete or reaction: a fresh
/// message stamped with the mutation time as its Lamport counter.
pub fn mutation_envelope(peer_id: PeerId, room: String, body: MessageBody, created_at: i64, id: u128) -> (envelope: Envelope)
    ensures
        carries_mutation(envelope, peer_id, room, body, created_at, id),
{
    Envelope::Message(MessagePayload {
        author: peer_id,
        body,
        clock: LamportClock { counter: created_at, peer_id },
        created_at,
        id,
        mentions: Vec::new(),
        reply_to: None,
        room,
    })
}

/// The envelope that answers a sync request with one stored message.
pub fn sync_envelope(message: MessageRecord) -> (envelope: Envelope)
    ensures
        carries(envelope, message),
{
    Envelope::Message(MessagePayload {
        author: message.author,
        body: MessageBody::Text(message.body),
        clock: LamportClock { counter: message.lamport_counter, peer_id: message.lamport_peer },
        created_at: message.created_at,
        id: message.id,
        mentions: Vec::new(),
        reply_to: message.reply_to,
        room: message.room,
    })
}

/// The store writes that persist one replicated event.
#[derive(Debug)]
pub enum Persistence {
    /// Record the author's display name as of `seen_at`, then insert the
    /// message unless one with its ID exists.
    Received { author: PeerId, author_name: String, seen_at: i64, record: MessageRecord },
    /// Apply an edit if its clock beats the visible state.
    RemoteEdit { message_id: u128, body: String, edited_at: i64, clock: LamportCursor },
    /// Apply a delete if its clock beats the visible state.
    RemoteDelete { message_id: u128, deleted_at: i64, clock: LamportCursor },
    /// Add one peer's reaction.
    AddReaction { message_id: u128, peer_id: PeerId, emoji: String },
    /// Remove one peer's reaction.
    RemoveReaction { message_id: u128, peer_id: PeerId, emoji: String },
    /// Store a delivery or read acknowledgement received at `acked_at`.
    Acknowledge { message_id: u128, peer_id: PeerId, kind: MessageAckKind, acked_at: i64 },
}

/// The store writes that persist `event`, received at `now_millis`.
pub open spec fn persisted_as(event: ZenPawsEvent, now_millis: i64, writes: Option<Persistence>) -> bool {
    match event {
        ZenPawsEvent::MessageReceived { message_id, room, author, author_name, body, created_at, lamport_counter, reply_to } =>
            writes matches Some(Persistence::Received { author: a, author_name: n, seen_at, record })
                && a == author && n@ == author_name@ && seen_at == created_at && record.author == author
                && record.body@ == body@ && record.created_at == created_at && record.id == message_id
                && record.lamport_counter == lamport_counter && record.lamport_peer == author
                && record.reply_to == reply_to && record.room@ == room@,
        ZenPawsEvent::MessageEdited { message_id, body, edited_at, lamport_counter, lamport_peer } =>
            writes matches Some(Persistence::RemoteEdit { message_id: m, body: b, edited_at: t, clock })
                && m == message_id && b@ == body@ && t == edited_at
                && clock == (LamportCursor { counter: lamport_counter, peer_id: lamport_peer }),
        ZenPawsEvent::MessageDeleted { message_id, deleted_at, lamport_counter, lamport_peer } =>
            writes matches Some(Persistence::RemoteDelete { message_id: m, deleted_at: t, clock })
                && m == message_id && t == deleted_at
                && clock == (LamportCursor { counter: lamport_counter, peer_id: lamport_peer }),
        ZenPawsEvent::MessageReactionChanged { message_id, peer_id, emoji, removed } => if removed {
            writes matches Some(Persistence::RemoveReaction { message_id: m, peer_id: p, emoji: e })
                && m == message_id && p == peer_id && e@ == emoji@
        } else {
            writes matches Some(Persistence::AddReaction { message_id: m, peer_id: p, emoji: e })
                && m == message_id && p == peer_id && e@ == emoji@
        },
        ZenPawsEvent::MessageAckReceived { message_id, peer_id, read } =>
            writes matches Some(Persistence::Acknowledge { message_id: m, peer_id: p, kind, acked_at })
                && m == message_id && p == peer_id && acked_at == now_millis
                && kind == if read { MessageAckKind::Read } else { MessageAckKind::Delivered },
        _ => writes is None,
    }
}

/// The store writes an event calls for: received messages are stored under
/// their author's clock, edits and deletes go through last-writer-wins,
/// reactions are added or removed, and acknowledgements are stored with the
/// time they arrived; every other event writes nothing.
pub fn persist_event(event: ZenPawsEvent, now_millis: i64) -> (writes: Option<Persistence>)
    ensures
        persisted_as(event, now_millis, writes),
        event matches ZenPawsEvent::MessageAckReceived { read, .. } ==> (writes matches Some(
            Persistence::Acknowledge { kind, acked_at, .. },
        ) && (kind == MessageAckKind::Read <==> read) && acked_at == now_millis),
{
    match event {
        ZenPawsEvent::MessageReceived { message_id, room, author, author_name, body, created_at, lamport_counter, reply_to } => {
            Some(Persistence::Received {
                author,
                author_name,
                seen_at: created_at,
                record: MessageRecord {
                    author,
                    body,
                    created_at,
                    id: message_id,
                    lamport_counter,
                    lamport_peer: author,
                    reply_to,
                    room,
                },
            })
        },
        ZenPawsEvent::MessageEdited { message_id, body, edited_at, lamport_counter, lamport_peer } => {
            Some(Persistence::RemoteEdit {
                message_id,
                body,
                edited_at,
                clock: LamportCursor { counter: lamport_counter, peer_id: lamport_peer },
            })
        },
        ZenPawsEvent::MessageDeleted { message_id, deleted_at, lamport_counter, lamport_peer } => {
            Some(Persistence::RemoteDelete {
                message_id,
                deleted_at,
                clock: LamportCursor { counter: lamport_counter, peer_id: lamport_peer },
            })
        },
        ZenPawsEvent::MessageReactionChanged { message_id, peer_id, emoji, removed } => if removed {
            Some(Persistence::RemoveReaction { message_id, peer_id, emoji })
        } else {
            Some(Persistence::AddReaction { message_id, peer_id, emoji })
        },
        ZenPawsEvent::MessageAckReceived { message_id, peer_id, read } => {
            let kind = if read { MessageAckKind::Read } else { MessageAckKind::Delivered };
            Some(Persistence::Acknowledge { message_id, peer_id, kind, acked_at: now_millis })
        },
        _ => None,
    }
}

/// Law (replication): a message carried to a peer, freshly composed or sent
/// in answer to a sync request, is acknowledged as delivered and stored by
/// that peer with the same content under the same author; every message
/// stored this way again has its author as its Lamport peer, so it is carried
/// onward alike.
pub proof fn lemma_carried_message_is_stored_alike(
    message: MessageRecord,
    envelope: Envelope,
    remote: HandshakeIdentityView,
    action: InboundAction,
    now: i64,
    writes: Option<Persistence>,
)
    requires
        carries(envelope, message),
        message.lamport_peer == message.author,
        inbound_as(envelope, remote, action),
        action.event matches Some(event) && persisted_as(event, now, writes),
    ensures
        action.reply == Some(Envelope::Ack { message_id: message.id, kind: AckKind::Delivered }),
        writes matches Some(Persistence::Received { author, author_name, seen_at, record }) && {
            &&& author == message.author
            &&& author_name@ == remote.username
            &&& seen_at == message.created_at
            &&& same_message(record, message)
            &&& record.lamport_peer == record.author
        },
{
}

/// Law: an acknowledgement is stored with the kind it carries, from the
/// peer that sent it, at the time it arrived: a delivery receipt as
/// delivered and a read receipt as read.
pub proof fn lemma_ack_kind_kept(
    message_id: u128,
    kind: AckKind,
    remote: HandshakeIdentityView,
    action: InboundAction,
    now: i64,
    writes: Option<Persistence>,
)
    requires
        inbound_as(Envelope::Ack { message_id, kind }, remote, action),
        action.event matches Some(event) && persisted_as(event, now, writes),
    ensures
        action.reply is None,
        writes matches Some(Persistence::Acknowledge { message_id: m, peer_id, kind: stored, acked_at }) && {
            &&& m == message_id
            &&& peer_id == remote.peer_id
            &&& acked_at == now
            &&& (kind == AckKind::Delivered ==> stored == MessageAckKind::Delivered)
            &&& (kind == AckKind::Read ==> stored == MessageAckKind::Read)
        },
{
}

/// Law: a received acknowledgement event is stored as read exactly when it
/// says read, and as delivered otherwise.
pub proof fn lemma_ack_event_kind(message_id: u128, peer_id: PeerId, read: bool, now: i64, writes: Option<Persistence>)
    requires
        persisted_as(ZenPawsEvent::MessageAckReceived { message_id, peer_id, read }, now, writes),
    ensures
        writes matches Some(Persistence::Acknowledge { kind, .. })
            && (kind == MessageAckKind::Read <==> read)
            && (kind == MessageAckKind::Delivered <==> !read),
{
}

/// Law (replication of mutations): an edit, delete or reaction made by a
/// peer reaches the other peer as the same mutation, attributed to that peer
/// and stamped with its Lamport clock, and is acknowledged as delivered, so
/// last-writer-wins compares the same clock on every replica.
pub proof fn lemma_mutation_is_applied_alike(
    peer_id: PeerId,
    room: String,
    body: MessageBody,
    created_at: i64,
    id: u128,
    envelope: Envelope,
    remote: HandshakeIdentityView,
    action: InboundAction,
    now: i64,
    writes: Option<Persistence>,
)
    requires
        carries_mutation(envelope, peer_id, room, body, created_at, id),
        inbound_as(envelope, remote, action),
        action.event matches Some(event) && persisted_as(event, now, writes),
    ensures
        action.reply == Some(Envelope::Ack { message_id: id, kind: AckKind::Delivered }),
        match body {
            MessageBody::Edit { message_id, body: text } => writes matches Some(Persistence::RemoteEdit { message_id: m, body: b, edited_at, clock })
                && m == message_id && b@ == text@ && edited_at == created_at
                && clock == (LamportCursor { counter: created_at, peer_id }),
            MessageBody::Delete { message_id } => writes matches Some(Persistence::RemoteDelete { message_id: m, deleted_at, clock })
                && m == message_id && deleted_at == created_at
                && clock == (LamportCursor { counter: created_at, peer_id }),
            MessageBody::Reaction { message_id, emoji, removed } => if removed {
                writes matches Some(Persistence::RemoveReaction { message_id: m, peer_id: p, emoji: e })
                    && m == message_id && p == peer_id && e@ == emoji@
            } else {
                writes matches Some(Persistence::AddReaction { message_id: m, peer_id: p, emoji: e })
                    && m == message_id && p == peer_id && e@ == emoji@
            },
            MessageBody::Text(text) => writes matches Some(Persistence::Received { record, .. })
                && record.author == peer_id && record.body@ == text@ && record.id == id,
        },
{
}

/// Calls `SystemTime::now().duration_since(UNIX_EPOCH)` and returns the
/// milliseconds since the Unix epoch, or `None` for a clock set before it;
/// nothing more is known of the reading.
#[verifier::external_body]
fn unix_millis() -> (millis: Option<u128>) {
    match std::time::SystemTime::now().duration_since(std::time::UNIX_EPOCH) {
        Ok(elapsed) => Some(elapsed.as_millis()),
        Err(_) => None,
    }
}

/// A timestamp in milliseconds, saturated to `i64::MAX`, with a reading
/// from before the Unix epoch counted as zero.
pub fn millis_to_timestamp(millis: Option<u128>) -> (timestamp: i64)
    ensures
        timestamp == match millis {
            Some(m) => if m <= i64::MAX { m as int } else { i64::MAX as int },
            None => 0,
        },
{
    match millis {
        Some(m) => if m <= i64::MAX as u128 { m as i64 } else { i64::MAX },
        None => 0,
    }
}

/// The current wall-clock time in milliseconds since the Unix epoch.
pub fn now_millis() -> (timestamp: i64)
    ensures
        timestamp >= 0,
{
    millis_to_timestamp(unix_millis())
}

/// Whether a window label lies in the pet scope, that is, starts with `pet-`.
pub fn is_pet_window_label(label: &str) -> (in_scope: bool)
    ensures
        in_scope == (label@.len() >= 4 && label@.subrange(0, 4) == "pet-"@),
{
    proof {
        reveal_strlit("pet-");
    }
    if label.unicode_len() < 4 {
        return false;
    }
    let in_scope = label.get_char(0) == 'p' && label.get_char(1) == 'e' && label.get_char(2) == 't' && label.get_char(3) == '-';
    proof {
        if in_scope {
            assert(label@.subrange(0, 4) =~= "pet-"@);
        } else if label@.subrange(0, 4) == "pet-"@ {
            assert(label@.subrange(0, 4)[0] == label@[0]);
            assert(label@.subrange(0, 4)[1] == label@[1]);
            assert(label@.subrange(0, 4)[2] == label@[2]);
            assert(label@.subrange(0, 4)[3] == label@[3]);
        }
    }
    in_scope
}

/// Writes the label of a pet overlay window with `format!`: `pet-`, the
/// manifest ID, `-`, and the window's hyphenated UUID.
#[verifier::external_body]
fn format_pet_window_label(manifest_id: &str, window: u128) -> (label: String)
    ensures
        label@ == "pet-"@ + manifest_id@ + "-"@ + uuid_hyphenated(window),
{
    format!("pet-{manifest_id}-{}", uuid::Uuid::from_u128(window))
}

/// The label of a new overlay window for an installed pet, made unique by a
/// random UUID.
pub fn new_pet_window_label(manifest_id: &str) -> (label: String)
    ensures
        exists|window: u128| label@ == #[trigger] pet_label(manifest_id@, window),
{
    let window = random_uuid_value();
    let label = format_pet_window_label(manifest_id, window);
    assert(label@ == pet_label(manifest_id@, window));
    label
}

/// The label of the overlay window `window` for the pet `manifest_id`.
pub open spec fn pet_label(manifest_id: Seq<char>, window: u128) -> Seq<char> {
    "pet-"@ + manifest_id + "-"@ + uuid_hyphenated(window)
}

/// Law: every overlay window the pet commands open lies in the pet scope,
/// so the pet commands may close it again.
pub proof fn lemma_pet_windows_in_scope(manifest_id: Seq<char>, window: u128)
    ensures
        pet_label(manifest_id, window).len() >= 4,
        pet_label(manifest_id, window).subrange(0, 4) == "pet-"@,
{
    reveal_strlit("pet-");
    let label = pet_label(manifest_id, window);
    assert(label =~= "pet-"@ + (manifest_id + "-"@ + uuid_hyphenated(window)));
    assert(label.subrange(0, 4) =~= "pet-"@);
}

/// Checks that a window may be closed by the pet commands.
pub fn check_pet_window_label(label: &str) -> (result: Result<(), ChatError>)
    ensures
        (label@.len() >= 4 && label@.subrange(0, 4) == "pet-"@) ==> result is Ok,
        !(label@.len() >= 4 && label@.subrange(0, 4) == "pet-"@) ==> result == Err::<(), ChatError>(ChatError::OutsidePetScope),
{
    if is_pet_window_label(label) { Ok(()) } else { Err(ChatError::OutsidePetScope) }
}

} // verus!
