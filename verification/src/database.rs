//! Records and decisions of the local message store; SQL runs outside this module.

use vstd::prelude::*;

use crate::bytes::bytes_to_vec;
use crate::ids::{parse_uuid, uuid_parse, PeerId};
use crate::protocol::{clock_newer, LamportClock};
use crate::trust::{CertificatePin, TrustStoreError, TrustedPeer, TrustedPeerView};

verus! {

/// Database failures exposed by typed database functions.
#[derive(Clone, Copy, Debug, PartialEq, Eq, Structural)]
pub enum DatabaseError {
    Io,
    Sqlite,
}

/// Receipt kinds allowed by the hostless chat protocol.
#[derive(Clone, Copy, Debug, PartialEq, Eq, Structural)]
pub enum MessageAckKind {
    Delivered,
    Read,
}

impl MessageAckKind {
    /// The text stored for this kind in the acknowledgement table.
    pub fn as_sql(self) -> (text: &'static str)
        ensures
            self == MessageAckKind::Delivered ==> text@ == "delivered"@,
            self == MessageAckKind::Read ==> text@ == "read"@,
    {
        match self {
            MessageAckKind::Delivered => "delivered",
            MessageAckKind::Read => "read",
        }
    }
}

/// Aggregate acknowledgement state for one message and recipient.
#[derive(Clone, Copy, Debug, PartialEq, Eq, Structural)]
pub struct MessageStatus {
    pub delivered: bool,
    pub read: bool,
}

/// Message acknowledgement failures.
#[derive(Clone, Copy, Debug, PartialEq, Eq, Structural)]
pub enum MessageAckError {
    SharedRoomRead,
    Sqlite,
}

/// The status the stored acknowledgement kinds of one recipient amount to;
/// kinds other than `delivered` and `read` are ignored.
pub open spec fn status_of(kinds: Seq<Seq<char>>) -> MessageStatus {
    MessageStatus { delivered: kinds.contains("delivered"@), read: kinds.contains("read"@) }
}

/// Law: a recipient's message counts as read exactly when some stored kind
/// is `read`, and as delivered exactly when some stored kind is `delivered`;
/// a delivery alone is not a read, nor a read a delivery.
pub proof fn lemma_status_kinds(kinds: Seq<Seq<char>>)
    ensures
        status_of(kinds).read <==> exists|i: int| 0 <= i < kinds.len() && kinds[i] == "read"@,
        status_of(kinds).delivered <==> exists|i: int| 0 <= i < kinds.len() && kinds[i] == "delivered"@,
        (forall|i: int| 0 <= i < kinds.len() ==> kinds[i] == "delivered"@) ==> !status_of(kinds).read,
        (forall|i: int| 0 <= i < kinds.len() ==> kinds[i] == "read"@) ==> !status_of(kinds).delivered,
{
    reveal_strlit("read");
    reveal_strlit("delivered");
    assert("delivered"@ != "read"@) by {
        assert("delivered"@.len() != "read"@.len());
    }
    if status_of(kinds).read {
        let i = choose|i: int| 0 <= i < kinds.len() && kinds[i] == "read"@;
        assert(kinds.contains("read"@));
    }
    if status_of(kinds).delivered {
        assert(kinds.contains("delivered"@));
    }
    if exists|i: int| 0 <= i < kinds.len() && kinds[i] == "read"@ {
        let i = choose|i: int| 0 <= i < kinds.len() && kinds[i] == "read"@;
        assert(kinds.contains("read"@));
    }
    if exists|i: int| 0 <= i < kinds.len() && kinds[i] == "delivered"@ {
        let i = choose|i: int| 0 <= i < kinds.len() && kinds[i] == "delivered"@;
        assert(kinds.contains("delivered"@));
    }
}

/// Folds the acknowledgement kinds stored for one message and recipient.
pub fn status_from_kinds(kinds: &Vec<String>) -> (status: MessageStatus)
    ensures
        status == status_of(kinds@.map_values(|k: String| k@)),
        status.read <==> exists|i: int| 0 <= i < kinds@.len() && kinds@[i]@ == "read"@,
        status.delivered <==> exists|i: int| 0 <= i < kinds@.len() && kinds@[i]@ == "delivered"@,
{
    let ghost spec_kinds = kinds@.map_values(|k: String| k@);
    let delivered_text = "delivered".to_string();
    let read_text = "read".to_string();
    let mut status = MessageStatus { delivered: false, read: false };
    let mut i: usize = 0;
    while i < kinds.len()
        invariant
            i <= kinds@.len(),
            spec_kinds == kinds@.map_values(|k: String| k@),
            delivered_text@ == "delivered"@,
            read_text@ == "read"@,
            status.delivered == spec_kinds.subrange(0, i as int).contains("delivered"@),
            status.read == spec_kinds.subrange(0, i as int).contains("read"@),
        decreases kinds@.len() - i,
    {
        let ghost before = spec_kinds.subrange(0, i as int);
        assert(spec_kinds.subrange(0, i + 1) =~= before.push(spec_kinds[i as int]));
        proof {
            reveal_strlit("delivered");
            reveal_strlit("read");
            assert("delivered"@ != "read"@) by {
                assert("delivered"@.len() != "read"@.len());
            }
            assert forall|x: Seq<char>| before.push(spec_kinds[i as int]).contains(x) <==> (before.contains(x) || x == spec_kinds[i as int]) by {
                if before.push(spec_kinds[i as int]).contains(x) {
                    let k = choose|k: int| 0 <= k < before.len() + 1 && before.push(spec_kinds[i as int])[k] == x;
                    if k < before.len() {
                        assert(before[k] == x);
                    }
                }
                if before.contains(x) {
                    let k = choose|k: int| 0 <= k < before.len() && before[k] == x;
                    assert(before.push(spec_kinds[i as int])[k] == x);
                }
                if x == spec_kinds[i as int] {
                    assert(before.push(spec_kinds[i as int])[before.len() as int] == x);
                }
            }
        }
        if kinds[i] == delivered_text {
            status.delivered = true;
        } else if kinds[i] == read_text {
            status.read = true;
        }
        i = i + 1;
    }
    assert(spec_kinds.subrange(0, kinds@.len() as int) =~= spec_kinds);
    proof {
        lemma_status_kinds(spec_kinds);
        if exists|i: int| 0 <= i < kinds@.len() && kinds@[i]@ == "read"@ {
            let i = choose|i: int| 0 <= i < kinds@.len() && kinds@[i]@ == "read"@;
            assert(spec_kinds[i] == "read"@);
        }
        if exists|i: int| 0 <= i < spec_kinds.len() && spec_kinds[i] == "read"@ {
            let i = choose|i: int| 0 <= i < spec_kinds.len() && spec_kinds[i] == "read"@;
            assert(kinds@[i]@ == "read"@);
        }
        if exists|i: int| 0 <= i < kinds@.len() && kinds@[i]@ == "delivered"@ {
            let i = choose|i: int| 0 <= i < kinds@.len() && kinds@[i]@ == "delivered"@;
            assert(spec_kinds[i] == "delivered"@);
        }
        if exists|i: int| 0 <= i < spec_kinds.len() && spec_kinds[i] == "delivered"@ {
            let i = choose|i: int| 0 <= i < spec_kinds.len() && spec_kinds[i] == "delivered"@;
            assert(kinds@[i]@ == "delivered"@);
        }
    }
    status
}

/// Checks that an acknowledgement may be stored for a message in `room`:
/// read receipts do not exist in the shared room.
pub fn acknowledgement_allowed(kind: MessageAckKind, room: &str) -> (allowed: Result<(), MessageAckError>)
    ensures
        kind == MessageAckKind::Read && room@ == "shared"@ ==> allowed == Err::<(), MessageAckError>(MessageAckError::SharedRoomRead),
        !(kind == MessageAckKind::Read && room@ == "shared"@) ==> allowed is Ok,
{
    if kind == MessageAckKind::Read && room.to_string() == "shared".to_string() {
        return Err(MessageAckError::SharedRoomRead);
    }
    Ok(())
}

/// The row limit of one history page: the request, kept within 1..=200.
pub fn page_limit(limit: u32) -> (rows: i64)
    ensures
        rows == if limit < 1 { 1 } else if limit > 200 { 200 } else { limit as int },
{
    if limit < 1 { 1 } else if limit > 200 { 200 } else { limit as i64 }
}

/// The row limit of one search: the request, kept within 1..=100.
pub fn search_limit(limit: u32) -> (rows: i64)
    ensures
        rows == if limit < 1 { 1 } else if limit > 100 { 100 } else { limit as int },
{
    if limit < 1 { 1 } else if limit > 100 { 100 } else { limit as i64 }
}

/// A persisted chat message independent of frontend representation.
#[derive(Clone, Debug, PartialEq, Eq)]
pub struct MessageRecord {
    pub author: PeerId,
    pub body: String,
    pub created_at: i64,
    pub id: u128,
    pub lamport_counter: i64,
    pub lamport_peer: PeerId,
    pub reply_to: Option<u128>,
    pub room: String,
}

/// Stable keyset cursor for descending message history.
#[derive(Clone, Copy, Debug, PartialEq, Eq, Structural)]
pub struct MessageCursor {
    pub created_at: i64,
    pub id: u128,
}

/// Lamport position used to request messages newer than a known event.
#[derive(Clone, Copy, Debug, PartialEq, Eq, Structural)]
pub struct LamportCursor {
    pub counter: i64,
    pub peer_id: PeerId,
}

/// The clock a cursor stands for.
pub open spec fn cursor_clock(cursor: LamportCursor) -> LamportClock {
    LamportClock { counter: cursor.counter, peer_id: cursor.peer_id }
}

/// Whether a remote edit or delete carrying `incoming` replaces the visible
/// state last written under `current`: only a strictly newer clock does.
pub fn remote_mutation_wins(current: LamportCursor, incoming: LamportCursor) -> (wins: bool)
    ensures
        wins == clock_newer(cursor_clock(incoming), cursor_clock(current)),
{
    let a = LamportClock { counter: incoming.counter, peer_id: incoming.peer_id };
    let b = LamportClock { counter: current.counter, peer_id: current.peer_id };
    a.is_newer_than(b)
}

/// One message row as the store returns it, its identifiers still as text.
pub struct MessageRow {
    pub id: String,
    pub room: String,
    pub author: String,
    pub body: String,
    pub reply_to: Option<String>,
    pub lamport_peer: String,
    pub lamport_counter: i64,
    pub created_at: i64,
}

/// A message row whose column at `column` holds no valid UUID.
#[derive(Clone, Copy, Debug, PartialEq, Eq, Structural)]
pub struct RowDecodeError {
    pub column: usize,
}

/// What a row decodes to: the record, or the first column (0 id, 2 author,
/// 4 reply target, 5 Lamport peer) whose text is no UUID.
pub open spec fn row_outcome(row: MessageRow) -> Result<(u128, u128, Option<u128>, u128), usize> {
    match uuid_parse(row.id@) {
        None => Err(0),
        Some(id) => match uuid_parse(row.author@) {
            None => Err(2),
            Some(author) => match row.reply_to {
                Some(text) if uuid_parse(text@) is None => Err(4),
                _ => match uuid_parse(row.lamport_peer@) {
                    None => Err(5),
                    Some(peer) => Ok((
                        id,
                        author,
                        match row.reply_to { Some(text) => uuid_parse(text@), None => None },
                        peer,
                    )),
                },
            },
        },
    }
}

/// Decodes one stored message row.
pub fn row_to_message(row: MessageRow) -> (record: Result<MessageRecord, RowDecodeError>)
    ensures
        match (record, row_outcome(row)) {
            (Ok(r), Ok((id, author, reply_to, peer))) => r.id == id && r.author.spec_value() == author
                && r.reply_to == reply_to && r.lamport_peer.spec_value() == peer && r.room@ == row.room@
                && r.body@ == row.body@ && r.lamport_counter == row.lamport_counter && r.created_at == row.created_at,
            (Err(e), Err(column)) => e.column == column,
            _ => false,
        },
{
    let id = match parse_uuid(row.id.as_str()) {
        Some(id) => id,
        None => return Err(RowDecodeError { column: 0 }),
    };
    let author = match parse_uuid(row.author.as_str()) {
        Some(author) => author,
        None => return Err(RowDecodeError { column: 2 }),
    };
    let reply_to = match &row.reply_to {
        Some(text) => match parse_uuid(text.as_str()) {
            Some(target) => Some(target),
            None => return Err(RowDecodeError { column: 4 }),
        },
        None => None,
    };
    let lamport_peer = match parse_uuid(row.lamport_peer.as_str()) {
        Some(peer) => peer,
        None => return Err(RowDecodeError { column: 5 }),
    };
    Ok(MessageRecord {
        author: PeerId::from_u128(author),
        body: row.body,
        created_at: row.created_at,
        id,
        lamport_counter: row.lamport_counter,
        lamport_peer: PeerId::from_u128(lamport_peer),
        reply_to,
        room: row.room,
    })
}

/// Rebuilds a trusted-peer record from its stored pin and certificate; a
/// stored pin that is not 32 bytes long is a storage failure.
pub fn trusted_peer_from_row(peer_id: PeerId, fingerprint: Vec<u8>, certificate_der: Vec<u8>) -> (peer: Result<TrustedPeer, TrustStoreError>)
    ensures
        fingerprint@.len() == 32 ==> (peer matches Ok(p) && p@.peer_id == peer_id
            && p@.certificate_der == certificate_der@ && p@.pin.spec_bytes() == fingerprint@),
        fingerprint@.len() != 32 ==> peer matches Err(TrustStoreError::Storage(_)),
{
    if fingerprint.len() != 32 {
        return Err(TrustStoreError::Storage("stored fingerprint has invalid length".to_string()));
    }
    let mut pin = [0u8; 32];
    let mut i: usize = 0;
    while i < 32
        invariant
            i <= 32,
            fingerprint@.len() == 32,
            forall|j: int| 0 <= j < i ==> pin[j] == fingerprint@[j],
        decreases 32 - i,
    {
        pin.set(i, fingerprint[i]);
        i = i + 1;
    }
    assert(pin@ =~= fingerprint@);
    Ok(TrustedPeer::new(peer_id, certificate_der, CertificatePin::new(pin)))
}

/// What toggling a reaction does, given how many matching rows the delete removed.
#[derive(Clone, Copy, Debug, PartialEq, Eq, Structural)]
pub enum ReactionToggle {
    /// The reaction existed and is now removed.
    Removed,
    /// The reaction did not exist and must be inserted.
    Insert,
}

/// Decides a reaction toggle from the number of rows its delete removed.
pub fn toggle_after_delete(deleted_rows: usize) -> (step: ReactionToggle)
    ensures
        deleted_rows > 0 ==> step == ReactionToggle::Removed,
        deleted_rows == 0 ==> step == ReactionToggle::Insert,
{
    if deleted_rows > 0 { ReactionToggle::Removed } else { ReactionToggle::Insert }
}

} // verus!
