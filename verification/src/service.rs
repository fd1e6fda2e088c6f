//! Decisions of the network service: logs, discovery admission, inbound
//! dispatch, and reconnect policy. Sockets and tasks run outside this module.

use std::collections::HashSet;
use std::time::Duration;
use vstd::prelude::*;

use crate::backoff::{delay_nanos, RetryBackoff, RetryBackoffView};
use crate::discovery::{server_name, DiscoveredPeer, DiscoveryError};
use crate::ids::{uuid_hyphenated, PeerId};
use crate::protocol::{AckKind, Envelope, FrameError, LamportClock, MessageBody};
use crate::session::{HandshakeError, HandshakeIdentity, HandshakeIdentityView};
use crate::shared::ZenPawsEvent;
use crate::shared::ConnectionState;
use crate::state::{moved, ConnectionStateMachine, SessionView, StateError};
use crate::time::duration_nanos;
use crate::tls::TlsError;
use crate::trust::TrustStoreError;
use crate::udp::UdpError;

verus! {

broadcast use vstd::std_specs::hash::group_hash_axioms;

/// The most recent log lines kept for diagnostics.
pub const MAX_LOG_LINES: usize = 100;

/// Runtime discovery and connection diagnostics.
#[derive(Clone, Debug)]
pub struct NetworkDiagnostics {
    pub broadcast_address: String,
    pub connected_peers: usize,
    pub local_address: Option<String>,
    pub mdns_available: bool,
    pub recent_logs: Vec<String>,
    pub tcp_address: String,
    pub udp_address: String,
}

/// Encrypted transport failures.
#[derive(Clone, Copy, Debug, PartialEq, Eq, Structural)]
pub enum TransportError {
    Io,
}

/// Network-service lifecycle failures.
#[derive(Debug)]
pub enum ServiceError {
    Io,
    Discovery(DiscoveryError),
    Udp(UdpError),
    Tls(TlsError),
    Transport(TransportError),
    Handshake(HandshakeError),
    Frame(FrameError),
    State(StateError),
    SelfConnection,
    InvalidServerName,
    PeerRegistryPoisoned,
    PeerNotConnected,
    PeerChannelClosed,
}

/// The log after appending one line: the oldest line is dropped once more
/// than a hundred are held.
pub open spec fn log_after_push(logs: Seq<Seq<char>>, message: Seq<char>) -> Seq<Seq<char>> {
    let pushed = logs.push(message);
    if pushed.len() > MAX_LOG_LINES { pushed.drop_first() } else { pushed }
}

/// Appends a diagnostic line, keeping at most the most recent hundred.
pub fn push_log(logs: &mut Vec<String>, message: &str)
    ensures
        final(logs)@.map_values(|l: String| l@) == log_after_push(old(logs)@.map_values(|l: String| l@), message@),
{
    logs.push(message.to_string());
    if logs.len() > MAX_LOG_LINES {
        logs.remove(0);
    }
    proof {
        let pushed = old(logs)@.map_values(|l: String| l@).push(message@);
        if old(logs)@.len() + 1 > MAX_LOG_LINES {
            assert(final(logs)@.map_values(|l: String| l@) =~= pushed.drop_first());
        } else {
            assert(final(logs)@.map_values(|l: String| l@) =~= pushed);
        }
    }
}

/// Law: a log kept through `push_log` never holds more than a hundred lines,
/// and its newest line is the last one pushed.
pub proof fn lemma_log_bounded(logs: Seq<Seq<char>>, message: Seq<char>)
    requires
        logs.len() <= MAX_LOG_LINES,
    ensures
        log_after_push(logs, message).len() <= MAX_LOG_LINES,
        log_after_push(logs, message).last() == message,
{
}

/// The LAN broadcast address: the local address with its last octet set to
/// 255, or the limited broadcast address when the local address is unknown.
pub fn lan_broadcast_octets(local: Option<[u8; 4]>) -> (broadcast: [u8; 4])
    ensures
        match local {
            Some(a) => broadcast@ == seq![a[0], a[1], a[2], 255u8],
            None => broadcast@ == seq![255u8, 255u8, 255u8, 255u8],
        },
{
    match local {
        Some(a) => {
            let b = [a[0], a[1], a[2], 255u8];
            assert(b@ =~= seq![a[0], a[1], a[2], 255u8]);
            b
        },
        None => {
            let b = [255u8, 255u8, 255u8, 255u8];
            assert(b@ =~= seq![255u8, 255u8, 255u8, 255u8]);
            b
        },
    }
}

/// The sync request a peer sends on every new connection: everything in the
/// shared room after the start of time.
pub fn initial_sync_request(local: PeerId) -> (envelope: Envelope)
    ensures
        envelope matches Envelope::SyncRequest { room, since }
            && room@ == "shared"@ && since == (LamportClock { counter: 0, peer_id: local }),
{
    Envelope::SyncRequest { room: "shared".to_string(), since: LamportClock { counter: 0, peer_id: local } }
}

/// Peers to which an outbound connection is in progress.
pub struct ConnectingPeers {
    peers: HashSet<u128>,
}

/// What the discovery loops do with a discovered peer.
#[derive(Clone, Copy, Debug, PartialEq, Eq, Structural)]
pub enum DiscoveryStep {
    IgnoreSelf,
    IgnoreDuplicate,
    Connect,
}

impl View for ConnectingPeers {
    type V = Set<u128>;

    closed spec fn view(&self) -> Set<u128> {
        self.peers@
    }
}

impl ConnectingPeers {
    /// Starts with no connection attempt in progress.
    pub fn new() -> (peers: Self)
        ensures
            peers@ == Set::<u128>::empty(),
    {
        ConnectingPeers { peers: HashSet::new() }
    }

    /// Records an attempt to `peer_id`; returns whether none was in progress.
    pub fn mark_connecting(&mut self, peer_id: PeerId) -> (fresh: bool)
        ensures
            fresh == !old(self)@.contains(peer_id.spec_value()),
            final(self)@ == old(self)@.insert(peer_id.spec_value()),
    {
        self.peers.insert(peer_id.as_u128())
    }

    /// Forgets the attempt to `peer_id` once it has ended.
    pub fn clear_connecting(&mut self, peer_id: PeerId)
        ensures
            final(self)@ == old(self)@.remove(peer_id.spec_value()),
    {
        let key = peer_id.as_u128();
        self.peers.remove(&key);
    }

    /// Decides what to do with a discovered peer: ignore ourselves, ignore a
    /// peer already being connected, or record and connect to it.
    pub fn on_discovered(&mut self, local: PeerId, peer_id: PeerId) -> (step: DiscoveryStep)
        ensures
            (step, final(self)@) == discovery_step(old(self)@, local, peer_id),
    {
        if peer_id == local {
            return DiscoveryStep::IgnoreSelf;
        }
        if self.mark_connecting(peer_id) {
            DiscoveryStep::Connect
        } else {
            proof {
                assert(final(self)@ =~= old(self)@);
            }
            DiscoveryStep::IgnoreDuplicate
        }
    }
}

/// What a discovery does, given the peers with an attempt in progress: our
/// own advertisement and a peer already being connected are ignored, and
/// any other peer is recorded and connected to.
pub open spec fn discovery_step(connecting: Set<u128>, local: PeerId, peer: PeerId) -> (DiscoveryStep, Set<u128>) {
    if peer == local {
        (DiscoveryStep::IgnoreSelf, connecting)
    } else if connecting.contains(peer.spec_value()) {
        (DiscoveryStep::IgnoreDuplicate, connecting)
    } else {
        (DiscoveryStep::Connect, connecting.insert(peer.spec_value()))
    }
}

/// Law: discovery never starts a connection to ourselves, and once it starts
/// one to a peer, every later discovery of that peer is ignored until the
/// attempt is cleared; clearing it lets the next discovery connect again.
pub proof fn lemma_one_attempt_per_peer(connecting: Set<u128>, local: PeerId, peer: PeerId, other: PeerId)
    ensures
        discovery_step(connecting, local, local).0 == DiscoveryStep::IgnoreSelf,
        discovery_step(connecting, local, peer).0 == DiscoveryStep::Connect ==> {
            let after = discovery_step(connecting, local, peer).1;
            &&& discovery_step(after, local, peer).0 == DiscoveryStep::IgnoreDuplicate
            &&& (other != peer ==> discovery_step(after, local, other).0 == discovery_step(connecting, local, other).0)
            &&& discovery_step(after.remove(peer.spec_value()), local, peer).0 == DiscoveryStep::Connect
        },
{
    if discovery_step(connecting, local, peer).0 == DiscoveryStep::Connect && other != peer {
        if other.spec_value() == peer.spec_value() {
            PeerId::lemma_value_determines(other, peer);
        }
    }
}

/// The TLS server name to dial for a discovered peer, refusing our own identity.
pub fn outbound_server_name(local: PeerId, peer: &DiscoveredPeer) -> (name: Result<String, ServiceError>)
    ensures
        peer.peer_id == local ==> name matches Err(ServiceError::SelfConnection),
        peer.peer_id != local ==> (name matches Ok(n)
            && n@ == "zenpaws-"@ + uuid_hyphenated(peer.peer_id.spec_value()) + ".local"@),
{
    if peer.peer_id == local {
        return Err(ServiceError::SelfConnection);
    }
    Ok(server_name(peer.peer_id))
}

/// Whether a failed connection attempt was refused for a changed certificate pin.
pub fn is_pin_mismatch(error: &ServiceError) -> (mismatch: bool)
    ensures
        mismatch == (error matches ServiceError::Tls(TlsError::Trust(TrustStoreError::PinMismatch))),
{
    match error {
        ServiceError::Tls(TlsError::Trust(TrustStoreError::PinMismatch)) => true,
        _ => false,
    }
}

/// What the reconnect loop does after a failed attempt.
#[derive(Debug)]
pub enum RetryStep {
    /// Stop trying and publish this trust violation.
    GiveUp(ZenPawsEvent),
    /// Try again after this delay.
    RetryAfter(Duration),
}

/// Decides the reconnect loop's next step after a failed attempt: a changed
/// pin ends the attempts with a trust violation, any other failure waits for
/// the next backoff delay.
pub fn after_failed_attempt(error: &ServiceError, peer_id: PeerId, retry: &mut RetryBackoff) -> (step: RetryStep)
    ensures
        (error matches ServiceError::Tls(TlsError::Trust(TrustStoreError::PinMismatch))) ==> {
            &&& step matches RetryStep::GiveUp(ZenPawsEvent::PeerTrustViolation { peer_id: p }) && p == peer_id
            &&& final(retry)@ == old(retry)@
        },
        !(error matches ServiceError::Tls(TlsError::Trust(TrustStoreError::PinMismatch))) ==> {
            &&& step matches RetryStep::RetryAfter(d)
                && duration_nanos(d) == delay_nanos(old(retry)@.initial, old(retry)@.maximum, old(retry)@.attempts)
            &&& final(retry)@ == (RetryBackoffView {
                attempts: if old(retry)@.attempts < u32::MAX { old(retry)@.attempts + 1 } else { old(retry)@.attempts },
                ..old(retry)@
            })
        },
{
    if is_pin_mismatch(error) {
        RetryStep::GiveUp(ZenPawsEvent::PeerTrustViolation { peer_id })
    } else {
        RetryStep::RetryAfter(retry.next_delay())
    }
}

/// What a connection task does with one received envelope.
#[derive(Debug)]
pub struct InboundAction {
    /// The event to publish on the bus, if any.
    pub event: Option<ZenPawsEvent>,
    /// The envelope to write back to the peer, if any.
    pub reply: Option<Envelope>,
}

/// What a connection does with one received envelope, seen from the peer
/// `remote` that sent it: the event it publishes and the reply it writes.
pub open spec fn inbound_as(envelope: Envelope, remote: HandshakeIdentityView, action: InboundAction) -> bool {
    match envelope {
        Envelope::Message(p) => {
            &&& action.reply matches Some(Envelope::Ack { message_id, kind }) && message_id == p.id && kind == AckKind::Delivered
            &&& match p.body {
                MessageBody::Text(body) => action.event matches Some(ZenPawsEvent::MessageReceived {
                    message_id, room, author, author_name, body: b, created_at, lamport_counter, reply_to,
                }) && message_id == p.id && room@ == p.room@ && author == p.author
                    && author_name@ == remote.username && b@ == body@ && created_at == p.created_at
                    && lamport_counter == p.clock.counter && reply_to == p.reply_to,
                MessageBody::Edit { message_id: target, body } => action.event matches Some(ZenPawsEvent::MessageEdited {
                    message_id, body: b, edited_at, lamport_counter, lamport_peer,
                }) && message_id == target && b@ == body@ && edited_at == p.created_at
                    && lamport_counter == p.clock.counter && lamport_peer == p.clock.peer_id,
                MessageBody::Delete { message_id: target } => action.event matches Some(ZenPawsEvent::MessageDeleted {
                    message_id, deleted_at, lamport_counter, lamport_peer,
                }) && message_id == target && deleted_at == p.created_at
                    && lamport_counter == p.clock.counter && lamport_peer == p.clock.peer_id,
                MessageBody::Reaction { message_id: target, emoji, removed } => action.event matches Some(ZenPawsEvent::MessageReactionChanged {
                    message_id, peer_id, emoji: e, removed: r,
                }) && message_id == target && peer_id == p.author && e@ == emoji@ && r == removed,
            }
        },
        Envelope::Ack { message_id: target, kind } => {
            &&& action.reply is None
            &&& action.event matches Some(ZenPawsEvent::MessageAckReceived { message_id, peer_id, read })
                && message_id == target && peer_id == remote.peer_id && read == (kind == AckKind::Read)
        },
        Envelope::SyncRequest { room: r, since } => {
            &&& action.reply is None
            &&& action.event matches Some(ZenPawsEvent::SyncRequested { peer_id, room, since_counter, since_peer })
                && peer_id == remote.peer_id && room@ == r@ && since_counter == since.counter && since_peer == since.peer_id
        },
        _ => action.event is None && action.reply is None,
    }
}

/// Maps a received envelope to the event it publishes and the acknowledgement
/// it earns: chat messages and mutations become message events and are
/// acknowledged as delivered; acknowledgements and sync requests become
/// events about the remote peer; handshakes and heartbeats publish nothing.
pub fn inbound_action(envelope: Envelope, remote: &HandshakeIdentity) -> (action: InboundAction)
    ensures
        inbound_as(envelope, remote@, action),
{
    match envelope {
        Envelope::Message(payload) => {
            let ack = Envelope::Ack { message_id: payload.id, kind: AckKind::Delivered };
            let event = match payload.body {
                MessageBody::Text(body) => ZenPawsEvent::MessageReceived {
                    message_id: payload.id,
                    room: payload.room,
                    author: payload.author,
                    author_name: remote.username().to_string(),
                    body,
                    created_at: payload.created_at,
                    lamport_counter: payload.clock.counter,
                    reply_to: payload.reply_to,
                },
                MessageBody::Edit { message_id, body } => ZenPawsEvent::MessageEdited {
                    message_id,
                    body,
                    edited_at: payload.created_at,
                    lamport_counter: payload.clock.counter,
                    lamport_peer: payload.clock.peer_id,
                },
                MessageBody::Delete { message_id } => ZenPawsEvent::MessageDeleted {
                    message_id,
                    deleted_at: payload.created_at,
                    lamport_counter: payload.clock.counter,
                    lamport_peer: payload.clock.peer_id,
                },
                MessageBody::Reaction { message_id, emoji, removed } => ZenPawsEvent::MessageReactionChanged {
                    message_id,
                    peer_id: payload.author,
                    emoji,
                    removed,
                },
            };
            InboundAction { event: Some(event), reply: Some(ack) }
        },
        Envelope::Ack { message_id, kind } => InboundAction {
            event: Some(ZenPawsEvent::MessageAckReceived {
                message_id,
                peer_id: remote.peer_id(),
                read: kind == AckKind::Read,
            }),
            reply: None,
        },
        Envelope::SyncRequest { room, since } => InboundAction {
            event: Some(ZenPawsEvent::SyncRequested {
                peer_id: remote.peer_id(),
                room,
                since_counter: since.counter,
                since_peer: since.peer_id,
            }),
            reply: None,
        },
        _ => InboundAction { event: None, reply: None },
    }
}

/// What a peer connection does with one received envelope: a heartbeat
/// refreshes the session's deadline, restoring a degraded peer, and is
/// refused on a disconnected session; any other envelope leaves the session
/// as it is and is mapped to the event it publishes and the reply it earns.
pub fn receive_envelope(
    session: &mut ConnectionStateMachine,
    heartbeat_timeout: Duration,
    envelope: Envelope,
    remote: &HandshakeIdentity,
) -> (result: Result<InboundAction, StateError>)
    requires
        old(session).wf(),
    ensures
        final(session).wf(),
        envelope is Heartbeat && old(session)@.state == ConnectionState::Disconnected ==> {
            &&& result == Err::<InboundAction, StateError>(StateError::HeartbeatWhileDisconnected)
            &&& final(session)@ == old(session)@
        },
        envelope is Heartbeat && old(session)@.state != ConnectionState::Disconnected ==> {
            &&& result matches Ok(action) && action.event is None && action.reply is None
            &&& final(session)@ == (SessionView {
                deadline: final(session)@.deadline,
                ..if old(session)@.state == ConnectionState::Degraded {
                    moved(old(session)@, ConnectionState::Connected)
                } else {
                    old(session)@
                }
            })
        },
        !(envelope is Heartbeat) ==> {
            &&& result matches Ok(action) && inbound_as(envelope, remote@, action)
            &&& final(session)@ == old(session)@
        },
{
    if let Envelope::Heartbeat = envelope {
        match session.heartbeat(heartbeat_timeout) {
            Ok(()) => Ok(InboundAction { event: None, reply: None }),
            Err(error) => Err(error),
        }
    } else {
        Ok(inbound_action(envelope, remote))
    }
}

} // verus!
