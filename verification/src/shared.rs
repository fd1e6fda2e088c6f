//! Shared types and the in-process event bus.

use std::sync::Arc;
use tokio::sync::broadcast::{Receiver, Sender};
use vstd::prelude::*;

use crate::ids::PeerId;

verus! {

/// A peer's connection lifecycle state, visible to other modules.
#[derive(Clone, Copy, Debug, PartialEq, Eq, Structural)]
pub enum ConnectionState {
    Connecting,
    Connected,
    Degraded,
    Disconnected,
}

/// Discrete network-visible pet states. Animation data remains local.
#[derive(Clone, Copy, Debug, PartialEq, Eq, Structural)]
pub enum PetSyncState {
    Away,
    Celebrate,
    Notification,
    Offline,
    Play,
    Sleep,
    Typing,
}

/// Cross-module events. Message and instance identifiers are UUID values.
#[derive(Clone, Debug, PartialEq, Eq)]
#[allow(inconsistent_fields)]
pub enum ZenPawsEvent {
    PeerStateChanged { peer_id: PeerId, state: ConnectionState },
    PeerTrustViolation { peer_id: PeerId },
    PetStateChanged { pet_instance: u128, state: PetSyncState },
    MessageReceived {
        message_id: u128,
        room: String,
        author: PeerId,
        author_name: String,
        body: String,
        created_at: i64,
        lamport_counter: i64,
        reply_to: Option<u128>,
    },
    MessageEdited {
        message_id: u128,
        body: String,
        edited_at: i64,
        lamport_counter: i64,
        lamport_peer: PeerId,
    },
    MessageDeleted { message_id: u128, deleted_at: i64, lamport_counter: i64, lamport_peer: PeerId },
    MessageReactionChanged { message_id: u128, peer_id: PeerId, emoji: String, removed: bool },
    MessageAckReceived { message_id: u128, peer_id: PeerId, read: bool },
    SyncRequested { peer_id: PeerId, room: String, since_counter: i64, since_peer: PeerId },
    TypingChanged { peer_id: PeerId, room: String, is_typing: bool },
}

/// The sending half of a `tokio` broadcast channel.
#[verifier::external_type_specification]
#[verifier::external_body]
#[verifier::reject_recursive_types(T)]
pub struct ExSender<T>(Sender<T>);

/// The receiving half of a `tokio` broadcast channel.
#[verifier::external_type_specification]
#[verifier::external_body]
#[verifier::reject_recursive_types(T)]
pub struct ExReceiver<T>(Receiver<T>);

/// Calls `tokio::sync::broadcast::channel`, which panics for a zero capacity
/// or one above `usize::MAX / 2`, and keeps the sending half.
#[verifier::external_body]
fn event_channel(capacity: usize) -> (sender: Sender<ZenPawsEvent>)
    requires
        0 < capacity <= usize::MAX / 2,
{
    tokio::sync::broadcast::channel(capacity).0
}

/// Calls `Sender::send`, which hands the event to every current subscriber;
/// whether any subscriber exists is not reported.
#[verifier::external_body]
fn event_send(sender: &Sender<ZenPawsEvent>, event: ZenPawsEvent) {
    let _ = sender.send(event);
}

/// Calls `Sender::subscribe`, which returns a receiver of the events sent after this call.
#[verifier::external_body]
fn event_subscribe(sender: &Sender<ZenPawsEvent>) -> (receiver: Receiver<ZenPawsEvent>) {
    sender.subscribe()
}

/// In-process fanout for decoupled backend modules.
#[derive(Clone, Debug)]
pub struct EventBus {
    sender: Arc<Sender<ZenPawsEvent>>,
}

impl EventBus {
    /// Creates a bus with a bounded event history for slow subscribers.
    pub fn new(capacity: usize) -> (bus: Self)
        requires
            0 < capacity <= usize::MAX / 2,
    {
        EventBus { sender: Arc::new(event_channel(capacity)) }
    }

    /// Publishes an event to all active subscribers.
    pub fn publish(&self, event: ZenPawsEvent) {
        event_send(&self.sender, event);
    }

    /// Subscribes to future events.
    pub fn subscribe(&self) -> (receiver: Receiver<ZenPawsEvent>) {
        event_subscribe(&self.sender)
    }
}

} // verus!
