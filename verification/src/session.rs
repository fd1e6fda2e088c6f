//! The application handshake exchanged after TLS: identity validation and checks.

use vstd::prelude::*;

use crate::ids::PeerId;
use crate::protocol::{Envelope, FrameError};
use crate::text::{is_valid_username, valid_username};

verus! {

/// Application handshake failures after TLS succeeds.
#[derive(Clone, Copy, Debug, PartialEq, Eq, Structural)]
pub enum HandshakeError {
    Frame(FrameError),
    InvalidUsername,
    ExpectedHandshake,
    UnexpectedPeer,
}

/// The abstract content of a handshake identity.
pub ghost struct HandshakeIdentityView {
    pub peer_id: PeerId,
    pub username: Seq<char>,
}

/// Local identity fields sent after the TLS handshake completes.
#[derive(Debug, PartialEq, Eq)]
pub struct HandshakeIdentity {
    peer_id: PeerId,
    username: String,
}

impl View for HandshakeIdentity {
    type V = HandshakeIdentityView;

    closed spec fn view(&self) -> HandshakeIdentityView {
        HandshakeIdentityView { peer_id: self.peer_id, username: self.username@ }
    }
}

impl Clone for HandshakeIdentity {
    fn clone(&self) -> (copy: Self)
        ensures
            copy@ == self@,
    {
        proof {
            use_type_invariant(self);
        }
        HandshakeIdentity { peer_id: self.peer_id, username: self.username.clone() }
    }
}

impl HandshakeIdentity {
    /// Every handshake identity carries a valid display name.
    #[verifier::type_invariant]
    closed spec fn inv(self) -> bool {
        valid_username(self.username@)
    }

    /// Validates fields that can safely appear in a LAN handshake.
    pub fn new(peer_id: PeerId, username: String) -> (identity: Result<Self, HandshakeError>)
        ensures
            valid_username(username@) ==> (identity matches Ok(id) && id@ == (HandshakeIdentityView {
                peer_id,
                username: username@,
            })),
            !valid_username(username@) ==> identity == Err::<Self, HandshakeError>(HandshakeError::InvalidUsername),
    {
        if !is_valid_username(username.as_str()) {
            return Err(HandshakeError::InvalidUsername);
        }
        Ok(HandshakeIdentity { peer_id, username })
    }

    /// Returns this peer's stable identity.
    pub fn peer_id(&self) -> (id: PeerId)
        ensures
            id == self@.peer_id,
    {
        self.peer_id
    }

    /// Returns the validated display name.
    pub fn username(&self) -> (name: &str)
        ensures
            name@ == self@.username,
            valid_username(name@),
    {
        proof {
            use_type_invariant(self);
        }
        self.username.as_str()
    }
}

/// The envelope that announces `identity` to the remote peer.
pub fn handshake_envelope(identity: &HandshakeIdentity) -> (envelope: Envelope)
    ensures
        envelope matches Envelope::Handshake { peer_id, username }
            && peer_id == identity@.peer_id && username@ == identity@.username,
{
    Envelope::Handshake { peer_id: identity.peer_id(), username: identity.username.clone() }
}

/// What a received envelope says about the remote identity: a handshake with
/// a valid name gives the identity, anything else is refused.
pub open spec fn handshake_outcome(envelope: Envelope) -> Result<HandshakeIdentityView, HandshakeError> {
    match envelope {
        Envelope::Handshake { peer_id, username } => if valid_username(username@) {
            Ok(HandshakeIdentityView { peer_id, username: username@ })
        } else {
            Err(HandshakeError::InvalidUsername)
        },
        _ => Err(HandshakeError::ExpectedHandshake),
    }
}

/// Law: the identity one peer announces in its handshake is exactly the
/// identity the other peer reads from it.
pub proof fn lemma_handshake_round_trip(identity: HandshakeIdentityView, envelope: Envelope)
    requires
        valid_username(identity.username),
        envelope matches Envelope::Handshake { peer_id, username }
            && peer_id == identity.peer_id && username@ == identity.username,
    ensures
        handshake_outcome(envelope) == Ok::<HandshakeIdentityView, HandshakeError>(identity),
{
}

/// Reads the remote identity out of the first envelope of a handshake.
pub fn identity_from_envelope(envelope: Envelope) -> (identity: Result<HandshakeIdentity, HandshakeError>)
    ensures
        match (identity, handshake_outcome(envelope)) {
            (Ok(id), Ok(view)) => id@ == view,
            (Err(e), Err(f)) => e == f,
            _ => false,
        },
{
    match envelope {
        Envelope::Handshake { peer_id, username } => HandshakeIdentity::new(peer_id, username),
        _ => Err(HandshakeError::ExpectedHandshake),
    }
}

/// Accepts a remote identity only when it is the peer that discovery announced.
pub fn expect_peer(identity: HandshakeIdentity, expected_peer: PeerId) -> (checked: Result<HandshakeIdentity, HandshakeError>)
    ensures
        identity@.peer_id == expected_peer ==> (checked matches Ok(id) && id@ == identity@),
        identity@.peer_id != expected_peer ==> checked == Err::<HandshakeIdentity, HandshakeError>(HandshakeError::UnexpectedPeer),
{
    if identity.peer_id() != expected_peer {
        return Err(HandshakeError::UnexpectedPeer);
    }
    Ok(identity)
}

} // verus!
