//! The UDP broadcast fallback for discovery: advertisements and their checks.

use vstd::prelude::*;

use crate::discovery::{DiscoveredPeer, DiscoveredPeerView, PeerAddress};
use crate::ids::PeerId;
use crate::protocol::PROTOCOL_VERSION;
use crate::text::{is_valid_username, valid_username};

verus! {

/// Upper bound for one UDP discovery datagram.
pub const MAX_DISCOVERY_DATAGRAM_BYTES: usize = 1024;

/// Default LAN broadcast port for the mDNS fallback.
pub const UDP_DISCOVERY_PORT: u16 = 46235;

/// UDP fallback discovery failures.
#[derive(Clone, Copy, Debug, PartialEq, Eq, Structural)]
pub enum UdpError {
    InvalidUsername,
    DatagramTooLarge,
    UnsupportedVersion,
    Io,
    Serialization,
}

/// The abstract content of an advertisement.
pub ghost struct UdpAdvertisementView {
    pub certificate_der: Seq<u8>,
    pub tcp_port: u16,
    pub peer_id: PeerId,
    pub protocol_version: u8,
    pub username: Seq<char>,
}

/// Metadata announced when multicast DNS is unavailable.
#[derive(Clone, Debug, PartialEq, Eq)]
pub struct UdpAdvertisement {
    /// Public self-signed certificate DER for TOFU pinning.
    pub certificate_der: Vec<u8>,
    /// Advertised TCP listener port.
    pub tcp_port: u16,
    /// Stable peer identity.
    pub peer_id: PeerId,
    /// Wire compatibility version.
    pub protocol_version: u8,
    /// Display name for discovery UI.
    pub username: String,
}

impl View for UdpAdvertisement {
    type V = UdpAdvertisementView;

    open spec fn view(&self) -> UdpAdvertisementView {
        UdpAdvertisementView {
            certificate_der: self.certificate_der@,
            tcp_port: self.tcp_port,
            peer_id: self.peer_id,
            protocol_version: self.protocol_version,
            username: self.username@,
        }
    }
}

impl UdpAdvertisement {
    /// Creates a versioned advertisement after validating its display name.
    pub fn new(peer_id: PeerId, username: String, tcp_port: u16, certificate_der: Vec<u8>) -> (advertisement: Result<Self, UdpError>)
        ensures
            valid_username(username@) ==> (advertisement matches Ok(a) && a@ == (UdpAdvertisementView {
                certificate_der: certificate_der@,
                tcp_port,
                peer_id,
                protocol_version: PROTOCOL_VERSION,
                username: username@,
            })),
            !valid_username(username@) ==> advertisement == Err::<Self, UdpError>(UdpError::InvalidUsername),
    {
        if !is_valid_username(username.as_str()) {
            return Err(UdpError::InvalidUsername);
        }
        Ok(UdpAdvertisement { certificate_der, tcp_port, peer_id, protocol_version: PROTOCOL_VERSION, username })
    }
}

/// Checks that a serialized advertisement fits in one discovery datagram.
pub fn check_datagram_size(payload_len: usize) -> (result: Result<(), UdpError>)
    ensures
        payload_len <= MAX_DISCOVERY_DATAGRAM_BYTES ==> result is Ok,
        payload_len > MAX_DISCOVERY_DATAGRAM_BYTES ==> result == Err::<(), UdpError>(UdpError::DatagramTooLarge),
{
    if payload_len > MAX_DISCOVERY_DATAGRAM_BYTES {
        Err(UdpError::DatagramTooLarge)
    } else {
        Ok(())
    }
}

/// Accepts a received advertisement only from a peer speaking this protocol version.
pub fn accept_advertisement(advertisement: UdpAdvertisement) -> (accepted: Result<UdpAdvertisement, UdpError>)
    ensures
        advertisement.protocol_version == PROTOCOL_VERSION ==> (accepted matches Ok(a) && a@ == advertisement@),
        advertisement.protocol_version != PROTOCOL_VERSION ==> accepted == Err::<UdpAdvertisement, UdpError>(UdpError::UnsupportedVersion),
{
    if advertisement.protocol_version != PROTOCOL_VERSION {
        return Err(UdpError::UnsupportedVersion);
    }
    Ok(advertisement)
}

/// The peer an advertisement announces, reached at the sender's address and
/// the advertised TCP port.
pub fn discovered_from_advertisement(advertisement: UdpAdvertisement, source_ip: [u8; 4]) -> (peer: DiscoveredPeer)
    ensures
        peer@ == (DiscoveredPeerView {
            certificate_der: advertisement.certificate_der@,
            endpoint: PeerAddress { ip: source_ip, port: advertisement.tcp_port },
            peer_id: advertisement.peer_id.spec_value(),
            username: advertisement.username@,
        }),
{
    DiscoveredPeer {
        certificate_der: advertisement.certificate_der,
        endpoint: PeerAddress { ip: source_ip, port: advertisement.tcp_port },
        peer_id: advertisement.peer_id,
        username: advertisement.username,
    }
}

} // verus!
