//! Self-signed TLS identities, certificate pins, and trust-on-first-use.

use rustls::pki_types::{CertificateDer, PrivateKeyDer, PrivatePkcs8KeyDer};
use rustls::{ClientConfig, RootCertStore, ServerConfig};
use sha2::{Digest, Sha256};
use std::sync::Arc;
use vstd::prelude::*;

use crate::bytes::bytes_to_vec;
use crate::ids::PeerId;
use crate::trust::{CertificatePin, PeerTrustStore, TrustStoreError, TrustedPeer, TrustedPeerView};

verus! {

/// An error of the `rcgen` certificate generator.
#[verifier::external_type_specification]
#[verifier::external_body]
pub struct ExRcgenError(rcgen::Error);

/// An error of the `rustls` TLS library.
#[verifier::external_type_specification]
#[verifier::external_body]
pub struct ExRustlsError(rustls::Error);

/// A `rustls` server configuration.
#[verifier::external_type_specification]
#[verifier::external_body]
pub struct ExServerConfig(ServerConfig);

/// A `rustls` client configuration.
#[verifier::external_type_specification]
#[verifier::external_body]
pub struct ExClientConfig(ClientConfig);

/// The SHA-256 digest of a byte string, as the `sha2` crate computes it.
pub uninterp spec fn sha256(data: Seq<u8>) -> Seq<u8>;

/// Calls `Sha256::digest`, whose result is the 32-byte SHA-256 digest of `data`.
#[verifier::external_body]
fn sha256_digest(data: &[u8]) -> (digest: [u8; 32])
    ensures
        digest@ == sha256(data@),
{
    Sha256::digest(data).into()
}

/// Whether a DER certificate names `subject_alt_name` among its subject
/// alternative names.
pub uninterp spec fn certified_for(certificate_der: Seq<u8>, subject_alt_name: Seq<char>) -> bool;

/// Calls `rcgen::generate_simple_self_signed` for one subject name and returns
/// the certificate DER and the PKCS#8 DER of its fresh key pair. The key pair
/// is random; what holds of every success is that the certificate is
/// self-signed by that key and issued for the name, so `rustls` accepts the
/// pair as a server's certificate and the certificate as a trust anchor.
#[verifier::external_body]
fn generate_self_signed(server_name: String) -> (generated: Result<(Vec<u8>, Vec<u8>), rcgen::Error>)
    ensures
        generated matches Ok((certificate_der, private_key_der)) ==> {
            &&& certified_for(certificate_der@, server_name@)
            &&& server_config_accepts(certificate_der@, private_key_der@)
            &&& client_config_accepts(certificate_der@)
        },
{
    match rcgen::generate_simple_self_signed(vec![server_name]) {
        Ok(certified) => Ok((certified.cert.der().to_vec(), certified.signing_key.serialize_der())),
        Err(error) => Err(error),
    }
}

/// Whether `rustls` accepts a certificate and PKCS#8 key as a server's
/// single certificate: the key parses and belongs to the certificate.
pub uninterp spec fn server_config_accepts(certificate_der: Seq<u8>, private_key_der: Seq<u8>) -> bool;

/// Whether `rustls` accepts a certificate as the single trust anchor of a
/// client: it parses as an X.509 certificate usable as an anchor.
pub uninterp spec fn client_config_accepts(peer_certificate: Seq<u8>) -> bool;

/// Builds a `rustls` server configuration without client authentication
/// that presents one certificate with its PKCS#8 key
/// (`ServerConfig::builder().with_no_client_auth().with_single_cert(..)`);
/// the crate's only enabled crypto provider, `ring`, is the one used. Whether
/// it succeeds depends on the two DER encodings alone; the configuration
/// itself is opaque here.
#[verifier::external_body]
fn build_server_config(certificate_der: Vec<u8>, private_key_der: Vec<u8>) -> (config: Result<Arc<ServerConfig>, rustls::Error>)
    ensures
        config is Ok <==> server_config_accepts(certificate_der@, private_key_der@),
{
    match ServerConfig::builder().with_no_client_auth().with_single_cert(
        vec![CertificateDer::from(certificate_der)],
        PrivateKeyDer::Pkcs8(PrivatePkcs8KeyDer::from(private_key_der)),
    ) {
        Ok(config) => Ok(Arc::new(config)),
        Err(error) => Err(error),
    }
}

/// Builds a `rustls` client configuration whose only trust anchor is the
/// given certificate (`RootCertStore::add`, then
/// `ClientConfig::builder().with_root_certificates(..).with_no_client_auth()`).
/// Whether it succeeds depends on the certificate's DER encoding alone; the
/// configuration itself is opaque here.
#[verifier::external_body]
fn build_client_config(peer_certificate: Vec<u8>) -> (config: Result<Arc<ClientConfig>, rustls::Error>)
    ensures
        config is Ok <==> client_config_accepts(peer_certificate@),
{
    let mut roots = RootCertStore::empty();
    roots.add(CertificateDer::from(peer_certificate))?;
    Ok(Arc::new(ClientConfig::builder().with_root_certificates(roots).with_no_client_auth()))
}

/// The pin of a certificate: the SHA-256 digest of its DER encoding.
pub open spec fn certificate_pin(certificate_der: Seq<u8>) -> Seq<u8> {
    sha256(certificate_der)
}

/// Computes the pin of a certificate.
pub fn pin_from_certificate(certificate_der: &[u8]) -> (pin: CertificatePin)
    ensures
        pin.spec_bytes() == certificate_pin(certificate_der@),
{
    CertificatePin::new(sha256_digest(certificate_der))
}

/// Certificate generation and TLS configuration failures.
#[derive(Debug)]
pub enum TlsError {
    CertificateGeneration(rcgen::Error),
    Rustls(rustls::Error),
    Trust(TrustStoreError),
}

/// What TOFU makes of a presented certificate, given the record already
/// trusted for the peer.
#[derive(Debug)]
pub enum TofuDecision {
    /// The peer is known and the presented certificate has its stored pin:
    /// connect with the stored certificate.
    Pinned { certificate_der: Vec<u8> },
    /// The peer is unknown: record this certificate and connect with it.
    FirstUse { record: TrustedPeer },
    /// The peer is known under a different pin: refuse.
    Mismatch,
}

/// Decides a presented certificate against the record trusted for the peer.
pub fn tofu_decision(existing: Option<TrustedPeer>, peer_id: PeerId, presented_certificate: Vec<u8>) -> (decision: TofuDecision)
    ensures
        match existing {
            Some(stored) => if stored@.pin.spec_bytes() == certificate_pin(presented_certificate@) {
                decision matches TofuDecision::Pinned { certificate_der } && certificate_der@ == stored@.certificate_der
            } else {
                decision is Mismatch
            },
            None => decision matches TofuDecision::FirstUse { record } && record@ == (TrustedPeerView {
                certificate_der: presented_certificate@,
                peer_id,
                pin: record@.pin,
            }) && record@.pin.spec_bytes() == certificate_pin(presented_certificate@),
        },
{
    let pin = pin_from_certificate(presented_certificate.as_slice());
    match existing {
        Some(stored) => {
            let stored_pin = stored.pin();
            if stored_pin.same_as(&pin) {
                TofuDecision::Pinned { certificate_der: bytes_to_vec(stored.certificate_der()) }
            } else {
                proof {
                    if stored_pin.spec_bytes() == pin.spec_bytes() {
                        CertificatePin::lemma_bytes_determine(stored_pin, pin);
                    }
                }
                TofuDecision::Mismatch
            }
        },
        None => TofuDecision::FirstUse { record: TrustedPeer::new(peer_id, presented_certificate, pin) },
    }
}

/// Finishes trust on first use once the decision is made and, on first use,
/// the store has answered the request to record the certificate: a pinned
/// peer is dialled with its stored certificate, a first-use peer with the
/// recorded certificate once it is stored, and a changed pin is refused.
pub fn config_after_decision(decision: TofuDecision, recorded: Result<(), TrustStoreError>) -> (config: Result<Arc<ClientConfig>, TlsError>)
    ensures
        match decision {
            TofuDecision::Pinned { certificate_der } => {
                &&& (config is Ok <==> client_config_accepts(certificate_der@))
                &&& (config matches Err(e) ==> e is Rustls)
            },
            TofuDecision::FirstUse { record } => match recorded {
                Err(e) => config matches Err(TlsError::Trust(f)) && f == e,
                Ok(()) => {
                    &&& (config is Ok <==> client_config_accepts(record@.certificate_der))
                    &&& (config matches Err(e) ==> e is Rustls)
                },
            },
            TofuDecision::Mismatch => config matches Err(TlsError::Trust(TrustStoreError::PinMismatch)),
        },
{
    match decision {
        TofuDecision::Pinned { certificate_der } => TlsIdentity::client_config_for_peer(certificate_der),
        TofuDecision::FirstUse { record } => match recorded {
            Err(error) => Err(TlsError::Trust(error)),
            Ok(()) => TlsIdentity::client_config_for_peer(bytes_to_vec(record.certificate_der())),
        },
        TofuDecision::Mismatch => Err(TlsError::Trust(TrustStoreError::PinMismatch)),
    }
}

/// A local self-signed certificate and its private key.
pub struct TlsIdentity {
    certificate_der: Vec<u8>,
    private_key_der: Vec<u8>,
}

impl TlsIdentity {
    /// The certificate DER.
    pub closed spec fn spec_certificate(&self) -> Seq<u8> {
        self.certificate_der@
    }

    /// The PKCS#8 private key DER.
    pub closed spec fn spec_private_key(&self) -> Seq<u8> {
        self.private_key_der@
    }

    /// Generates a self-signed certificate for the supplied stable peer name:
    /// an identity issued for that name, from which both the server and the
    /// client configuration can be built.
    pub fn generate(server_name: String) -> (identity: Result<Self, TlsError>)
        ensures
            identity matches Err(e) ==> e is CertificateGeneration,
            identity matches Ok(id) ==> {
                &&& certified_for(id.spec_certificate(), server_name@)
                &&& server_config_accepts(id.spec_certificate(), id.spec_private_key())
                &&& client_config_accepts(id.spec_certificate())
            },
    {
        match generate_self_signed(server_name) {
            Ok((certificate_der, private_key_der)) => Ok(TlsIdentity { certificate_der, private_key_der }),
            Err(error) => Err(TlsError::CertificateGeneration(error)),
        }
    }

    /// Returns this identity's certificate pin for TOFU persistence.
    pub fn pin(&self) -> (pin: CertificatePin)
        ensures
            pin.spec_bytes() == certificate_pin(self.spec_certificate()),
    {
        pin_from_certificate(self.certificate_der.as_slice())
    }

    /// Applies TOFU pinning and builds a client configuration for a peer.
    ///
    /// On first contact the certificate is recorded. On reconnect the
    /// presented certificate must produce the same stored SHA-256 pin. What
    /// the store answers decides the outcome; `tofu_decision` and
    /// `config_after_decision` state it for every answer.
    pub fn trust_peer_certificate<S: PeerTrustStore + ?Sized>(
        trust_store: &S,
        peer_id: PeerId,
        presented_certificate: Vec<u8>,
    ) -> (config: Result<Arc<ClientConfig>, TlsError>)
        ensures
            config matches Err(e) ==> (e is Trust || e is Rustls),
    {
        let existing = match trust_store.trusted_peer(peer_id) {
            Ok(existing) => existing,
            Err(error) => return Err(TlsError::Trust(error)),
        };
        let decision = tofu_decision(existing, peer_id, presented_certificate);
        let recorded = match &decision {
            TofuDecision::FirstUse { record } => trust_store.trust_first_use(record.clone()),
            _ => Ok(()),
        };
        config_after_decision(decision, recorded)
    }

    /// Builds a TLS server configuration for incoming peer connections.
    pub fn server_config(&self) -> (config: Result<Arc<ServerConfig>, TlsError>)
        ensures
            config is Ok <==> server_config_accepts(self.spec_certificate(), self.spec_private_key()),
            config matches Err(e) ==> e is Rustls,
    {
        match build_server_config(self.certificate_der.clone(), self.private_key_der.clone()) {
            Ok(config) => Ok(config),
            Err(error) => Err(TlsError::Rustls(error)),
        }
    }

    /// Restores a persisted self-signed certificate and PKCS#8 private key.
    pub fn from_der(certificate_der: Vec<u8>, private_key_der: Vec<u8>) -> (identity: Self)
        ensures
            identity.spec_certificate() == certificate_der@,
            identity.spec_private_key() == private_key_der@,
    {
        TlsIdentity { certificate_der, private_key_der }
    }

    /// Returns a copy of this peer's public certificate DER.
    pub fn certificate(&self) -> (certificate_der: Vec<u8>)
        ensures
            certificate_der@ == self.spec_certificate(),
    {
        let copy = self.certificate_der.clone();
        assert(copy@ =~= self.certificate_der@);
        copy
    }

    /// Returns a copy of the PKCS#8 private key for local persistence.
    pub fn private_key_der(&self) -> (private_key_der: Vec<u8>)
        ensures
            private_key_der@ == self.spec_private_key(),
    {
        let copy = self.private_key_der.clone();
        assert(copy@ =~= self.private_key_der@);
        copy
    }

    /// Builds a client configuration that trusts exactly one peer certificate.
    pub fn client_config_for_peer(peer_certificate: Vec<u8>) -> (config: Result<Arc<ClientConfig>, TlsError>)
        ensures
            config is Ok <==> client_config_accepts(peer_certificate@),
            config matches Err(e) ==> e is Rustls,
    {
        match build_client_config(peer_certificate) {
            Ok(config) => Ok(config),
            Err(error) => Err(TlsError::Rustls(error)),
        }
    }
}

} // verus!
