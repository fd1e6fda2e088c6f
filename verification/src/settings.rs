//! The persistent local identity required before the network service starts.

use vstd::prelude::*;

use crate::discovery::server_name;
use crate::ids::PeerId;
use crate::ids::uuid_hyphenated;
use crate::tls::{certified_for, client_config_accepts, server_config_accepts, TlsError, TlsIdentity};
use crate::text::{is_valid_username, valid_username};

verus! {

/// Settings failures.
#[derive(Clone, Copy, Debug, PartialEq, Eq, Structural)]
pub enum SettingsError {
    Io,
    Json,
    InvalidUsername,
}

/// The abstract content of a local identity.
pub ghost struct LocalIdentityView {
    pub certificate_der: Seq<u8>,
    pub peer_id: PeerId,
    pub private_key_der: Seq<u8>,
    pub username: Seq<char>,
}

/// Persistent local identity required before the network service starts.
#[derive(Clone, Debug, PartialEq, Eq)]
pub struct LocalIdentity {
    certificate_der: Vec<u8>,
    peer_id: PeerId,
    private_key_der: Vec<u8>,
    username: String,
}

impl View for LocalIdentity {
    type V = LocalIdentityView;

    closed spec fn view(&self) -> LocalIdentityView {
        LocalIdentityView {
            certificate_der: self.certificate_der@,
            peer_id: self.peer_id,
            private_key_der: self.private_key_der@,
            username: self.username@,
        }
    }
}

impl LocalIdentity {
    /// Creates a persistable identity after validating the local display name.
    pub fn new(peer_id: PeerId, username: String, certificate_der: Vec<u8>, private_key_der: Vec<u8>) -> (identity: Result<Self, SettingsError>)
        ensures
            valid_username(username@) ==> (identity matches Ok(id) && id@ == (LocalIdentityView {
                certificate_der: certificate_der@,
                peer_id,
                private_key_der: private_key_der@,
                username: username@,
            })),
            !valid_username(username@) ==> identity == Err::<Self, SettingsError>(SettingsError::InvalidUsername),
    {
        if !is_valid_username(username.as_str()) {
            return Err(SettingsError::InvalidUsername);
        }
        Ok(LocalIdentity { certificate_der, peer_id, private_key_der, username })
    }

    /// Returns the local peer identity.
    pub fn peer_id(&self) -> (id: PeerId)
        ensures
            id == self@.peer_id,
    {
        self.peer_id
    }

    /// Returns the local display name.
    pub fn username(&self) -> (name: &str)
        ensures
            name@ == self@.username,
    {
        self.username.as_str()
    }

    /// Returns the self-signed certificate DER.
    pub fn certificate_der(&self) -> (der: &[u8])
        ensures
            der@ == self@.certificate_der,
    {
        self.certificate_der.as_slice()
    }

    /// Returns the PKCS#8 private key DER.
    pub fn private_key_der(&self) -> (der: &[u8])
        ensures
            der@ == self@.private_key_der,
    {
        self.private_key_der.as_slice()
    }
}

/// Failures while setting up a new local identity.
#[derive(Debug)]
pub enum IdentitySetupError {
    Tls(TlsError),
    Settings(SettingsError),
}

/// Generates the self-signed certificate of a new peer, issued for its
/// server name, and binds it to the display name. Certificate generation
/// comes first, so a failure there is reported before the name is checked.
pub fn create_local_identity(peer_id: PeerId, username: String) -> (created: Result<(LocalIdentity, TlsIdentity), IdentitySetupError>)
    ensures
        created matches Ok((identity, tls)) ==> {
            &&& valid_username(username@)
            &&& certified_for(tls.spec_certificate(), "zenpaws-"@ + uuid_hyphenated(peer_id.spec_value()) + ".local"@)
            &&& server_config_accepts(tls.spec_certificate(), tls.spec_private_key())
            &&& client_config_accepts(tls.spec_certificate())
            &&& identity@ == (LocalIdentityView {
                certificate_der: tls.spec_certificate(),
                peer_id,
                private_key_der: tls.spec_private_key(),
                username: username@,
            })
        },
        created matches Err(IdentitySetupError::Tls(e)) ==> e is CertificateGeneration,
        created matches Err(IdentitySetupError::Settings(e)) ==> e == SettingsError::InvalidUsername && !valid_username(username@),
        !valid_username(username@) ==> created is Err,
{
    let tls = match TlsIdentity::generate(server_name(peer_id)) {
        Ok(tls) => tls,
        Err(error) => return Err(IdentitySetupError::Tls(error)),
    };
    match LocalIdentity::new(peer_id, username, tls.certificate(), tls.private_key_der()) {
        Ok(identity) => Ok((identity, tls)),
        Err(error) => Err(IdentitySetupError::Settings(error)),
    }
}

/// Restores the TLS identity stored in a persisted local identity.
pub fn tls_identity_of(identity: &LocalIdentity) -> (tls: TlsIdentity)
    ensures
        tls.spec_certificate() == identity@.certificate_der,
        tls.spec_private_key() == identity@.private_key_der,
{
    let certificate = identity.certificate_der.clone();
    let key = identity.private_key_der.clone();
    assert(certificate@ =~= identity.certificate_der@);
    assert(key@ =~= identity.private_key_der@);
    TlsIdentity::from_der(certificate, key)
}

} // verus!
