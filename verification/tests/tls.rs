use std::sync::Mutex;

use zenpaws::ids::PeerId;
use zenpaws::chat::ChatError;
use zenpaws::tls::{
    config_after_decision, pin_from_certificate, tofu_decision, TlsError, TlsIdentity, TofuDecision,
};
use zenpaws::trust::{
    decide_first_use, CertificatePin, PeerTrustStore, TrustStoreError, TrustedPeer,
};

struct MemoryTrustStore(Mutex<Option<TrustedPeer>>);

impl PeerTrustStore for MemoryTrustStore {
    fn trusted_peer(&self, peer_id: PeerId) -> Result<Option<TrustedPeer>, TrustStoreError> {
        Ok(self
            .0
            .lock()
            .expect("test lock is available")
            .as_ref()
            .filter(|peer| peer.peer_id() == peer_id)
            .cloned())
    }

    fn trust_first_use(&self, peer: TrustedPeer) -> Result<(), TrustStoreError> {
        *self.0.lock().expect("test lock is available") = Some(peer);
        Ok(())
    }
}

#[test]
fn generated_identity_creates_tls_configs() {
    let identity = TlsIdentity::generate("zenpaws-test.local".to_owned())
        .expect("certificate generation succeeds");

    assert!(identity.server_config().is_ok());
    assert!(TlsIdentity::client_config_for_peer(identity.certificate()).is_ok());
}

#[test]
fn tofu_rejects_a_changed_certificate() {
    let store = MemoryTrustStore(Mutex::new(None));
    let peer_id = PeerId::new();
    let first = TlsIdentity::generate("first.local".to_owned()).expect("first identity");
    let changed = TlsIdentity::generate("changed.local".to_owned()).expect("changed identity");

    TlsIdentity::trust_peer_certificate(&store, peer_id, first.certificate())
        .expect("first certificate is trusted");
    assert!(
        TlsIdentity::trust_peer_certificate(&store, peer_id, changed.certificate()).is_err()
    );
}

#[test]
fn tofu_accepts_the_same_certificate_again() {
    let store = MemoryTrustStore(Mutex::new(None));
    let peer_id = PeerId::new();
    let identity = TlsIdentity::generate("again.local".to_owned()).expect("identity");
    TlsIdentity::trust_peer_certificate(&store, peer_id, identity.certificate()).expect("first use");
    TlsIdentity::trust_peer_certificate(&store, peer_id, identity.certificate()).expect("pinned");
    let stored = store.0.lock().unwrap().clone().expect("recorded");
    assert_eq!(stored.certificate_der(), identity.certificate().as_slice());
    assert_eq!(stored.pin(), identity.pin());
    assert!(matches!(
        TlsIdentity::trust_peer_certificate(&store, peer_id, b"other".to_vec()),
        Err(TlsError::Trust(TrustStoreError::PinMismatch))
    ));
}

#[test]
fn pins_are_the_sha256_of_the_certificate() {
    let pin = pin_from_certificate(b"abc");
    assert_eq!(
        pin.as_bytes(),
        [
            0xba, 0x78, 0x16, 0xbf, 0x8f, 0x01, 0xcf, 0xea, 0x41, 0x41, 0x40, 0xde, 0x5d, 0xae,
            0x22, 0x23, 0xb0, 0x03, 0x61, 0xa3, 0x96, 0x17, 0x7a, 0x9c, 0xb4, 0x10, 0xff, 0x61,
            0xf2, 0x00, 0x15, 0xad
        ]
    );
    assert!(pin.same_as(&CertificatePin::new(pin.as_bytes())));
    assert!(!pin.same_as(&pin_from_certificate(b"abd")));
}

#[test]
fn tofu_decision_covers_every_case() {
    let peer = PeerId::from_u128(5);
    match tofu_decision(None, peer, b"cert".to_vec()) {
        TofuDecision::FirstUse { record } => {
            assert_eq!(record.peer_id(), peer);
            assert_eq!(record.certificate_der(), b"cert");
            assert_eq!(record.pin(), pin_from_certificate(b"cert"));
        }
        other => panic!("unexpected {other:?}"),
    }
    let stored = TrustedPeer::new(peer, b"cert".to_vec(), pin_from_certificate(b"cert"));
    match tofu_decision(Some(stored.clone()), peer, b"cert".to_vec()) {
        TofuDecision::Pinned { certificate_der } => assert_eq!(certificate_der, b"cert".to_vec()),
        other => panic!("unexpected {other:?}"),
    }
    assert!(matches!(
        tofu_decision(Some(stored), peer, b"forged".to_vec()),
        TofuDecision::Mismatch
    ));
}

#[test]
fn first_use_decisions() {
    let peer = PeerId::from_u128(9);
    let record = TrustedPeer::new(peer, b"one".to_vec(), pin_from_certificate(b"one"));
    let same = TrustedPeer::new(peer, b"one".to_vec(), pin_from_certificate(b"one"));
    let other = TrustedPeer::new(peer, b"two".to_vec(), pin_from_certificate(b"two"));
    assert_eq!(decide_first_use(None, &record), Ok(true));
    assert_eq!(decide_first_use(Some(&record), &same), Ok(false));
    assert_eq!(
        decide_first_use(Some(&record), &other),
        Err(TrustStoreError::PinMismatch)
    );
}

#[test]
fn identity_material_round_trips() {
    let identity = TlsIdentity::from_der(vec![1, 2, 3], vec![4, 5]);
    assert_eq!(identity.certificate(), vec![1, 2, 3]);
    assert_eq!(identity.private_key_der(), vec![4, 5]);
    assert!(matches!(identity.server_config(), Err(TlsError::Rustls(_))));
}

#[test]
fn finishes_trust_after_the_decision() {
    let identity = TlsIdentity::generate("decided.local".to_owned()).expect("identity");
    assert!(config_after_decision(
        TofuDecision::Pinned { certificate_der: identity.certificate() },
        Ok(())
    )
    .is_ok());
    assert!(matches!(
        config_after_decision(TofuDecision::Pinned { certificate_der: b"junk".to_vec() }, Ok(())),
        Err(TlsError::Rustls(_))
    ));
    assert!(matches!(
        config_after_decision(TofuDecision::Mismatch, Ok(())),
        Err(TlsError::Trust(TrustStoreError::PinMismatch))
    ));
    let record = TrustedPeer::new(PeerId::from_u128(4), identity.certificate(), identity.pin());
    assert!(matches!(
        config_after_decision(
            TofuDecision::FirstUse { record: record.clone() },
            Err(TrustStoreError::Storage("disk full".to_string()))
        ),
        Err(TlsError::Trust(TrustStoreError::Storage(message))) if message == "disk full"
    ));
    assert!(config_after_decision(TofuDecision::FirstUse { record }, Ok(())).is_ok());
}

#[test]
fn chat_errors_have_user_messages() {
    assert_eq!(ChatError::EmptyBody.message(), "message body cannot be empty");
    assert_eq!(ChatError::InvalidEmoji.message(), "reaction emoji is invalid");
    assert_eq!(ChatError::OutsidePetScope.message(), "window label is outside the pet scope");
}
