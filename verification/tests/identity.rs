use zenpaws::ids::PeerId;
use zenpaws::settings::{LocalIdentity, SettingsError};
use zenpaws::settings::{create_local_identity, tls_identity_of, IdentitySetupError};
use zenpaws::tls::pin_from_certificate;
use zenpaws::trust::{CertificatePin, TrustStoreError, TrustTable, TrustedPeer};

#[test]
fn peer_ids_convert_through_uuids() {
    let uuid = uuid::Uuid::from_u128(0xfeed);
    let peer = PeerId::from_uuid(uuid);
    assert_eq!(peer.as_uuid(), uuid);
    assert_eq!(peer.as_u128(), 0xfeed);
    assert_eq!(PeerId::from_u128(0xfeed), peer);
    assert_ne!(PeerId::new(), PeerId::new());
}

#[test]
fn local_identity_requires_a_valid_name() {
    let peer = PeerId::from_u128(4);
    let identity = LocalIdentity::new(peer, "Mochi".to_string(), vec![1], vec![2, 3]).expect("valid");
    assert_eq!(identity.peer_id(), peer);
    assert_eq!(identity.username(), "Mochi");
    assert_eq!(identity.certificate_der(), &[1]);
    assert_eq!(identity.private_key_der(), &[2, 3]);
    assert_eq!(
        LocalIdentity::new(peer, "bad\nname".to_string(), vec![], vec![]),
        Err(SettingsError::InvalidUsername)
    );
}

#[test]
fn creates_and_restores_the_local_identity() {
    let peer = PeerId::from_u128(77);
    let (identity, tls) = create_local_identity(peer, "owner".to_string()).expect("identity");
    assert_eq!(identity.peer_id(), peer);
    assert_eq!(identity.username(), "owner");
    assert_eq!(identity.certificate_der(), tls.certificate().as_slice());
    assert_eq!(identity.private_key_der(), tls.private_key_der().as_slice());
    let restored = tls_identity_of(&identity);
    assert_eq!(restored.certificate(), tls.certificate());
    assert_eq!(restored.pin(), tls.pin());
    assert!(restored.server_config().is_ok());
    assert!(matches!(
        create_local_identity(peer, String::new()),
        Err(IdentitySetupError::Settings(SettingsError::InvalidUsername))
    ));
}

#[test]
fn trust_table_keeps_the_first_pin() {
    let alice = PeerId::from_u128(1);
    let bob = PeerId::from_u128(2);
    let mut table = TrustTable::new();
    assert!(table.trusted_peer(alice).is_none());
    let first = TrustedPeer::new(alice, b"a1".to_vec(), pin_from_certificate(b"a1"));
    assert_eq!(table.record_first_use(first.clone()), Ok(true));
    let snapshot = table.clone();
    assert_eq!(table.record_first_use(first.clone()), Ok(false));
    let changed = TrustedPeer::new(alice, b"a2".to_vec(), pin_from_certificate(b"a2"));
    assert_eq!(table.record_first_use(changed), Err(TrustStoreError::PinMismatch));
    assert_eq!(table.trusted_peer(alice), Some(first.clone()));
    let other = TrustedPeer::new(bob, b"b".to_vec(), pin_from_certificate(b"b"));
    assert!(table.load_entry(bob, other.clone()));
    assert!(!table.load_entry(bob, first.clone()));
    assert_eq!(table.trusted_peer(bob), Some(other));
    assert_eq!(table.entries().len(), 2);
    assert_eq!(snapshot.entries(), vec![(alice, first)]);
}

#[test]
fn rejects_a_changed_certificate_pin() {
    let peer = PeerId::new();
    let mut store = TrustTable::new();
    let first = TrustedPeer::new(peer, vec![1], CertificatePin::new([1; 32]));
    let changed = TrustedPeer::new(peer, vec![2], CertificatePin::new([2; 32]));
    store.record_first_use(first).expect("first contact is trusted");
    assert!(store.record_first_use(changed).is_err());
}
