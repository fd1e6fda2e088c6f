//! Certificate pins, trusted-peer records and trust-on-first-use decisions.

use std::collections::HashMap;
use vstd::prelude::*;
use vstd::std_specs::hash::spec_hash_map_iter;
use vstd::std_specs::iter::IteratorSpec;

use crate::ids::PeerId;

verus! {

broadcast use vstd::std_specs::hash::group_hash_axioms;

/// SHA-256 digest of a peer certificate's DER encoding.
#[derive(Clone, Copy, Debug, PartialEq, Eq)]
pub struct CertificatePin {
    bytes: [u8; 32],
}

impl CertificatePin {
    /// The 32 digest bytes.
    pub closed spec fn spec_bytes(self) -> Seq<u8> {
        self.bytes@
    }

    /// Creates a pin from a SHA-256 digest.
    pub fn new(bytes: [u8; 32]) -> (pin: Self)
        ensures
            pin.spec_bytes() == bytes@,
    {
        CertificatePin { bytes }
    }

    /// Returns the raw SHA-256 digest.
    pub fn as_bytes(self) -> (bytes: [u8; 32])
        ensures
            bytes@ == self.spec_bytes(),
    {
        self.bytes
    }

    /// Law: a pin holds exactly 32 bytes.
    pub proof fn lemma_len(self)
        ensures
            self.spec_bytes().len() == 32,
    {
    }

    /// Law: pins with the same digest bytes are the same pin.
    pub proof fn lemma_bytes_determine(a: Self, b: Self)
        requires
            a.spec_bytes() == b.spec_bytes(),
        ensures
            a == b,
    {
        assert(a.bytes =~= b.bytes);
    }

    /// Compares two pins byte by byte.
    pub fn same_as(&self, other: &Self) -> (same: bool)
        ensures
            same == (*self == *other),
    {
        let mut i: usize = 0;
        while i < 32
            invariant
                i <= 32,
                forall|j: int| 0 <= j < i ==> self.bytes[j] == other.bytes[j],
            decreases 32 - i,
        {
            if self.bytes[i] != other.bytes[i] {
                return false;
            }
            i = i + 1;
        }
        assert(self.bytes =~= other.bytes);
        true
    }
}

/// The abstract content of a trusted-peer record.
pub ghost struct TrustedPeerView {
    pub certificate_der: Seq<u8>,
    pub peer_id: PeerId,
    pub pin: CertificatePin,
}

/// A certificate trusted for a stable peer identity.
#[derive(Debug, PartialEq, Eq)]
pub struct TrustedPeer {
    certificate_der: Vec<u8>,
    peer_id: PeerId,
    pin: CertificatePin,
}

impl View for TrustedPeer {
    type V = TrustedPeerView;

    closed spec fn view(&self) -> TrustedPeerView {
        TrustedPeerView { certificate_der: self.certificate_der@, peer_id: self.peer_id, pin: self.pin }
    }
}

impl Clone for TrustedPeer {
    fn clone(&self) -> (copy: Self)
        ensures
            copy@ == self@,
    {
        let certificate_der = self.certificate_der.clone();
        assert(certificate_der@ =~= self.certificate_der@);
        TrustedPeer { certificate_der, peer_id: self.peer_id, pin: self.pin }
    }
}

impl TrustedPeer {
    /// Creates a trusted-peer record from verified certificate material.
    pub fn new(peer_id: PeerId, certificate_der: Vec<u8>, pin: CertificatePin) -> (peer: Self)
        ensures
            peer@ == (TrustedPeerView { certificate_der: certificate_der@, peer_id, pin }),
    {
        TrustedPeer { certificate_der, peer_id, pin }
    }

    /// Returns the peer identity bound to this certificate.
    pub fn peer_id(&self) -> (id: PeerId)
        ensures
            id == self@.peer_id,
    {
        self.peer_id
    }

    /// Returns the stored certificate DER.
    pub fn certificate_der(&self) -> (der: &[u8])
        ensures
            der@ == self@.certificate_der,
    {
        self.certificate_der.as_slice()
    }

    /// Returns the stored certificate pin.
    pub fn pin(&self) -> (pin: CertificatePin)
        ensures
            pin == self@.pin,
    {
        self.pin
    }
}

/// TOFU pin-storage failures.
#[derive(Debug, Clone, PartialEq, Eq)]
pub enum TrustStoreError {
    PinMismatch,
    Storage(String),
}

/// Persistent TOFU pin storage used by the networking layer.
pub trait PeerTrustStore: Send + Sync {
    /// Returns the certificate previously trusted for a peer.
    fn trusted_peer(&self, peer_id: PeerId) -> Result<Option<TrustedPeer>, TrustStoreError>;

    /// Persists a first-use decision or rejects an unexpected pin change.
    fn trust_first_use(&self, peer: TrustedPeer) -> Result<(), TrustStoreError>;
}

/// What a trust store does with a candidate record, given the record it
/// already holds for that peer: `Ok(true)` to store it, `Ok(false)` when the
/// same pin is already trusted, `Err(PinMismatch)` when the pin changed.
pub open spec fn first_use_outcome(existing: Option<TrustedPeerView>, candidate: TrustedPeerView) -> Result<bool, TrustStoreError> {
    match existing {
        Some(stored) => if stored.pin == candidate.pin {
            Ok(false)
        } else {
            Err(TrustStoreError::PinMismatch)
        },
        None => Ok(true),
    }
}

/// Decides a first-use request against the record already held for the peer.
pub fn decide_first_use(existing: Option<&TrustedPeer>, candidate: &TrustedPeer) -> (outcome: Result<bool, TrustStoreError>)
    ensures
        outcome == first_use_outcome(
            match existing { Some(p) => Some(p@), None => None },
            candidate@,
        ),
{
    match existing {
        Some(stored) => if stored.pin().same_as(&candidate.pin()) {
            Ok(false)
        } else {
            Err(TrustStoreError::PinMismatch)
        },
        None => Ok(true),
    }
}

/// The record a store keyed by peer holds for `peer`, if any.
pub open spec fn stored_for(table: Map<PeerId, TrustedPeerView>, peer: PeerId) -> Option<TrustedPeerView> {
    if table.contains_key(peer) { Some(table[peer]) } else { None }
}

/// The table after a first-use request that was accepted as new.
pub open spec fn table_after(table: Map<PeerId, TrustedPeerView>, candidate: TrustedPeerView) -> Map<PeerId, TrustedPeerView> {
    match first_use_outcome(stored_for(table, candidate.peer_id), candidate) {
        Ok(true) => table.insert(candidate.peer_id, candidate),
        _ => table,
    }
}

/// Law (trust on first use): once a peer's first certificate is recorded,
/// a later request for that peer is accepted without change when it carries
/// the recorded pin, and refused with `PinMismatch`, leaving the record in
/// place, when it carries any other pin.
pub proof fn lemma_trust_on_first_use(table: Map<PeerId, TrustedPeerView>, first: TrustedPeerView, later: TrustedPeerView)
    requires
        !table.contains_key(first.peer_id),
        later.peer_id == first.peer_id,
    ensures
        first_use_outcome(stored_for(table, first.peer_id), first) == Ok::<bool, TrustStoreError>(true),
        stored_for(table_after(table, first), first.peer_id) == Some(first),
        later.pin == first.pin ==> first_use_outcome(stored_for(table_after(table, first), later.peer_id), later)
            == Ok::<bool, TrustStoreError>(false)
            && table_after(table_after(table, first), later) == table_after(table, first),
        later.pin != first.pin ==> first_use_outcome(stored_for(table_after(table, first), later.peer_id), later)
            == Err::<bool, TrustStoreError>(TrustStoreError::PinMismatch)
            && table_after(table_after(table, first), later) == table_after(table, first),
{
}

/// The table that a sequence of entries builds, each entry recorded under
/// its key and a later entry replacing an earlier one with the same key.
pub open spec fn entries_table(entries: Seq<(PeerId, TrustedPeerView)>) -> Map<PeerId, TrustedPeerView>
    decreases entries.len(),
{
    if entries.len() == 0 {
        Map::empty()
    } else {
        entries_table(entries.drop_last()).insert(entries.last().0, entries.last().1)
    }
}

/// Whether no two entries share a key.
pub open spec fn keys_distinct(entries: Seq<(PeerId, TrustedPeerView)>) -> bool {
    forall|i: int, j: int| 0 <= i < j < entries.len() ==> #[trigger] entries[i].0 != #[trigger] entries[j].0
}

proof fn lemma_entry_found(entries: Seq<(PeerId, TrustedPeerView)>, i: int)
    requires
        keys_distinct(entries),
        0 <= i < entries.len(),
    ensures
        entries_table(entries).contains_key(entries[i].0),
        entries_table(entries)[entries[i].0] == entries[i].1,
    decreases entries.len(),
{
    if i < entries.len() - 1 {
        let rest = entries.drop_last();
        assert(rest[i] == entries[i]);
        assert(entries[i].0 != entries[entries.len() - 1].0);
        lemma_entry_found(rest, i);
    }
}

proof fn lemma_entry_absent(entries: Seq<(PeerId, TrustedPeerView)>, peer: PeerId)
    requires
        forall|i: int| 0 <= i < entries.len() ==> #[trigger] entries[i].0 != peer,
    ensures
        !entries_table(entries).contains_key(peer),
    decreases entries.len(),
{
    if entries.len() > 0 {
        let rest = entries.drop_last();
        assert forall|i: int| 0 <= i < rest.len() implies #[trigger] rest[i].0 != peer by {
            assert(rest[i] == entries[i]);
        }
        lemma_entry_absent(rest, peer);
    }
}

/// The entries of a list as keys and record contents.
pub open spec fn entry_views(entries: Seq<(PeerId, TrustedPeer)>) -> Seq<(PeerId, TrustedPeerView)> {
    entries.map_values(|e: (PeerId, TrustedPeer)| (e.0, e.1@))
}

/// Trusted peers by identity, kept in a hash map under each peer's UUID
/// value: the in-memory table behind a file-backed trust store.
pub struct TrustTable {
    peers: HashMap<u128, TrustedPeer>,
}

impl View for TrustTable {
    type V = Map<PeerId, TrustedPeerView>;

    closed spec fn view(&self) -> Map<PeerId, TrustedPeerView> {
        Map::new(
            |p: PeerId| self.peers@.contains_key(p.spec_value()),
            |p: PeerId| self.peers@[p.spec_value()]@,
        )
    }
}

impl TrustTable {
    /// Starts with no trusted peer.
    pub fn new() -> (table: Self)
        ensures
            table@ == Map::<PeerId, TrustedPeerView>::empty(),
    {
        let table = TrustTable { peers: HashMap::new() };
        assert(table@ =~= Map::<PeerId, TrustedPeerView>::empty());
        table
    }

    /// Returns the record trusted for a peer.
    pub fn trusted_peer(&self, peer_id: PeerId) -> (found: Option<TrustedPeer>)
        ensures
            match found {
                Some(p) => stored_for(self@, peer_id) == Some(p@),
                None => stored_for(self@, peer_id) is None,
            },
    {
        let key = peer_id.as_u128();
        match self.peers.get(&key) {
            Some(stored) => Some(stored.clone()),
            None => None,
        }
    }

    /// Applies trust on first use: records the candidate for an unknown
    /// peer, accepts it unchanged when the peer's pin is already trusted,
    /// and refuses a changed pin.
    pub fn record_first_use(&mut self, candidate: TrustedPeer) -> (outcome: Result<bool, TrustStoreError>)
        ensures
            outcome == first_use_outcome(stored_for(old(self)@, candidate@.peer_id), candidate@),
            final(self)@ == table_after(old(self)@, candidate@),
    {
        let peer_id = candidate.peer_id();
        let key = peer_id.as_u128();
        match self.peers.get(&key) {
            Some(stored) => decide_first_use(Some(stored), &candidate),
            None => {
                self.add_new(peer_id, candidate);
                Ok(true)
            },
        }
    }

    /// Adds a record loaded from storage, unless the peer already has one;
    /// returns whether it was added.
    pub fn load_entry(&mut self, peer_id: PeerId, peer: TrustedPeer) -> (added: bool)
        ensures
            added == !old(self)@.contains_key(peer_id),
            final(self)@ == if added { old(self)@.insert(peer_id, peer@) } else { old(self)@ },
    {
        let key = peer_id.as_u128();
        if self.peers.contains_key(&key) {
            false
        } else {
            self.add_new(peer_id, peer);
            true
        }
    }

    fn add_new(&mut self, peer_id: PeerId, peer: TrustedPeer)
        requires
            !old(self)@.contains_key(peer_id),
        ensures
            final(self)@ == old(self)@.insert(peer_id, peer@),
    {
        let ghost value = peer@;
        self.peers.insert(peer_id.as_u128(), peer);
        assert forall|p: PeerId| #[trigger] final(self)@.contains_key(p) == old(self)@.insert(peer_id, value).contains_key(p) by {
            if p.spec_value() == peer_id.spec_value() {
                PeerId::lemma_value_determines(p, peer_id);
            }
        }
        assert(final(self)@ =~= old(self)@.insert(peer_id, value)) by {
            assert forall|p: PeerId| final(self)@.contains_key(p) implies #[trigger] final(self)@[p] == old(self)@.insert(peer_id, value)[p] by {
                if p.spec_value() == peer_id.spec_value() {
                    PeerId::lemma_value_determines(p, peer_id);
                }
            }
        }
    }

    /// Returns every record with the peer it is kept under, for storage.
    pub fn entries(&self) -> (entries: Vec<(PeerId, TrustedPeer)>)
        ensures
            entries_table(entry_views(entries@)) == self@,
            keys_distinct(entry_views(entries@)),
    {
        let ghost items = spec_hash_map_iter(&self.peers).remaining();
        let mut copy: Vec<(PeerId, TrustedPeer)> = Vec::new();
        for pair in it: self.peers.iter()
            invariant
                copy@.len() == it.index(),
                it.seq() == items,
                forall|j: int| 0 <= j < copy@.len() ==> (#[trigger] copy@[j]).0.spec_value() == *it.seq()[j].0
                    && copy@[j].1@ == (*it.seq()[j].1)@,
        {
            copy.push((PeerId::from_u128(*pair.0), pair.1.clone()));
        }
        proof {
            let views = entry_views(copy@);
            assert(copy@.len() == items.len());
            assert forall|i: int, j: int| 0 <= i < j < views.len() implies #[trigger] views[i].0 != #[trigger] views[j].0 by {
                if views[i].0 == views[j].0 {
                    assert(*items[i].0 == *items[j].0);
                    assert(self.peers@[*items[i].0] == *items[i].1);
                    assert(self.peers@[*items[j].0] == *items[j].1);
                    assert(items[i] == items[j]);
                }
            }
            assert forall|p: PeerId| #[trigger] entries_table(views).contains_key(p) == self@.contains_key(p) by {
                if self.peers@.contains_key(p.spec_value()) {
                    let k = p.spec_value();
                    assert(items.contains((&k, &self.peers@[k])));
                    let i = choose|i: int| 0 <= i < items.len() && items[i] == (&k, &self.peers@[k]);
                    PeerId::lemma_value_determines(views[i].0, p);
                    lemma_entry_found(views, i);
                } else {
                    assert forall|i: int| 0 <= i < views.len() implies #[trigger] views[i].0 != p by {
                        assert(self.peers@.contains_key(*items[i].0));
                    }
                    lemma_entry_absent(views, p);
                }
            }
            assert(entries_table(views) =~= self@) by {
                assert forall|p: PeerId| entries_table(views).contains_key(p) implies #[trigger] entries_table(views)[p] == self@[p] by {
                    let k = p.spec_value();
                    assert(items.contains((&k, &self.peers@[k])));
                    let i = choose|i: int| 0 <= i < items.len() && items[i] == (&k, &self.peers@[k]);
                    PeerId::lemma_value_determines(views[i].0, p);
                    lemma_entry_found(views, i);
                }
            }
        }
        copy
    }
}

impl Clone for TrustTable {
    fn clone(&self) -> (copy: Self)
        ensures
            copy@ == self@,
    {
        TrustTable { peers: self.peers.clone() }
    }
}

/// Law (trust on first use, for the table): a table records the first
/// certificate of each peer, and afterwards accepts exactly the pin it
/// recorded, whatever order other peers arrive in.
pub proof fn lemma_table_keeps_first_pin(table: Map<PeerId, TrustedPeerView>, first: TrustedPeerView, other: TrustedPeerView, later: TrustedPeerView)
    requires
        !table.contains_key(first.peer_id),
        later.peer_id == first.peer_id,
    ensures
        ({
            let recorded = table_after(table_after(table, first), other);
            &&& stored_for(recorded, first.peer_id) == Some(first)
            &&& (first_use_outcome(stored_for(recorded, later.peer_id), later) is Ok <==> later.pin == first.pin)
        }),
{
}

} // verus!
