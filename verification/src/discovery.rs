//! The DNS-SD TXT record that announces a peer, and its decoding.

use base64::engine::general_purpose::STANDARD;
use base64::Engine;
use vstd::prelude::*;

use crate::ids::{format_uuid, parse_uuid, uuid_hyphenated, uuid_parse, PeerId};

verus! {

/// DNS-SD service type used by peers.
pub const SERVICE_TYPE: &'static str = "_zenpaws._tcp.local.";

/// Length of one certificate chunk in the TXT record.
pub const CERTIFICATE_CHUNK: usize = 200;

/// The decimal text of a number, as `usize::to_string` writes it.
pub open spec fn decimal(n: nat) -> Seq<char>
    decreases n,
{
    if n < 10 {
        seq![((n + 48) as u8) as char]
    } else {
        decimal(n / 10).push((((n % 10) + 48) as u8) as char)
    }
}

/// Whether every character is an ASCII digit.
pub open spec fn all_digits(s: Seq<char>) -> bool {
    forall|i: int| 0 <= i < s.len() ==> '0' <= #[trigger] s[i] <= '9'
}

/// The value of a string of ASCII digits.
pub open spec fn digits_value(s: Seq<char>) -> nat
    decreases s.len(),
{
    if s.len() == 0 {
        0
    } else {
        digits_value(s.drop_last()) * 10 + ((s.last() as u32) - 48) as nat
    }
}

/// What `str::parse::<usize>` makes of a string: an optional `+`, then one or
/// more ASCII digits whose value fits in `usize`.
pub open spec fn parse_usize_text(s: Seq<char>) -> Option<usize> {
    let digits = if s.len() > 0 && s[0] == '+' { s.drop_first() } else { s };
    if digits.len() > 0 && all_digits(digits) && digits_value(digits) <= usize::MAX {
        Some(digits_value(digits) as usize)
    } else {
        None
    }
}

/// The decimal text of a number is a nonempty run of digits that reads back as the number.
proof fn lemma_decimal(n: nat)
    ensures
        decimal(n).len() > 0,
        all_digits(decimal(n)),
        digits_value(decimal(n)) == n,
    decreases n,
{
    let digit = n % 10;
    let c = ((digit + 48) as u8) as char;
    assert((c as u32) == digit + 48) by {
        assert(0 <= digit + 48 < 256);
    }
    if n < 10 {
        let d = decimal(n);
        assert(d.drop_last() =~= Seq::<char>::empty());
        assert(digit == n);
        assert(d.last() == c);
        assert(digits_value(d) == digits_value(d.drop_last()) * 10 + ((d.last() as u32) - 48) as nat);
    } else {
        lemma_decimal(n / 10);
        let d = decimal(n);
        assert(d.drop_last() =~= decimal(n / 10));
        assert(d.last() == c);
        assert(digits_value(d) == digits_value(d.drop_last()) * 10 + ((d.last() as u32) - 48) as nat);
        assert(n == (n / 10) * 10 + digit);
        assert forall|i: int| 0 <= i < d.len() implies '0' <= #[trigger] d[i] <= '9' by {
            if i < d.len() - 1 {
                assert(d[i] == decimal(n / 10)[i]);
            }
        }
    }
}

/// `str::parse::<usize>` reads the decimal text of a number back as that number.
proof fn lemma_parse_decimal(n: usize)
    ensures
        parse_usize_text(decimal(n as nat)) == Some(n),
{
    lemma_decimal(n as nat);
    let d = decimal(n as nat);
    assert('0' <= d[0] <= '9');
}

/// Different numbers have different decimal texts.
proof fn lemma_decimal_injective(a: nat, b: nat)
    requires
        decimal(a) == decimal(b),
    ensures
        a == b,
{
    lemma_decimal(a);
    lemma_decimal(b);
}

/// The standard, padded base64 text of a byte string, as the `base64` crate writes it.
pub uninterp spec fn base64_text(data: Seq<u8>) -> Seq<char>;

/// What the `base64` crate's standard engine decodes from a text, or `None`
/// when the text is no canonical padded base64.
pub uninterp spec fn base64_bytes(text: Seq<char>) -> Option<Seq<u8>>;

/// Calls `usize::to_string`, which writes the number in decimal.
#[verifier::external_body]
fn usize_to_decimal(n: usize) -> (text: String)
    ensures
        text@ == decimal(n as nat),
{
    n.to_string()
}

/// Calls `str::parse::<usize>`, which accepts an optional `+` followed by
/// ASCII digits whose value fits in `usize`.
#[verifier::external_body]
fn parse_usize(text: &str) -> (n: Option<usize>)
    ensures
        n == parse_usize_text(text@),
{
    text.parse::<usize>().ok()
}

/// Calls the `base64` crate's `STANDARD.encode`, whose output is padded
/// base64 (four characters for every started group of three bytes) over the ASCII alphabet `A-Z a-z 0-9 + /` and `=`, and which
/// `STANDARD.decode` reads back as the input; the encoder panics only when
/// the output length overflows `usize`.
#[verifier::external_body]
fn base64_encode(data: &[u8]) -> (text: String)
    requires
        data@.len() <= usize::MAX / 2,
    ensures
        text@ == base64_text(data@),
        text@.len() == 4 * ((data@.len() + 2) / 3),
        text.is_ascii(),
        base64_bytes(text@) == Some(data@),
{
    STANDARD.encode(data)
}

/// Calls the `base64` crate's `STANDARD.decode`.
#[verifier::external_body]
fn base64_decode(text: &str) -> (data: Option<Vec<u8>>)
    ensures
        match data {
            Some(bytes) => base64_bytes(text@) == Some(bytes@),
            None => base64_bytes(text@) is None,
        },
{
    STANDARD.decode(text).ok()
}

/// Writes the TXT key of the `index`-th certificate chunk with `format!`.
#[verifier::external_body]
fn certificate_part_key(index: usize) -> (key: String)
    ensures
        key@ == "certificate_"@ + decimal(index as nat),
{
    format!("certificate_{index}")
}

/// Writes the DNS-SD instance name of a peer with `format!`.
#[verifier::external_body]
fn format_instance_name(peer: u128) -> (name: String)
    ensures
        name@ == "zenpaws-"@ + uuid_hyphenated(peer),
{
    format!("zenpaws-{}", uuid::Uuid::from_u128(peer))
}

/// Writes the TLS server name of a peer with `format!`.
#[verifier::external_body]
fn format_server_name(peer: u128) -> (name: String)
    ensures
        name@ == "zenpaws-"@ + uuid_hyphenated(peer) + ".local"@,
{
    format!("zenpaws-{}.local", uuid::Uuid::from_u128(peer))
}

/// The DNS-SD instance name a peer advertises itself under.
pub fn instance_name(peer_id: PeerId) -> (name: String)
    ensures
        name@ == "zenpaws-"@ + uuid_hyphenated(peer_id.spec_value()),
{
    format_instance_name(peer_id.as_u128())
}

/// The TLS server name a peer's certificate is issued for.
pub fn server_name(peer_id: PeerId) -> (name: String)
    ensures
        name@ == "zenpaws-"@ + uuid_hyphenated(peer_id.spec_value()) + ".local"@,
{
    format_server_name(peer_id.as_u128())
}

/// The number of chunks a text of `len` characters is cut into.
pub open spec fn chunk_count(len: nat) -> nat {
    (len + 199) / 200
}

/// The `i`-th chunk of a text: at most 200 characters from offset `200 * i`.
pub open spec fn chunk(text: Seq<char>, i: int) -> Seq<char> {
    let start = 200 * i;
    let end = if start + 200 <= text.len() { start + 200 } else { text.len() as int };
    text.subrange(start, end)
}

/// The TXT properties that announce a peer: its UUID, its display name, the
/// number of certificate chunks, and the chunks of its base64 certificate.
pub open spec fn advertised_properties(peer: u128, username: Seq<char>, certificate_der: Seq<u8>) -> Seq<(Seq<char>, Seq<char>)> {
    let text = base64_text(certificate_der);
    let n = chunk_count(text.len());
    seq![
        ("uuid"@, uuid_hyphenated(peer)),
        ("username"@, username),
        ("certificate_parts"@, decimal(n)),
    ] + Seq::new(n, |i: int| ("certificate_"@ + decimal(i as nat), chunk(text, i)))
}

/// The chunks `0..k` of an advertised certificate join to the first
/// `200 * k` characters of its base64 text.
proof fn lemma_advertised_chunks(peer: u128, username: Seq<char>, certificate_der: Seq<u8>, k: nat)
    requires
        k <= chunk_count(base64_text(certificate_der).len()),
    ensures
        joined_chunks(advertised_properties(peer, username, certificate_der), k) == Some(
            base64_text(certificate_der).subrange(
                0,
                if 200 * k <= base64_text(certificate_der).len() { (200 * k) as int } else { base64_text(certificate_der).len() as int },
            ),
        ),
    decreases k,
{
    let text = base64_text(certificate_der);
    let props = advertised_properties(peer, username, certificate_der);
    let n = chunk_count(text.len());
    if k == 0 {
        assert(text.subrange(0, 0) =~= Seq::<char>::empty());
    } else {
        let i = (k - 1) as nat;
        lemma_advertised_chunks(peer, username, certificate_der, i);
        assert(200 * i < text.len());
        assert(props[3 + i as int] == (part_key(i), chunk(text, i as int)));
        lemma_part_keys(i, i);
        assert forall|j: int| 0 <= j < 3 + i implies !keys_match(#[trigger] props[j].0, part_key(i)) by {
            if j >= 3 {
                assert(props[j] == (part_key((j - 3) as nat), chunk(text, j - 3)));
                lemma_part_keys((j - 3) as nat, i);
            } else {
                lemma_part_keys(i, i);
            }
        }
        lemma_lookup_first(props, part_key(i), 3 + i as int);
        assert(text.subrange(0, (200 * i) as int) + chunk(text, i as int) =~= text.subrange(
            0,
            if 200 * k <= text.len() { (200 * k) as int } else { text.len() as int },
        ));
    }
}

/// An advertisement resolves back to the peer it announces, at the first
/// IPv4 address and the port it was resolved with.
proof fn lemma_advertised_resolves(
    peer: u128,
    username: Seq<char>,
    certificate_der: Seq<u8>,
    addresses: Seq<[u8; 4]>,
    port: u16,
)
    requires
        uuid_parse(uuid_hyphenated(peer)) == Some(peer),
        base64_bytes(base64_text(certificate_der)) == Some(certificate_der),
        chunk_count(base64_text(certificate_der).len()) <= usize::MAX,
        addresses.len() > 0,
    ensures
        resolved_outcome(advertised_properties(peer, username, certificate_der), addresses, port) == Ok::<DiscoveredPeerView, DiscoveryError>(DiscoveredPeerView {
            certificate_der,
            endpoint: PeerAddress { ip: addresses[0], port },
            peer_id: peer,
            username,
        }),
{
    reveal_strlit("uuid");
    reveal_strlit("username");
    reveal_strlit("certificate_parts");
    let text = base64_text(certificate_der);
    let props = advertised_properties(peer, username, certificate_der);
    let n = chunk_count(text.len());
    lemma_lookup_first(props, "uuid"@, 0);
    lemma_lookup_first(props, "username"@, 1);
    lemma_lookup_first(props, "certificate_parts"@, 2);
    lemma_parse_decimal(n as usize);
    lemma_advertised_chunks(peer, username, certificate_der, n);
    assert(text.subrange(0, text.len() as int) =~= text);
}

/// Whether two property lists hold the same entries, in whatever order.
pub open spec fn same_entries(a: Seq<(Seq<char>, Seq<char>)>, b: Seq<(Seq<char>, Seq<char>)>) -> bool {
    forall|e: (Seq<char>, Seq<char>)| a.contains(e) <==> b.contains(e)
}

/// Where some key matches, the lookup finds the first entry that does.
proof fn lemma_lookup_found(props: Seq<(Seq<char>, Seq<char>)>, key: Seq<char>) -> (j: int)
    requires
        exists|i: int| 0 <= i < props.len() && keys_match(#[trigger] props[i].0, key),
    ensures
        0 <= j < props.len(),
        keys_match(props[j].0, key),
        lookup_property(props, key) == Some(props[j].1),
    decreases props.len(),
{
    if keys_match(props[0].0, key) {
        0
    } else {
        let rest = props.drop_first();
        let i = choose|i: int| 0 <= i < props.len() && keys_match(#[trigger] props[i].0, key);
        assert(rest[i - 1] == props[i]);
        let j = lemma_lookup_found(rest, key);
        assert(rest[j] == props[j + 1]);
        j + 1
    }
}

/// A lookup gives the same value in any list with the same entries, when
/// every entry whose key matches is the same entry.
proof fn lemma_lookup_any_order(
    props: Seq<(Seq<char>, Seq<char>)>,
    received: Seq<(Seq<char>, Seq<char>)>,
    key: Seq<char>,
    i: int,
)
    requires
        same_entries(received, props),
        0 <= i < props.len(),
        keys_match(props[i].0, key),
        forall|j: int| 0 <= j < props.len() && keys_match(#[trigger] props[j].0, key) ==> props[j] == props[i],
    ensures
        lookup_property(received, key) == Some(props[i].1),
{
    assert(props.contains(props[i]));
    assert(received.contains(props[i]));
    let k = choose|k: int| 0 <= k < received.len() && received[k] == props[i];
    assert(keys_match(received[k].0, key));
    let j = lemma_lookup_found(received, key);
    assert(received.contains(received[j]));
    assert(props.contains(received[j]));
    let m = choose|m: int| 0 <= m < props.len() && props[m] == received[j];
    assert(keys_match(props[m].0, key));
}

/// Chunk joins agree where every chunk lookup agrees.
proof fn lemma_joined_agree(a: Seq<(Seq<char>, Seq<char>)>, b: Seq<(Seq<char>, Seq<char>)>, n: nat)
    requires
        forall|i: nat| i < n ==> lookup_property(a, #[trigger] part_key(i)) == lookup_property(b, part_key(i)),
    ensures
        joined_chunks(a, n) == joined_chunks(b, n),
    decreases n,
{
    if n > 0 {
        let i = (n - 1) as nat;
        assert(lookup_property(a, part_key(i)) == lookup_property(b, part_key(i)));
        lemma_joined_agree(a, b, i);
    }
}

/// An advertisement resolves back to the peer it announces whatever order
/// its TXT properties arrive in.
proof fn lemma_advertised_resolves_any_order(
    peer: u128,
    username: Seq<char>,
    certificate_der: Seq<u8>,
    received: Seq<(Seq<char>, Seq<char>)>,
    addresses: Seq<[u8; 4]>,
    port: u16,
)
    requires
        uuid_parse(uuid_hyphenated(peer)) == Some(peer),
        base64_bytes(base64_text(certificate_der)) == Some(certificate_der),
        chunk_count(base64_text(certificate_der).len()) <= usize::MAX,
        addresses.len() > 0,
        same_entries(received, advertised_properties(peer, username, certificate_der)),
    ensures
        resolved_outcome(received, addresses, port) == Ok::<DiscoveredPeerView, DiscoveryError>(DiscoveredPeerView {
            certificate_der,
            endpoint: PeerAddress { ip: addresses[0], port },
            peer_id: peer,
            username,
        }),
{
    reveal_strlit("uuid");
    reveal_strlit("username");
    reveal_strlit("certificate_parts");
    let props = advertised_properties(peer, username, certificate_der);
    let n = chunk_count(base64_text(certificate_der).len());
    let headers = seq!["uuid"@, "username"@, "certificate_parts"@];
    assert forall|h: int, j: int| 0 <= h < 3 && 0 <= j < props.len() && #[trigger] keys_match(props[j].0, headers[h]) implies j == h by {
        if j >= 3 {
            lemma_part_keys((j - 3) as nat, 0);
        } else if j != h {
            assert(props[j].0.len() != headers[h].len());
        }
    }
    assert(props[0].0 == headers[0] && props[1].0 == headers[1] && props[2].0 == headers[2]);
    assert(keys_match(props[0].0, "uuid"@) && keys_match(props[1].0, "username"@) && keys_match(props[2].0, "certificate_parts"@));
    assert forall|h: int| 0 <= h < 3 implies lookup_property(received, #[trigger] headers[h]) == Some(props[h].1) by {
        assert(keys_match(props[h].0, headers[h]));
        lemma_lookup_any_order(props, received, headers[h], h);
    }
    assert(lookup_property(received, headers[0]) == Some(props[0].1));
    assert(lookup_property(received, headers[1]) == Some(props[1].1));
    assert(lookup_property(received, headers[2]) == Some(props[2].1));
    lemma_lookup_first(props, "uuid"@, 0);
    lemma_lookup_first(props, "username"@, 1);
    lemma_lookup_first(props, "certificate_parts"@, 2);
    assert forall|i: nat| i < n implies lookup_property(received, #[trigger] part_key(i)) == lookup_property(props, part_key(i)) by {
        let at = 3 + i as int;
        assert(props[at] == (part_key(i), chunk(base64_text(certificate_der), i as int)));
        lemma_part_keys(i, i);
        assert forall|j: int| 0 <= j < props.len() && keys_match(#[trigger] props[j].0, part_key(i)) implies props[j] == props[at] by {
            if j >= 3 {
                lemma_part_keys((j - 3) as nat, i);
            } else {
                lemma_part_keys(i, i);
                assert(props[j].0 == headers[j]);
            }
        }
        lemma_lookup_any_order(props, received, part_key(i), at);
        assert forall|j: int| 0 <= j < at implies !keys_match(#[trigger] props[j].0, part_key(i)) by {
            if j >= 3 {
                lemma_part_keys((j - 3) as nat, i);
            } else {
                assert(props[j].0 == headers[j]);
            }
        }
        lemma_lookup_first(props, part_key(i), at);
    }
    lemma_parse_decimal(n as usize);
    lemma_joined_agree(received, props, n);
    lemma_advertised_resolves(peer, username, certificate_der, addresses, port);
}

/// Key and value pairs as texts.
pub open spec fn text_pairs(properties: Seq<(String, String)>) -> Seq<(Seq<char>, Seq<char>)> {
    properties.map_values(|p: (String, String)| (p.0@, p.1@))
}

/// Builds the TXT properties that announce this peer's TLS listener.
pub fn advertisement_properties(peer_id: PeerId, username: &str, certificate_der: &[u8]) -> (properties: Vec<(String, String)>)
    requires
        certificate_der@.len() <= usize::MAX / 2,
    ensures
        text_pairs(properties@) == advertised_properties(peer_id.spec_value(), username@, certificate_der@),
        forall|addresses: Seq<[u8; 4]>, port: u16| addresses.len() > 0 ==> #[trigger] resolved_outcome(
            text_pairs(properties@),
            addresses,
            port,
        ) == Ok::<DiscoveredPeerView, DiscoveryError>(DiscoveredPeerView {
            certificate_der: certificate_der@,
            endpoint: PeerAddress { ip: addresses[0], port },
            peer_id: peer_id.spec_value(),
            username: username@,
        }),
        forall|received: Seq<(Seq<char>, Seq<char>)>, addresses: Seq<[u8; 4]>, port: u16|
            addresses.len() > 0 && same_entries(received, text_pairs(properties@)) ==> #[trigger] resolved_outcome(
                received,
                addresses,
                port,
            ) == Ok::<DiscoveredPeerView, DiscoveryError>(DiscoveredPeerView {
                certificate_der: certificate_der@,
                endpoint: PeerAddress { ip: addresses[0], port },
                peer_id: peer_id.spec_value(),
                username: username@,
            }),
{
    let mut properties: Vec<(String, String)> = Vec::new();
    properties.push(("uuid".to_string(), format_uuid(peer_id.as_u128())));
    properties.push(("username".to_string(), username.to_string()));
    let text = base64_encode(certificate_der);
    let len = text.as_str().unicode_len();
    assert(len <= usize::MAX - 400);
    let count = (len + 199) / 200;
    properties.push(("certificate_parts".to_string(), usize_to_decimal(count)));
    let ghost spec_props = advertised_properties(peer_id.spec_value(), username@, certificate_der@);
    let mut i: usize = 0;
    while i < count
        invariant
            i <= count,
            count == chunk_count(text@.len()),
            len == text@.len(),
            len <= usize::MAX - 400,
            text.is_ascii(),
            text@ == base64_text(certificate_der@),
            spec_props == advertised_properties(peer_id.spec_value(), username@, certificate_der@),
            properties@.len() == 3 + i,
            forall|j: int| 0 <= j < 3 + i ==> (#[trigger] properties@[j]).0@ == spec_props[j].0 && properties@[j].1@ == spec_props[j].1,
        decreases count - i,
    {
        assert(200 * i < len) by (nonlinear_arith)
            requires
                i < count,
                count == (len + 199) / 200,
        ;
        let start = 200 * i;
        let end = if start + 200 <= len { start + 200 } else { len };
        let part = text.as_str().substring_ascii(start, end);
        properties.push((certificate_part_key(i), part.to_string()));
        i = i + 1;
    }
    assert(text_pairs(properties@) =~= spec_props);
    assert forall|addresses: Seq<[u8; 4]>, port: u16| addresses.len() > 0 implies #[trigger] resolved_outcome(
        text_pairs(properties@),
        addresses,
        port,
    ) == Ok::<DiscoveredPeerView, DiscoveryError>(DiscoveredPeerView {
        certificate_der: certificate_der@,
        endpoint: PeerAddress { ip: addresses[0], port },
        peer_id: peer_id.spec_value(),
        username: username@,
    }) by {
        lemma_advertised_resolves(peer_id.spec_value(), username@, certificate_der@, addresses, port);
    }
    assert forall|received: Seq<(Seq<char>, Seq<char>)>, addresses: Seq<[u8; 4]>, port: u16|
        addresses.len() > 0 && same_entries(received, text_pairs(properties@)) implies #[trigger] resolved_outcome(
            received,
            addresses,
            port,
        ) == Ok::<DiscoveredPeerView, DiscoveryError>(DiscoveredPeerView {
            certificate_der: certificate_der@,
            endpoint: PeerAddress { ip: addresses[0], port },
            peer_id: peer_id.spec_value(),
            username: username@,
        }) by {
        lemma_advertised_resolves_any_order(peer_id.spec_value(), username@, certificate_der@, received, addresses, port);
    }
    properties
}

/// mDNS discovery failures.
#[derive(Clone, Copy, Debug, PartialEq, Eq, Structural)]
pub enum DiscoveryError {
    Mdns,
    EventChannelClosed,
    InvalidCertificateEncoding,
    InvalidMetadata,
    MissingMetadata,
    MissingIpv4Address,
}

/// An IPv4 TCP endpoint.
#[derive(Clone, Copy, Debug, PartialEq, Eq)]
pub struct PeerAddress {
    pub ip: [u8; 4],
    pub port: u16,
}

/// A resolved DNS-SD service as the discovery daemon reports it: its TXT
/// properties as key and text value, in record order, its IPv4 addresses,
/// and its port.
pub struct ServiceRecord {
    pub properties: Vec<(String, String)>,
    pub addresses_v4: Vec<[u8; 4]>,
    pub port: u16,
}

/// The abstract content of a discovered peer.
pub ghost struct DiscoveredPeerView {
    pub certificate_der: Seq<u8>,
    pub endpoint: PeerAddress,
    pub peer_id: u128,
    pub username: Seq<char>,
}

/// A resolved peer that is ready for pinned outbound TLS.
#[derive(Clone, Debug, PartialEq, Eq)]
pub struct DiscoveredPeer {
    pub certificate_der: Vec<u8>,
    pub endpoint: PeerAddress,
    pub peer_id: PeerId,
    pub username: String,
}

impl View for DiscoveredPeer {
    type V = DiscoveredPeerView;

    open spec fn view(&self) -> DiscoveredPeerView {
        DiscoveredPeerView {
            certificate_der: self.certificate_der@,
            endpoint: self.endpoint,
            peer_id: self.peer_id.spec_value(),
            username: self.username@,
        }
    }
}

/// ASCII lowercase of one character.
pub open spec fn ascii_lower(c: char) -> char {
    if 'A' <= c <= 'Z' { ((c as u32) + 32) as char } else { c }
}

/// Whether two keys are equal when ASCII letters are compared without case.
pub open spec fn keys_match(a: Seq<char>, b: Seq<char>) -> bool {
    a.len() == b.len() && forall|i: int| 0 <= i < a.len() ==> ascii_lower(#[trigger] a[i]) == ascii_lower(b[i])
}

/// The value of the first property whose key matches, ignoring ASCII case.
pub open spec fn lookup_property(properties: Seq<(Seq<char>, Seq<char>)>, key: Seq<char>) -> Option<Seq<char>>
    decreases properties.len(),
{
    if properties.len() == 0 {
        None
    } else if keys_match(properties[0].0, key) {
        Some(properties[0].1)
    } else {
        lookup_property(properties.drop_first(), key)
    }
}

/// The first property whose key matches is the one looked up.
proof fn lemma_lookup_first(props: Seq<(Seq<char>, Seq<char>)>, key: Seq<char>, i: int)
    requires
        0 <= i < props.len(),
        keys_match(props[i].0, key),
        forall|j: int| 0 <= j < i ==> !keys_match(#[trigger] props[j].0, key),
    ensures
        lookup_property(props, key) == Some(props[i].1),
    decreases i,
{
    if i > 0 {
        let rest = props.drop_first();
        assert forall|j: int| 0 <= j < i - 1 implies !keys_match(#[trigger] rest[j].0, key) by {
            assert(rest[j] == props[j + 1]);
        }
        assert(!keys_match(props[0].0, key));
        lemma_lookup_first(rest, key, i - 1);
    }
}

/// The TXT key of the `i`-th certificate chunk.
pub open spec fn part_key(i: nat) -> Seq<char> {
    "certificate_"@ + decimal(i)
}

/// Chunk keys match only themselves, and none matches a header key.
proof fn lemma_part_keys(i: nat, j: nat)
    ensures
        keys_match(part_key(i), part_key(i)),
        i != j ==> !keys_match(part_key(i), part_key(j)),
        !keys_match(part_key(i), "uuid"@),
        !keys_match(part_key(i), "username"@),
        !keys_match(part_key(i), "certificate_parts"@),
        !keys_match("uuid"@, part_key(i)),
        !keys_match("username"@, part_key(i)),
        !keys_match("certificate_parts"@, part_key(i)),
{
    reveal_strlit("certificate_");
    reveal_strlit("uuid");
    reveal_strlit("username");
    reveal_strlit("certificate_parts");
    lemma_decimal(i);
    lemma_decimal(j);
    let a = part_key(i);
    let b = part_key(j);
    assert forall|k: int| 12 <= k < a.len() implies ascii_lower(#[trigger] a[k]) == a[k] && '0' <= a[k] <= '9' by {
        assert(a[k] == decimal(i)[k - 12]);
    }
    if i != j && keys_match(a, b) {
        assert forall|k: int| 12 <= k < b.len() implies ascii_lower(#[trigger] b[k]) == b[k] by {
            assert(b[k] == decimal(j)[k - 12]);
        }
        assert(decimal(i) =~= decimal(j)) by {
            assert forall|k: int| 0 <= k < decimal(i).len() implies decimal(i)[k] == decimal(j)[k] by {
                assert(a[k + 12] == decimal(i)[k]);
                assert(b[k + 12] == decimal(j)[k]);
                assert(ascii_lower(a[k + 12]) == ascii_lower(b[k + 12]));
            }
        }
        lemma_decimal_injective(i, j);
    }
    if keys_match(a, "certificate_parts"@) {
        assert(ascii_lower(a[12]) == ascii_lower("certificate_parts"@[12]));
    }
}

/// The certificate chunks `0..n` joined in order, or `None` when one is missing.
pub open spec fn joined_chunks(properties: Seq<(Seq<char>, Seq<char>)>, n: nat) -> Option<Seq<char>>
    decreases n,
{
    if n == 0 {
        Some(Seq::empty())
    } else {
        match joined_chunks(properties, (n - 1) as nat) {
            Some(text) => match lookup_property(properties, "certificate_"@ + decimal((n - 1) as nat)) {
                Some(part) => Some(text + part),
                None => None,
            },
            None => None,
        }
    }
}

/// A missing chunk keeps every longer join missing.
proof fn lemma_joined_missing(properties: Seq<(Seq<char>, Seq<char>)>, n: nat, m: nat)
    requires
        joined_chunks(properties, n) is None,
        n <= m,
    ensures
        joined_chunks(properties, m) is None,
    decreases m - n,
{
    if n < m {
        lemma_joined_missing(properties, n, (m - 1) as nat);
    }
}

/// The properties of a record, each as key and value text.
pub open spec fn record_properties(record: ServiceRecord) -> Seq<(Seq<char>, Seq<char>)> {
    text_pairs(record.properties@)
}

/// What resolved TXT properties, IPv4 addresses and port say about a peer,
/// checking the UUID, the display name, the chunk count, every chunk, the
/// base64 certificate, and an IPv4 address, in that order.
pub open spec fn resolved_outcome(props: Seq<(Seq<char>, Seq<char>)>, addresses: Seq<[u8; 4]>, port: u16) -> Result<DiscoveredPeerView, DiscoveryError> {
    match lookup_property(props, "uuid"@) {
        None => Err(DiscoveryError::MissingMetadata),
        Some(uuid_text) => match uuid_parse(uuid_text) {
            None => Err(DiscoveryError::InvalidMetadata),
            Some(peer) => match lookup_property(props, "username"@) {
                None => Err(DiscoveryError::MissingMetadata),
                Some(username) => match lookup_property(props, "certificate_parts"@) {
                    None => Err(DiscoveryError::MissingMetadata),
                    Some(count_text) => match parse_usize_text(count_text) {
                        None => Err(DiscoveryError::InvalidMetadata),
                        Some(count) => match joined_chunks(props, count as nat) {
                            None => Err(DiscoveryError::MissingMetadata),
                            Some(encoded) => match base64_bytes(encoded) {
                                None => Err(DiscoveryError::InvalidCertificateEncoding),
                                Some(certificate_der) => if addresses.len() == 0 {
                                    Err(DiscoveryError::MissingIpv4Address)
                                } else {
                                    Ok(DiscoveredPeerView {
                                        certificate_der,
                                        endpoint: PeerAddress { ip: addresses[0], port },
                                        peer_id: peer,
                                        username,
                                    })
                                },
                            },
                        },
                    },
                },
            },
        },
    }
}

/// What a resolved record says about a peer.
pub open spec fn resolved_peer_outcome(record: ServiceRecord) -> Result<DiscoveredPeerView, DiscoveryError> {
    resolved_outcome(record_properties(record), record.addresses_v4@, record.port)
}

fn same_key(a: &str, b: &str) -> (same: bool)
    ensures
        same == keys_match(a@, b@),
{
    let n = a.unicode_len();
    if n != b.unicode_len() {
        return false;
    }
    let mut i: usize = 0;
    while i < n
        invariant
            n == a@.len(),
            n == b@.len(),
            i <= n,
            forall|j: int| 0 <= j < i ==> ascii_lower(#[trigger] a@[j]) == ascii_lower(b@[j]),
        decreases n - i,
    {
        let x = a.get_char(i);
        let y = b.get_char(i);
        let lx = if 'A' <= x && x <= 'Z' { ((x as u8) + 32) as char } else { x };
        let ly = if 'A' <= y && y <= 'Z' { ((y as u8) + 32) as char } else { y };
        if lx != ly {
            return false;
        }
        i = i + 1;
    }
    true
}

/// Looks up a TXT property, ignoring ASCII case in the key.
pub fn property_value(record: &ServiceRecord, key: &str) -> (value: Option<String>)
    ensures
        match value {
            Some(v) => lookup_property(record_properties(*record), key@) == Some(v@),
            None => lookup_property(record_properties(*record), key@) is None,
        },
{
    let ghost props = record_properties(*record);
    assert(props.subrange(0, props.len() as int) =~= props);
    let mut i: usize = 0;
    while i < record.properties.len()
        invariant
            i <= record.properties@.len(),
            props == record_properties(*record),
            lookup_property(props, key@) == lookup_property(props.subrange(i as int, props.len() as int), key@),
        decreases record.properties@.len() - i,
    {
        assert(props.subrange(i as int, props.len() as int).drop_first() =~= props.subrange(i + 1, props.len() as int));
        let entry = &record.properties[i];
        if same_key(entry.0.as_str(), key) {
            return Some(entry.1.clone());
        }
        i = i + 1;
    }
    None
}

/// Decodes a resolved DNS-SD record into a peer carrying the TLS metadata
/// needed to connect to it.
#[verifier::loop_isolation(false)]
pub fn parse_resolved_peer(record: &ServiceRecord) -> (peer: Result<DiscoveredPeer, DiscoveryError>)
    ensures
        match (peer, resolved_peer_outcome(*record)) {
            (Ok(p), Ok(v)) => p@ == v,
            (Err(e), Err(f)) => e == f,
            _ => false,
        },
{
    let uuid_text = match property_value(record, "uuid") {
        Some(text) => text,
        None => return Err(DiscoveryError::MissingMetadata),
    };
    let peer_id = match parse_uuid(uuid_text.as_str()) {
        Some(value) => PeerId::from_u128(value),
        None => return Err(DiscoveryError::InvalidMetadata),
    };
    let username = match property_value(record, "username") {
        Some(text) => text,
        None => return Err(DiscoveryError::MissingMetadata),
    };
    let count_text = match property_value(record, "certificate_parts") {
        Some(text) => text,
        None => return Err(DiscoveryError::MissingMetadata),
    };
    let count = match parse_usize(count_text.as_str()) {
        Some(count) => count,
        None => return Err(DiscoveryError::InvalidMetadata),
    };
    let mut encoded = String::new();
    let mut index: usize = 0;
    while index < count
        invariant
            index <= count,
            joined_chunks(record_properties(*record), index as nat) == Some(encoded@),
        decreases count - index,
    {
        let key = certificate_part_key(index);
        let part = match property_value(record, key.as_str()) {
            Some(part) => part,
            None => {
                proof {
                    assert(((index + 1) as nat - 1) as nat == index as nat);
                    assert(joined_chunks(record_properties(*record), (index + 1) as nat) is None);
                    lemma_joined_missing(record_properties(*record), (index + 1) as nat, count as nat);
                }
                return Err(DiscoveryError::MissingMetadata);
            },
        };
        encoded.append(part.as_str());
        index = index + 1;
    }
    let certificate_der = match base64_decode(encoded.as_str()) {
        Some(bytes) => bytes,
        None => return Err(DiscoveryError::InvalidCertificateEncoding),
    };
    if record.addresses_v4.len() == 0 {
        return Err(DiscoveryError::MissingIpv4Address);
    }
    let ip = record.addresses_v4[0];
    Ok(DiscoveredPeer {
        certificate_der,
        endpoint: PeerAddress { ip, port: record.port },
        peer_id,
        username,
    })
}

} // verus!
